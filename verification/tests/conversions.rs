use welds_connections::decode::TryFromTursoValue;
use welds_connections::error::Error;
use welds_connections::param::{build_params, TursoParam};
use welds_connections::row::TursoOwnedRow;
use welds_connections::value::{TursoParams, TursoValue};
use std::sync::Arc;

fn text(s: &str) -> TursoValue {
    TursoValue::Text(s.to_string())
}

fn failure(s: &str) -> Error {
    Error::ConversionFailure(s.to_string())
}

#[test]
fn small_integers_round_trip() {
    assert_eq!(i8::try_from_turso(&(-5i8).to_turso_value()), Ok(-5i8));
    assert_eq!(i16::try_from_turso(&i16::MIN.to_turso_value()), Ok(i16::MIN));
    assert_eq!(i32::try_from_turso(&i32::MAX.to_turso_value()), Ok(i32::MAX));
    assert_eq!(i64::try_from_turso(&i64::MIN.to_turso_value()), Ok(i64::MIN));
    assert_eq!(isize::try_from_turso(&(-7isize).to_turso_value()), Ok(-7isize));
    assert_eq!(u8::try_from_turso(&255u8.to_turso_value()), Ok(255u8));
    assert_eq!(u16::try_from_turso(&65535u16.to_turso_value()), Ok(65535u16));
    assert_eq!(u32::try_from_turso(&u32::MAX.to_turso_value()), Ok(u32::MAX));
    assert_eq!(u64::try_from_turso(&42u64.to_turso_value()), Ok(42u64));
    assert_eq!(usize::try_from_turso(&42usize.to_turso_value()), Ok(42usize));
}

#[test]
fn integer_params_are_integers() {
    assert_eq!(7u8.to_turso_value(), TursoValue::Integer(7));
    assert_eq!((-7i32).to_turso_value(), TursoValue::Integer(-7));
    assert_eq!(u64::MAX.to_turso_value(), TursoValue::Integer(i64::MAX));
    assert_eq!(usize::MAX.to_turso_value(), TursoValue::Integer(i64::MAX));
    assert_eq!((i64::MAX as u64).to_turso_value(), TursoValue::Integer(i64::MAX));
}

#[test]
fn large_unsigned_saturates() {
    let stored = u64::MAX.to_turso_value();
    assert_eq!(u64::try_from_turso(&stored), Ok(i64::MAX as u64));
}

#[test]
fn integer_out_of_range() {
    assert_eq!(i8::try_from_turso(&TursoValue::Integer(300)), Err(failure("integer 300 out of range for i8")));
    assert_eq!(u8::try_from_turso(&TursoValue::Integer(-1)), Err(failure("integer -1 out of range for u8")));
    assert_eq!(
        u32::try_from_turso(&TursoValue::Integer(i64::MIN)),
        Err(failure("integer -9223372036854775808 out of range for u32"))
    );
    assert_eq!(
        u64::try_from_turso(&TursoValue::Integer(-12)),
        Err(failure("integer -12 out of range for u64"))
    );
    assert_eq!(
        i16::try_from_turso(&TursoValue::Integer(32768)),
        Err(failure("integer 32768 out of range for i16"))
    );
}

#[test]
fn wrong_storage_class() {
    assert_eq!(i32::try_from_turso(&text("x")), Err(failure("cannot convert TEXT to i32")));
    assert_eq!(bool::try_from_turso(&TursoValue::Real(0)), Err(failure("cannot convert REAL to bool")));
    assert_eq!(
        String::try_from_turso(&TursoValue::Blob(vec![1])),
        Err(failure("cannot convert BLOB to String"))
    );
    assert_eq!(
        <Vec<u8>>::try_from_turso(&TursoValue::Integer(3)),
        Err(failure("cannot convert INTEGER to Vec<u8>"))
    );
    assert_eq!(u16::try_from_turso(&TursoValue::Blob(vec![])), Err(failure("cannot convert BLOB to u16")));
}

#[test]
fn null_needs_an_option() {
    assert_eq!(
        i64::try_from_turso(&TursoValue::Null),
        Err(Error::UnexpectedNoneInColumn("i64".to_string()))
    );
    assert_eq!(
        String::try_from_turso(&TursoValue::Null),
        Err(Error::UnexpectedNoneInColumn("String".to_string()))
    );
    assert_eq!(
        <Vec<u8>>::try_from_turso(&TursoValue::Null),
        Err(Error::UnexpectedNoneInColumn("Vec<u8>".to_string()))
    );
    assert_eq!(<Option<i64>>::try_from_turso(&TursoValue::Null), Ok(None));
    assert_eq!(<Option<String>>::try_from_turso(&TursoValue::Null), Ok(None));
}

#[test]
fn option_reads_inner_value() {
    assert_eq!(<Option<i64>>::try_from_turso(&TursoValue::Integer(9)), Ok(Some(9)));
    assert_eq!(
        <Option<i8>>::try_from_turso(&TursoValue::Integer(999)),
        Err(failure("integer 999 out of range for i8"))
    );
    assert_eq!(
        <Option<bool>>::try_from_turso(&text("t")),
        Err(failure("cannot convert TEXT to bool"))
    );
}

#[test]
fn option_params() {
    assert_eq!(None::<i32>.to_turso_value(), TursoValue::Null);
    assert_eq!(Some(5i32).to_turso_value(), TursoValue::Integer(5));
    let v: Option<String> = Some("hi".to_string());
    assert_eq!(<Option<String>>::try_from_turso(&v.to_turso_value()), Ok(v));
    let n: Option<String> = None;
    assert_eq!(<Option<String>>::try_from_turso(&n.to_turso_value()), Ok(None));
}

#[test]
fn booleans() {
    assert_eq!(true.to_turso_value(), TursoValue::Integer(1));
    assert_eq!(false.to_turso_value(), TursoValue::Integer(0));
    assert_eq!(bool::try_from_turso(&TursoValue::Integer(2)), Ok(true));
    assert_eq!(bool::try_from_turso(&TursoValue::Integer(-1)), Ok(true));
    assert_eq!(bool::try_from_turso(&TursoValue::Integer(0)), Ok(false));
    assert_eq!(bool::try_from_turso(&true.to_turso_value()), Ok(true));
    assert_eq!(bool::try_from_turso(&false.to_turso_value()), Ok(false));
}

#[test]
fn strings_and_bytes() {
    let s = "héllo".to_string();
    assert_eq!(s.to_turso_value(), text("héllo"));
    assert_eq!("abc".to_turso_value(), text("abc"));
    assert_eq!(String::try_from_turso(&s.to_turso_value()), Ok(s.clone()));
    let b = vec![0u8, 255, 7];
    assert_eq!(b.to_turso_value(), TursoValue::Blob(vec![0, 255, 7]));
    assert_eq!(<Vec<u8>>::try_from_turso(&b.to_turso_value()), Ok(b));
    assert_eq!(<Vec<u8>>::try_from_turso(&text("hé")), Ok(vec![104u8, 195, 169]));
}

#[test]
fn params_in_order() {
    let none: [&dyn TursoParam; 0] = [];
    assert_eq!(build_params(&none), TursoParams::Empty);
    let a = 1i32;
    let b = "x";
    let c: Option<u8> = None;
    let params: [&dyn TursoParam; 3] = [&a, &b, &c];
    assert_eq!(
        build_params(&params),
        TursoParams::Positional(vec![TursoValue::Integer(1), text("x"), TursoValue::Null])
    );
}

#[test]
fn row_columns() {
    let row = TursoOwnedRow {
        data: vec![TursoValue::Integer(4), text("name"), TursoValue::Null],
        columns: Arc::new(vec!["id".to_string(), "name".to_string(), "note".to_string()]),
    };
    assert_eq!(row.try_get::<i64>(0), Ok(4));
    assert_eq!(row.try_get::<String>(1), Ok("name".to_string()));
    assert_eq!(row.try_get::<Option<String>>(2), Ok(None));
    assert_eq!(row.try_get::<i64>(3), Err(Error::ColumnNotFound("3".to_string())));
    assert_eq!(row.try_get::<i64>(1234), Err(Error::ColumnNotFound("1234".to_string())));
    assert_eq!(row.try_get::<i64>(1), Err(failure("cannot convert TEXT to i64")));
}

#[test]
fn storage_class_names() {
    assert_eq!(TursoValue::Null.kind(), "NULL");
    assert_eq!(TursoValue::Integer(1).kind(), "INTEGER");
    assert_eq!(TursoValue::Real(0).kind(), "REAL");
    assert_eq!(text("").kind(), "TEXT");
    assert_eq!(TursoValue::Blob(vec![]).kind(), "BLOB");
}

#[test]
fn duplicate_copies_values() {
    let v = TursoValue::Blob(vec![1, 2, 3]);
    assert_eq!(v.duplicate(), v);
    let t = text("abc");
    assert_eq!(t.duplicate(), t);
}

#[test]
fn error_messages() {
    assert_eq!(Error::ColumnNotFound("3".to_string()).message(), "3");
    assert_eq!(failure("boom").message(), "boom");
    assert_eq!(Error::UnexpectedNoneInColumn("u8".to_string()).message(), "u8");
}
