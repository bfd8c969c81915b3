use welds_connections::decode::TryFromTursoValue;
use welds_connections::error::Error;
use welds_connections::param::TursoParam;
use welds_connections::temporal::{parse_naive_datetime, NaiveDate, NaiveDateTime};
use welds_connections::value::TursoValue;

fn text(s: &str) -> TursoValue {
    TursoValue::Text(s.to_string())
}

fn parts(d: &NaiveDateTime) -> (i32, u32, u32, u32, u32, u32, u32) {
    let date = d.date();
    (date.year(), date.month(), date.day(), d.hour(), d.minute(), d.second(), d.nanosecond())
}

fn datetime(y: i32, mo: u32, d: u32, h: u32, mi: u32, s: u32, n: u32) -> NaiveDateTime {
    NaiveDateTime::new(NaiveDate::from_ymd_opt(y, mo, d).unwrap(), h, mi, s, n).unwrap()
}

#[test]
fn calendar_validity() {
    assert!(NaiveDate::from_ymd_opt(2024, 2, 29).is_some());
    assert!(NaiveDate::from_ymd_opt(2023, 2, 29).is_none());
    assert!(NaiveDate::from_ymd_opt(2000, 2, 29).is_some());
    assert!(NaiveDate::from_ymd_opt(1900, 2, 29).is_none());
    assert!(NaiveDate::from_ymd_opt(-4, 2, 29).is_some());
    assert!(NaiveDate::from_ymd_opt(2024, 13, 1).is_none());
    assert!(NaiveDate::from_ymd_opt(2024, 4, 31).is_none());
    assert!(NaiveDate::from_ymd_opt(2024, 1, 0).is_none());
    assert!(NaiveDate::from_ymd_opt(262142, 12, 31).is_some());
    assert!(NaiveDate::from_ymd_opt(262143, 1, 1).is_none());
    assert!(NaiveDate::from_ymd_opt(-262143, 1, 1).is_some());
    assert!(NaiveDate::from_ymd_opt(-262144, 1, 1).is_none());
    let d = NaiveDate::from_ymd_opt(2024, 1, 1).unwrap();
    assert!(NaiveDateTime::new(d, 24, 0, 0, 0).is_none());
    assert!(NaiveDateTime::new(d, 23, 59, 59, 1_500_000_000).is_some());
    assert!(NaiveDateTime::new(d, 23, 59, 58, 1_000_000_000).is_none());
    assert!(NaiveDateTime::new(d, 23, 59, 59, 2_000_000_000).is_none());
    assert!(NaiveDateTime::new(d, 0, 60, 0, 0).is_none());
}

#[test]
fn date_text_written() {
    let d = NaiveDate::from_ymd_opt(2024, 3, 9).unwrap();
    assert_eq!(d.to_turso_value(), text("2024-03-09"));
    assert_eq!(NaiveDate::from_ymd_opt(5, 1, 1).unwrap().to_turso_value(), text("0005-01-01"));
    assert_eq!(NaiveDate::from_ymd_opt(-1, 12, 31).unwrap().to_turso_value(), text("-0001-12-31"));
    assert_eq!(NaiveDate::from_ymd_opt(12345, 6, 7).unwrap().to_turso_value(), text("+12345-06-07"));
}

#[test]
fn datetime_text_written() {
    assert_eq!(datetime(2024, 1, 2, 3, 4, 5, 0).to_turso_value(), text("2024-01-02 03:04:05"));
    assert_eq!(datetime(2024, 1, 2, 3, 4, 5, 123_000_000).to_turso_value(), text("2024-01-02 03:04:05.123"));
    assert_eq!(datetime(2024, 1, 2, 3, 4, 5, 123_400_000).to_turso_value(), text("2024-01-02 03:04:05.123400"));
    assert_eq!(datetime(2024, 1, 2, 3, 4, 5, 1_500).to_turso_value(), text("2024-01-02 03:04:05.000001500"));
    assert_eq!(datetime(2024, 12, 31, 23, 59, 59, 1_500_000_000).to_turso_value(), text("2024-12-31 23:59:60.500"));
}

#[test]
fn datetime_read_from_text() {
    let d = NaiveDateTime::try_from_turso(&text("2024-01-02 03:04:05.123")).unwrap();
    assert_eq!(parts(&d), (2024, 1, 2, 3, 4, 5, 123_000_000));
    let d = NaiveDateTime::try_from_turso(&text("2024-01-02T03:04:05")).unwrap();
    assert_eq!(parts(&d), (2024, 1, 2, 3, 4, 5, 0));
    let d = NaiveDateTime::try_from_turso(&text("2024-01-02 03:04")).unwrap();
    assert_eq!(parts(&d), (2024, 1, 2, 3, 4, 0, 0));
    let d = NaiveDateTime::try_from_turso(&text("2024-01-02T03:04")).unwrap();
    assert_eq!(parts(&d), (2024, 1, 2, 3, 4, 0, 0));
    let d = parse_naive_datetime("1999-12-31T23:59:58.5").unwrap();
    assert_eq!(parts(&d), (1999, 12, 31, 23, 59, 58, 500_000_000));
}

#[test]
fn datetime_bad_text() {
    assert_eq!(
        NaiveDateTime::try_from_turso(&text("garbage")).map(|d| parts(&d)),
        Err(Error::ConversionFailure("could not parse NaiveDateTime from \"garbage\"".to_string()))
    );
    assert_eq!(
        parse_naive_datetime("say \"hi\"").map(|d| parts(&d)),
        Err(Error::ConversionFailure("could not parse NaiveDateTime from \"say \\\"hi\\\"\"".to_string()))
    );
}

#[test]
fn datetime_from_timestamp() {
    let d = NaiveDateTime::try_from_turso(&TursoValue::Integer(0)).unwrap();
    assert_eq!(parts(&d), (1970, 1, 1, 0, 0, 0, 0));
    let d = NaiveDateTime::try_from_turso(&TursoValue::Integer(86_399)).unwrap();
    assert_eq!(parts(&d), (1970, 1, 1, 23, 59, 59, 0));
    let d = NaiveDateTime::try_from_turso(&TursoValue::Integer(-1)).unwrap();
    assert_eq!(parts(&d), (1969, 12, 31, 23, 59, 59, 0));
    let d = NaiveDateTime::try_from_turso(&TursoValue::Integer(1_700_000_000)).unwrap();
    assert_eq!(parts(&d), (2023, 11, 14, 22, 13, 20, 0));
    assert_eq!(
        NaiveDateTime::try_from_turso(&TursoValue::Integer(i64::MAX)).map(|d| parts(&d)),
        Err(Error::ConversionFailure("invalid unix timestamp 9223372036854775807 for NaiveDateTime".to_string()))
    );
}

#[test]
fn datetime_other_values() {
    assert_eq!(
        NaiveDateTime::try_from_turso(&TursoValue::Null).map(|d| parts(&d)),
        Err(Error::UnexpectedNoneInColumn("NaiveDateTime".to_string()))
    );
    assert_eq!(
        NaiveDateTime::try_from_turso(&TursoValue::Blob(vec![1])).map(|d| parts(&d)),
        Err(Error::ConversionFailure("cannot convert BLOB to NaiveDateTime".to_string()))
    );
}

#[test]
fn datetime_round_trip_through_text() {
    for d in [datetime(2024, 1, 2, 3, 4, 5, 0), datetime(1, 2, 3, 4, 5, 6, 7_000), datetime(2000, 2, 29, 12, 0, 0, 999_999_999)] {
        let back = NaiveDateTime::try_from_turso(&d.to_turso_value()).unwrap();
        assert_eq!(parts(&back), parts(&d));
    }
}

#[test]
fn date_read() {
    let d = NaiveDate::try_from_turso(&text("2024-02-29")).unwrap();
    assert_eq!((d.year(), d.month(), d.day()), (2024, 2, 29));
    let e = NaiveDate::try_from_turso(&text("2023-02-29")).map(|d| d.day());
    assert_eq!(e, Err(Error::ConversionFailure("could not parse NaiveDate from \"2023-02-29\": input is out of range".to_string())));
    let e = NaiveDate::try_from_turso(&text("soon")).map(|d| d.day());
    assert_eq!(e, Err(Error::ConversionFailure("could not parse NaiveDate from \"soon\": input contains invalid characters".to_string())));
    assert_eq!(
        NaiveDate::try_from_turso(&TursoValue::Integer(3)).map(|d| d.day()),
        Err(Error::ConversionFailure("cannot convert INTEGER to NaiveDate".to_string()))
    );
    assert_eq!(
        NaiveDate::try_from_turso(&TursoValue::Null).map(|d| d.day()),
        Err(Error::UnexpectedNoneInColumn("NaiveDate".to_string()))
    );
    let d = NaiveDate::from_ymd_opt(1987, 7, 1).unwrap();
    let back = NaiveDate::try_from_turso(&d.to_turso_value()).unwrap();
    assert_eq!((back.year(), back.month(), back.day()), (1987, 7, 1));
}

#[test]
fn datetime_text_round_trip_at_the_edges() {
    let cases = [
        datetime(-262143, 1, 1, 0, 0, 0, 0),
        datetime(-1, 12, 31, 23, 59, 59, 500_000_000),
        datetime(0, 1, 1, 0, 0, 0, 1),
        datetime(9999, 12, 31, 23, 59, 59, 123_456_000),
        datetime(10000, 1, 1, 0, 0, 0, 0),
        datetime(262142, 12, 31, 23, 59, 59, 999_999_999),
        datetime(2016, 12, 31, 23, 59, 59, 1_000_000_000),
        datetime(2016, 12, 31, 23, 59, 59, 1_250_000_000),
    ];
    for d in cases {
        let back = NaiveDateTime::try_from_turso(&d.to_turso_value()).unwrap();
        assert_eq!(parts(&back), parts(&d));
    }
    assert_eq!(
        datetime(2016, 12, 31, 23, 59, 59, 1_250_000_000).to_turso_value(),
        text("2016-12-31 23:59:60.250")
    );
    assert_eq!(datetime(10000, 1, 1, 0, 0, 0, 0).to_turso_value(), text("+10000-01-01 00:00:00"));
}

#[test]
fn date_text_round_trip_at_the_edges() {
    for (y, m, d) in [(-262143, 1, 1), (-1, 2, 28), (0, 2, 29), (9999, 12, 31), (10000, 1, 1), (262142, 12, 31)] {
        let date = NaiveDate::from_ymd_opt(y, m, d).unwrap();
        let back = NaiveDate::try_from_turso(&date.to_turso_value()).unwrap();
        assert_eq!((back.year(), back.month(), back.day()), (y, m, d));
    }
    assert_eq!(NaiveDate::from_ymd_opt(-1, 2, 28).unwrap().to_turso_value(), text("-0001-02-28"));
}
