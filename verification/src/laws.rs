//! Properties that hold across the conversions of this library.

use vstd::prelude::*;
use crate::decode::{TryFromTursoValue, NumberSource, number_source_view};
use crate::error::ErrorView;
use crate::temporal::{NaiveDateTime, DateTimeParts, chrono_utc_from_timestamp};
use crate::text::signed_decimal;
use crate::param::TursoParam;
use crate::path::{database_path, trim_start_all, url_scheme, memory_path};
use crate::uuids::Uuid;
use crate::value::{SqlValue, SqlParams, TursoValue, params_for};
use crate::row::column_read;
use crate::text::{decimal, digit_char};
use crate::temporal::{NaiveDate, DateParts, valid_date};

verus! {

/// An `i8` stored as a parameter reads back as itself.
pub proof fn law_i8_round_trip(x: i8)
    ensures
        i8::from_turso_view(x.param_view()) == Ok::<i8, ErrorView>(x),
{
}

/// An `i16` stored as a parameter reads back as itself.
pub proof fn law_i16_round_trip(x: i16)
    ensures
        i16::from_turso_view(x.param_view()) == Ok::<i16, ErrorView>(x),
{
}

/// An `i32` stored as a parameter reads back as itself.
pub proof fn law_i32_round_trip(x: i32)
    ensures
        i32::from_turso_view(x.param_view()) == Ok::<i32, ErrorView>(x),
{
}

/// An `i64` stored as a parameter reads back as itself.
pub proof fn law_i64_round_trip(x: i64)
    ensures
        i64::from_turso_view(x.param_view()) == Ok::<i64, ErrorView>(x),
{
}

/// An `isize` stored as a parameter reads back as itself.
pub proof fn law_isize_round_trip(x: isize)
    ensures
        isize::from_turso_view(x.param_view()) == Ok::<isize, ErrorView>(x),
{
}

/// A `u8` stored as a parameter reads back as itself.
pub proof fn law_u8_round_trip(x: u8)
    ensures
        u8::from_turso_view(x.param_view()) == Ok::<u8, ErrorView>(x),
{
}

/// A `u16` stored as a parameter reads back as itself.
pub proof fn law_u16_round_trip(x: u16)
    ensures
        u16::from_turso_view(x.param_view()) == Ok::<u16, ErrorView>(x),
{
}

/// A `u32` stored as a parameter reads back as itself.
pub proof fn law_u32_round_trip(x: u32)
    ensures
        u32::from_turso_view(x.param_view()) == Ok::<u32, ErrorView>(x),
{
}

/// A `u64` up to `i64::MAX` stored as a parameter reads back as itself.
pub proof fn law_u64_round_trip(x: u64)
    requires
        x <= i64::MAX,
    ensures
        u64::from_turso_view(x.param_view()) == Ok::<u64, ErrorView>(x),
{
}

/// A `u64` above `i64::MAX` is stored as `i64::MAX` and reads back as that.
pub proof fn law_u64_saturates(x: u64)
    requires
        x > i64::MAX,
    ensures
        u64::from_turso_view(x.param_view()) == Ok::<u64, ErrorView>(i64::MAX as u64),
{
}

/// A `usize` up to `i64::MAX` stored as a parameter reads back as itself.
pub proof fn law_usize_round_trip(x: usize)
    requires
        x <= i64::MAX,
    ensures
        usize::from_turso_view(x.param_view()) == Ok::<usize, ErrorView>(x),
{
}

/// A `bool` stored as a parameter reads back as itself.
pub proof fn law_bool_round_trip(x: bool)
    ensures
        bool::from_turso_view(x.param_view()) == Ok::<bool, ErrorView>(x),
{
}

/// A `String` stored as a parameter reads back as the same text.
pub proof fn law_string_round_trip(x: String)
    ensures
        String::from_turso_view(x.param_view()) == Ok::<Seq<char>, ErrorView>(x.deep_view()),
{
}

/// A byte vector stored as a parameter reads back as the same bytes.
pub proof fn law_bytes_round_trip(x: Vec<u8>)
    ensures
        Vec::<u8>::from_turso_view(x.param_view()) == Ok::<Seq<u8>, ErrorView>(x.deep_view()),
{
    crate::decode::lemma_bytes_deep_view(x);
}

/// An optional value reads back as itself whenever the value inside does and
/// is never stored as NULL: `None` goes through NULL, `Some` through the value.
pub proof fn law_option_round_trip<T: TryFromTursoValue + TursoParam>(x: Option<T>)
    requires
        x matches Some(v) ==> {
            &&& !(v.param_view() is Null)
            &&& T::from_turso_view(v.param_view()) == Ok::<T::V, ErrorView>(v.deep_view())
        },
    ensures
        Option::<T>::from_turso_view(x.param_view()) == Ok::<Option<T::V>, ErrorView>(
            x.deep_view(),
        ),
{
}

/// NULL reads as `None`; any other value as `Some` of what `T` reads, with
/// `T`'s error when `T` cannot read it.
pub proof fn law_option_reads<T: TryFromTursoValue>(v: SqlValue)
    ensures
        v is Null ==> Option::<T>::from_turso_view(v) == Ok::<Option<T::V>, ErrorView>(None),
        !(v is Null) ==> Option::<T>::from_turso_view(v) == match T::from_turso_view(v) {
            Ok(t) => Ok::<Option<T::V>, ErrorView>(Some(t)),
            Err(e) => Err(e),
        },
{
}

/// A UUID stored as a blob of its bytes reads back as itself.
pub proof fn law_uuid_blob_round_trip(u: Uuid)
    ensures
        Uuid::from_turso_view(SqlValue::Blob(u.bytes@)) == Ok::<Seq<u8>, ErrorView>(u.deep_view()),
{
}

/// After `trim_start_all`, the pattern no longer stands at the front.
proof fn lemma_trimmed_has_no_prefix(s: Seq<char>, p: Seq<char>)
    requires
        p.len() > 0,
    ensures
        !(p.len() <= trim_start_all(s, p).len() && trim_start_all(s, p).subrange(0, p.len() as int) == p),
    decreases s.len(),
{
    if 0 < p.len() <= s.len() && s.subrange(0, p.len() as int) == p {
        lemma_trimmed_has_no_prefix(s.subrange(p.len() as int, s.len() as int), p);
    }
}

/// Taking the database path of a database path changes nothing.
pub proof fn law_database_path_idempotent(url: Seq<char>)
    ensures
        database_path(database_path(url)) == database_path(url),
{
    reveal_strlit("turso://");
    reveal_strlit(":memory:");
    let path = trim_start_all(url, url_scheme());
    lemma_trimmed_has_no_prefix(url, url_scheme());
    let d = database_path(url);
    if d == memory_path() {
        assert(d.subrange(0, 8) != url_scheme()) by {
            assert(d.subrange(0, 8)[0] == ':');
        }
    }
    assert(trim_start_all(d, url_scheme()) == d);
}

/// A URL with the `turso://` scheme names the same database as the URL without it.
pub proof fn law_database_path_scheme(url: Seq<char>)
    ensures
        database_path(url_scheme() + url) == database_path(url),
{
    reveal_strlit("turso://");
    let s = url_scheme() + url;
    assert(s.subrange(0, 8) =~= url_scheme());
    assert(s.subrange(8, s.len() as int) =~= url);
}

/// Every integer type reads a stored integer exactly when the integer lies in
/// the type's range, and then as that same number; an integer outside the
/// range is a conversion failure naming the integer and the type.
pub proof fn law_integers_read_in_range(i: i64)
    ensures
        -128 <= i <= 127 ==> (i8::from_turso_view(SqlValue::Integer(i)) matches Ok(t) && t as int == i as int),
        !(-128 <= i <= 127) ==> i8::from_turso_view(SqlValue::Integer(i)) == Err::<i8, ErrorView>(
            ErrorView::ConversionFailure("integer "@ + signed_decimal(i as int) + " out of range for "@ + "i8"@),
        ),
        -32768 <= i <= 32767 ==> (i16::from_turso_view(SqlValue::Integer(i)) matches Ok(t) && t as int == i as int),
        !(-32768 <= i <= 32767) ==> i16::from_turso_view(SqlValue::Integer(i)) == Err::<i16, ErrorView>(
            ErrorView::ConversionFailure("integer "@ + signed_decimal(i as int) + " out of range for "@ + "i16"@),
        ),
        -2147483648 <= i <= 2147483647 ==> (i32::from_turso_view(SqlValue::Integer(i)) matches Ok(t) && t as int
            == i as int),
        !(-2147483648 <= i <= 2147483647) ==> i32::from_turso_view(SqlValue::Integer(i)) == Err::<i32, ErrorView>(
            ErrorView::ConversionFailure("integer "@ + signed_decimal(i as int) + " out of range for "@ + "i32"@),
        ),
        i64::from_turso_view(SqlValue::Integer(i)) matches Ok(t) && t as int == i as int,
        isize::MIN <= i <= isize::MAX ==> (isize::from_turso_view(SqlValue::Integer(i)) matches Ok(t) && t as int
            == i as int),
        !(isize::MIN <= i <= isize::MAX) ==> isize::from_turso_view(SqlValue::Integer(i)) == Err::<isize, ErrorView>(
            ErrorView::ConversionFailure("integer "@ + signed_decimal(i as int) + " out of range for "@ + "isize"@),
        ),
        0 <= i <= 255 ==> (u8::from_turso_view(SqlValue::Integer(i)) matches Ok(t) && t as int == i as int),
        !(0 <= i <= 255) ==> u8::from_turso_view(SqlValue::Integer(i)) == Err::<u8, ErrorView>(
            ErrorView::ConversionFailure("integer "@ + signed_decimal(i as int) + " out of range for "@ + "u8"@),
        ),
        0 <= i <= 65535 ==> (u16::from_turso_view(SqlValue::Integer(i)) matches Ok(t) && t as int == i as int),
        !(0 <= i <= 65535) ==> u16::from_turso_view(SqlValue::Integer(i)) == Err::<u16, ErrorView>(
            ErrorView::ConversionFailure("integer "@ + signed_decimal(i as int) + " out of range for "@ + "u16"@),
        ),
        0 <= i <= 4294967295 ==> (u32::from_turso_view(SqlValue::Integer(i)) matches Ok(t) && t as int == i as int),
        !(0 <= i <= 4294967295) ==> u32::from_turso_view(SqlValue::Integer(i)) == Err::<u32, ErrorView>(
            ErrorView::ConversionFailure("integer "@ + signed_decimal(i as int) + " out of range for "@ + "u32"@),
        ),
        0 <= i ==> (u64::from_turso_view(SqlValue::Integer(i)) matches Ok(t) && t as int == i as int),
        i < 0 ==> u64::from_turso_view(SqlValue::Integer(i)) == Err::<u64, ErrorView>(
            ErrorView::ConversionFailure("integer "@ + signed_decimal(i as int) + " out of range for "@ + "u64"@),
        ),
        0 <= i <= usize::MAX ==> (usize::from_turso_view(SqlValue::Integer(i)) matches Ok(t) && t as int == i as int),
        !(0 <= i <= usize::MAX) ==> usize::from_turso_view(SqlValue::Integer(i)) == Err::<usize, ErrorView>(
            ErrorView::ConversionFailure("integer "@ + signed_decimal(i as int) + " out of range for "@ + "usize"@),
        ),
{
}

/// Every integer parameter is stored as an integer with its own value; an
/// unsigned value above `i64::MAX` is stored as `i64::MAX`.
pub proof fn law_integer_params_keep_their_value(
    a: i8,
    b: i16,
    c: i32,
    d: i64,
    e: isize,
    f: u8,
    g: u16,
    h: u32,
    j: u64,
    k: usize,
)
    ensures
        a.param_view() matches SqlValue::Integer(i) && i as int == a as int,
        b.param_view() matches SqlValue::Integer(i) && i as int == b as int,
        c.param_view() matches SqlValue::Integer(i) && i as int == c as int,
        d.param_view() matches SqlValue::Integer(i) && i as int == d as int,
        e.param_view() matches SqlValue::Integer(i) && i as int == e as int,
        f.param_view() matches SqlValue::Integer(i) && i as int == f as int,
        g.param_view() matches SqlValue::Integer(i) && i as int == g as int,
        h.param_view() matches SqlValue::Integer(i) && i as int == h as int,
        j.param_view() matches SqlValue::Integer(i) && i as int == (if j <= 9223372036854775807 {
            j as int
        } else {
            9223372036854775807
        }),
        k.param_view() matches SqlValue::Integer(i) && i as int == (if k <= 9223372036854775807 {
            k as int
        } else {
            9223372036854775807
        }),
{
}

/// `true` is stored as the integer 1 and `false` as 0.
pub proof fn law_bool_params()
    ensures
        true.param_view() == SqlValue::Integer(1),
        false.param_view() == SqlValue::Integer(0),
{
}

/// Text and bytes are stored as themselves, the empty text and the empty
/// byte string included; `None` is stored as NULL and `Some(v)` as `v` is.
pub proof fn law_text_and_byte_params<T: TursoParam>(s: String, t: &str, b: Vec<u8>, o: Option<T>)
    ensures
        s.param_view() == SqlValue::Text(s@),
        t.param_view() == SqlValue::Text(t@),
        b.param_view() == SqlValue::Blob(b@),
        o is None ==> o.param_view() == SqlValue::Null,
        o matches Some(v) ==> o.param_view() == v.param_view(),
{
}

/// A `&str` stored as a parameter reads back as a `String` with the same text.
pub proof fn law_str_round_trip(t: &str)
    ensures
        String::from_turso_view(t.param_view()) == Ok::<Seq<char>, ErrorView>(t@),
{
}

/// A float is read from a stored integer by the integer's value and from a
/// stored real by its own bits; NULL has no float, and text or a blob is a
/// conversion failure.
pub proof fn law_floats_read_from_numbers(i: i64, bits: u64, s: Seq<char>, bytes: Seq<u8>, ty: Seq<char>)
    ensures
        number_source_view(SqlValue::Integer(i), ty) == Ok::<NumberSource, ErrorView>(NumberSource::Integer(i)),
        number_source_view(SqlValue::Real(bits), ty) == Ok::<NumberSource, ErrorView>(NumberSource::Real(bits)),
        number_source_view(SqlValue::Null, ty) == Err::<NumberSource, ErrorView>(
            ErrorView::UnexpectedNoneInColumn(ty),
        ),
        number_source_view(SqlValue::Text(s), ty) == Err::<NumberSource, ErrorView>(
            ErrorView::ConversionFailure("cannot convert "@ + "TEXT"@ + " to "@ + ty),
        ),
        number_source_view(SqlValue::Blob(bytes), ty) == Err::<NumberSource, ErrorView>(
            ErrorView::ConversionFailure("cannot convert "@ + "BLOB"@ + " to "@ + ty),
        ),
{
}

/// A stored integer reads as the date-time chrono places that many seconds
/// after the Unix epoch, for every timestamp chrono places on its calendar;
/// only a timestamp chrono cannot place is an error.
pub proof fn law_timestamps_read_as_chrono_places_them(secs: i64)
    ensures
        chrono_utc_from_timestamp(secs, 0) matches Some(d) ==> NaiveDateTime::from_turso_view(
            SqlValue::Integer(secs),
        ) == Ok::<DateTimeParts, ErrorView>(d),
        chrono_utc_from_timestamp(secs, 0) is None ==> NaiveDateTime::from_turso_view(SqlValue::Integer(secs))
            == Err::<DateTimeParts, ErrorView>(
            ErrorView::ConversionFailure(
                "invalid unix timestamp "@ + signed_decimal(secs as int) + " for NaiveDateTime"@,
            ),
        ),
{
}

/// Text reads as a `String` with the same characters, any non-zero integer as
/// `true` and zero as `false`, a blob as a byte vector with the same bytes and
/// a text as its UTF-8 encoding, and a stored value as itself; NULL is no
/// `String`, `bool` or byte vector.
pub proof fn law_plain_reads(s: Seq<char>, i: i64, b: Seq<u8>, v: SqlValue)
    ensures
        String::from_turso_view(SqlValue::Text(s)) == Ok::<Seq<char>, ErrorView>(s),
        bool::from_turso_view(SqlValue::Integer(i)) == Ok::<bool, ErrorView>(i != 0),
        Vec::<u8>::from_turso_view(SqlValue::Blob(b)) == Ok::<Seq<u8>, ErrorView>(b),
        Vec::<u8>::from_turso_view(SqlValue::Text(s)) == Ok::<Seq<u8>, ErrorView>(vstd::utf8::encode_utf8(s)),
        TursoValue::from_turso_view(v) == Ok::<SqlValue, ErrorView>(v),
        String::from_turso_view(SqlValue::Null) == Err::<Seq<char>, ErrorView>(
            ErrorView::UnexpectedNoneInColumn("String"@),
        ),
        bool::from_turso_view(SqlValue::Null) == Err::<bool, ErrorView>(ErrorView::UnexpectedNoneInColumn("bool"@)),
        Vec::<u8>::from_turso_view(SqlValue::Null) == Err::<Seq<u8>, ErrorView>(
            ErrorView::UnexpectedNoneInColumn("Vec<u8>"@),
        ),
        NaiveDate::from_turso_view(SqlValue::Null) == Err::<crate::temporal::DateParts, ErrorView>(
            ErrorView::UnexpectedNoneInColumn("NaiveDate"@),
        ),
        NaiveDateTime::from_turso_view(SqlValue::Null) == Err::<DateTimeParts, ErrorView>(
            ErrorView::UnexpectedNoneInColumn("NaiveDateTime"@),
        ),
{
}

/// A blob reads as a UUID exactly when it holds sixteen bytes, and then as
/// those bytes; NULL is no UUID.
pub proof fn law_uuid_blobs(b: Seq<u8>)
    ensures
        b.len() == 16 ==> Uuid::from_turso_view(SqlValue::Blob(b)) == Ok::<Seq<u8>, ErrorView>(b),
        b.len() != 16 ==> Uuid::from_turso_view(SqlValue::Blob(b)) == Err::<Seq<u8>, ErrorView>(
            ErrorView::ConversionFailure("cannot convert "@ + "BLOB"@ + " to "@ + "Uuid"@),
        ),
        Uuid::from_turso_view(SqlValue::Null) == Err::<Seq<u8>, ErrorView>(ErrorView::UnexpectedNoneInColumn("Uuid"@)),
{
}

/// The parameters of a statement are none at all for no values, and else every
/// value at its own position.
pub proof fn law_params_keep_position(vals: Seq<SqlValue>)
    ensures
        vals.len() == 0 ==> params_for(vals) is Empty,
        vals.len() > 0 ==> (params_for(vals) matches SqlParams::Positional(p) && p.len() == vals.len() && forall|
            k: int,
        | 0 <= k < vals.len() ==> #[trigger] p[k] == vals[k]),
{
}

/// Column `idx` of a row is read from the value at position `idx`; a row has
/// no column at or past its length, and the error names the index in decimal.
pub proof fn law_columns_by_position<T: TryFromTursoValue>(data: Seq<TursoValue>, idx: int)
    requires
        0 <= idx,
    ensures
        idx < data.len() ==> column_read::<T>(data, idx) == T::from_turso_view(data[idx]@),
        idx >= data.len() ==> column_read::<T>(data, idx) == Err::<T::V, ErrorView>(
            ErrorView::ColumnNotFound(decimal(idx as nat)),
        ),
{
}

/// The number a text of decimal digits stands for, most significant first.
pub open spec fn digits_value(s: Seq<char>) -> int
    decreases s.len(),
{
    if s.len() == 0 {
        0
    } else {
        digits_value(s.drop_last()) * 10 + (s.last() as int - 48)
    }
}

/// The decimal text of a number is a non-empty run of digits, with no leading
/// zero but for zero itself, that stands for the number.
pub proof fn law_decimal_stands_for_the_number(n: nat)
    ensures
        decimal(n).len() > 0,
        forall|k: int| 0 <= k < decimal(n).len() ==> '0' <= #[trigger] decimal(n)[k] <= '9',
        n > 0 ==> decimal(n)[0] != '0',
        digits_value(decimal(n)) == n,
    decreases n,
{
    if n >= 10 {
        law_decimal_stands_for_the_number(n / 10);
        let d = decimal(n / 10);
        assert(decimal(n).drop_last() =~= d);
        assert(decimal(n).last() == digit_char(n % 10));
        assert(digit_char(n % 10) as int == 48 + n % 10);
        assert(digits_value(decimal(n)) == digits_value(d) * 10 + n % 10);
        assert((n / 10) * 10 + n % 10 == n);
    } else {
        assert(digit_char(n) as int == 48 + n);
        assert(decimal(n).drop_last() =~= Seq::<char>::empty());
        assert(decimal(n).last() == digit_char(n));
        assert(digits_value(decimal(n)) == digits_value(Seq::<char>::empty()) * 10 + n);
    }
}

/// The decimal text of a signed number is that of its magnitude, after a `-`
/// exactly when it is negative.
pub proof fn law_signed_decimal_sign(i: int)
    ensures
        i < 0 ==> signed_decimal(i)[0] == '-' && signed_decimal(i).drop_first() == decimal((-i) as nat),
        i >= 0 ==> signed_decimal(i) == decimal(i as nat),
{
    if i < 0 {
        assert((seq!['-'] + decimal((-i) as nat)).drop_first() =~= decimal((-i) as nat));
    }
}

/// The database path of a URL is never empty and never starts with the
/// scheme; a non-empty URL without the scheme in front is its own path, and
/// the empty URL names the in-memory database.
pub proof fn law_database_path_shape(url: Seq<char>)
    ensures
        database_path(url).len() > 0,
        !(8 <= database_path(url).len() && database_path(url).subrange(0, 8) == "turso://"@),
        url.len() > 0 && !(8 <= url.len() && url.subrange(0, 8) == "turso://"@) ==> database_path(url) == url,
        url.len() == 0 ==> database_path(url) == ":memory:"@,
{
    reveal_strlit("turso://");
    reveal_strlit(":memory:");
    lemma_trimmed_has_no_prefix(url, url_scheme());
    let d = database_path(url);
    if d == memory_path() {
        assert(d.subrange(0, 8)[0] != url_scheme()[0]);
    }
}

/// A year, month and day form a date exactly when the year is in chrono's
/// range, the month is 1 to 12, and the day is at most 31 in January, March,
/// May, July, August, October and December, 30 in the other months but
/// February, and 28 in February, or 29 in a year divisible by 4 and not by 100
/// unless by 400.
pub proof fn law_calendar_dates(y: i32, m: u32, d: u32)
    ensures
        valid_date(DateParts { year: y, month: m, day: d }) <==> {
            &&& -262143 <= y <= 262142
            &&& 1 <= m <= 12
            &&& 1 <= d
            &&& (m == 1 || m == 3 || m == 5 || m == 7 || m == 8 || m == 10 || m == 12) ==> d <= 31
            &&& (m == 4 || m == 6 || m == 9 || m == 11) ==> d <= 30
            &&& m == 2 ==> (d <= 28 || (d == 29 && ((y % 4 == 0 && y % 100 != 0) || y % 400 == 0)))
        },
{
}

} // verus!
