//! Reading stored values back as Rust values.

use vstd::prelude::*;
use vstd::string::StringExecFns;
use vstd::string::StringSliceAdditionalSpecFns;
use crate::error::{Error, ErrorView, result_deep_view, mismatch_message, type_mismatch};
use crate::text::{signed_decimal, i64_to_decimal};
use crate::value::{SqlValue, TursoValue};

verus! {

/// A Rust type that a stored value can be read as.
pub trait TryFromTursoValue: Sized + DeepView {
    /// What reading the stored value `v` gives, taken by its deep view.
    spec fn from_turso_view(v: SqlValue) -> Result<Self::V, ErrorView>;

    /// Reads a stored value as a `Self`.
    fn try_from_turso(v: &TursoValue) -> (r: Result<Self, Error>)
        ensures
            result_deep_view(r) == Self::from_turso_view(v@),
    ;
}

/// The message for an integer that does not fit the requested type.
pub open spec fn out_of_range_message(i: i64, ty: Seq<char>) -> Seq<char> {
    "integer "@ + signed_decimal(i as int) + " out of range for "@ + ty
}

/// Reading a stored value as an integer type with range `min..=max` named `ty`.
pub open spec fn int_decoded(v: SqlValue, min: int, max: int, ty: Seq<char>) -> Result<int, ErrorView> {
    match v {
        SqlValue::Integer(i) => if min <= i <= max {
            Ok(i as int)
        } else {
            Err(ErrorView::ConversionFailure(out_of_range_message(i, ty)))
        },
        SqlValue::Null => Err(ErrorView::UnexpectedNoneInColumn(ty)),
        _ => Err(ErrorView::ConversionFailure(mismatch_message(v, ty))),
    }
}

/// The error for a NULL read as a type that has no NULL.
pub(crate) fn unexpected_none(ty: &str) -> (e: Error)
    ensures
        e@ == ErrorView::UnexpectedNoneInColumn(ty@),
{
    Error::UnexpectedNoneInColumn(ty.to_owned())
}

/// The deep view of a byte vector is its view.
pub proof fn lemma_bytes_deep_view(v: Vec<u8>)
    ensures
        v.deep_view() == v@,
{
    assert(v.deep_view() =~= v@);
}

/// Reads a stored integer that must lie in `min..=max`.
fn decode_int(v: &TursoValue, min: i64, max: u64, ty: &str) -> (r: Result<i64, Error>)
    requires
        min <= 0,
    ensures
        match (r, int_decoded(v@, min as int, max as int, ty@)) {
            (Ok(a), Ok(b)) => a as int == b,
            (Err(e), Err(f)) => e@ == f,
            _ => false,
        },
{
    match v {
        TursoValue::Integer(i) => {
            let i = *i;
            let fits = if i < 0 { i >= min } else { (i as u64) <= max };
            if fits {
                Ok(i)
            } else {
                let mut msg = String::new();
                msg.append("integer ");
                let digits = i64_to_decimal(i);
                msg.append(digits.as_str());
                msg.append(" out of range for ");
                msg.append(ty);
                Err(Error::ConversionFailure(msg))
            }
        },
        TursoValue::Null => Err(unexpected_none(ty)),
        _ => type_mismatch(ty, v),
    }
}

impl TryFromTursoValue for i8 {
    open spec fn from_turso_view(v: SqlValue) -> Result<i8, ErrorView> {
        match int_decoded(v, i8::MIN as int, i8::MAX as int, "i8"@) {
            Ok(i) => Ok(i as i8),
            Err(e) => Err(e),
        }
    }

    fn try_from_turso(v: &TursoValue) -> (r: Result<i8, Error>) {
        match decode_int(v, -128i64, 127u64, "i8") {
            Ok(i) => Ok(i as i8),
            Err(e) => Err(e),
        }
    }
}

impl TryFromTursoValue for i16 {
    open spec fn from_turso_view(v: SqlValue) -> Result<i16, ErrorView> {
        match int_decoded(v, i16::MIN as int, i16::MAX as int, "i16"@) {
            Ok(i) => Ok(i as i16),
            Err(e) => Err(e),
        }
    }

    fn try_from_turso(v: &TursoValue) -> (r: Result<i16, Error>) {
        match decode_int(v, -32768i64, 32767u64, "i16") {
            Ok(i) => Ok(i as i16),
            Err(e) => Err(e),
        }
    }
}

impl TryFromTursoValue for i32 {
    open spec fn from_turso_view(v: SqlValue) -> Result<i32, ErrorView> {
        match int_decoded(v, i32::MIN as int, i32::MAX as int, "i32"@) {
            Ok(i) => Ok(i as i32),
            Err(e) => Err(e),
        }
    }

    fn try_from_turso(v: &TursoValue) -> (r: Result<i32, Error>) {
        match decode_int(v, -2147483648i64, 2147483647u64, "i32") {
            Ok(i) => Ok(i as i32),
            Err(e) => Err(e),
        }
    }
}

impl TryFromTursoValue for i64 {
    open spec fn from_turso_view(v: SqlValue) -> Result<i64, ErrorView> {
        match int_decoded(v, i64::MIN as int, i64::MAX as int, "i64"@) {
            Ok(i) => Ok(i as i64),
            Err(e) => Err(e),
        }
    }

    fn try_from_turso(v: &TursoValue) -> (r: Result<i64, Error>) {
        decode_int(v, i64::MIN, 9223372036854775807u64, "i64")
    }
}

impl TryFromTursoValue for isize {
    open spec fn from_turso_view(v: SqlValue) -> Result<isize, ErrorView> {
        match int_decoded(v, isize::MIN as int, isize::MAX as int, "isize"@) {
            Ok(i) => Ok(i as isize),
            Err(e) => Err(e),
        }
    }

    fn try_from_turso(v: &TursoValue) -> (r: Result<isize, Error>) {
        match decode_int(v, isize::MIN as i64, isize::MAX as u64, "isize") {
            Ok(i) => Ok(i as isize),
            Err(e) => Err(e),
        }
    }
}

impl TryFromTursoValue for u8 {
    open spec fn from_turso_view(v: SqlValue) -> Result<u8, ErrorView> {
        match int_decoded(v, 0, u8::MAX as int, "u8"@) {
            Ok(i) => Ok(i as u8),
            Err(e) => Err(e),
        }
    }

    fn try_from_turso(v: &TursoValue) -> (r: Result<u8, Error>) {
        match decode_int(v, 0i64, 255u64, "u8") {
            Ok(i) => Ok(i as u8),
            Err(e) => Err(e),
        }
    }
}

impl TryFromTursoValue for u16 {
    open spec fn from_turso_view(v: SqlValue) -> Result<u16, ErrorView> {
        match int_decoded(v, 0, u16::MAX as int, "u16"@) {
            Ok(i) => Ok(i as u16),
            Err(e) => Err(e),
        }
    }

    fn try_from_turso(v: &TursoValue) -> (r: Result<u16, Error>) {
        match decode_int(v, 0i64, 65535u64, "u16") {
            Ok(i) => Ok(i as u16),
            Err(e) => Err(e),
        }
    }
}

impl TryFromTursoValue for u32 {
    open spec fn from_turso_view(v: SqlValue) -> Result<u32, ErrorView> {
        match int_decoded(v, 0, u32::MAX as int, "u32"@) {
            Ok(i) => Ok(i as u32),
            Err(e) => Err(e),
        }
    }

    fn try_from_turso(v: &TursoValue) -> (r: Result<u32, Error>) {
        match decode_int(v, 0i64, 4294967295u64, "u32") {
            Ok(i) => Ok(i as u32),
            Err(e) => Err(e),
        }
    }
}

impl TryFromTursoValue for u64 {
    open spec fn from_turso_view(v: SqlValue) -> Result<u64, ErrorView> {
        match int_decoded(v, 0, u64::MAX as int, "u64"@) {
            Ok(i) => Ok(i as u64),
            Err(e) => Err(e),
        }
    }

    fn try_from_turso(v: &TursoValue) -> (r: Result<u64, Error>) {
        match decode_int(v, 0i64, u64::MAX, "u64") {
            Ok(i) => Ok(i as u64),
            Err(e) => Err(e),
        }
    }
}

impl TryFromTursoValue for usize {
    open spec fn from_turso_view(v: SqlValue) -> Result<usize, ErrorView> {
        match int_decoded(v, 0, usize::MAX as int, "usize"@) {
            Ok(i) => Ok(i as usize),
            Err(e) => Err(e),
        }
    }

    fn try_from_turso(v: &TursoValue) -> (r: Result<usize, Error>) {
        match decode_int(v, 0i64, usize::MAX as u64, "usize") {
            Ok(i) => Ok(i as usize),
            Err(e) => Err(e),
        }
    }
}

/// Any non-zero integer reads as `true`.
impl TryFromTursoValue for bool {
    open spec fn from_turso_view(v: SqlValue) -> Result<bool, ErrorView> {
        match v {
            SqlValue::Integer(i) => Ok(i != 0),
            SqlValue::Null => Err(ErrorView::UnexpectedNoneInColumn("bool"@)),
            _ => Err(ErrorView::ConversionFailure(mismatch_message(v, "bool"@))),
        }
    }

    fn try_from_turso(v: &TursoValue) -> (r: Result<bool, Error>) {
        match v {
            TursoValue::Integer(i) => Ok(*i != 0),
            TursoValue::Null => Err(unexpected_none("bool")),
            _ => type_mismatch("bool", v),
        }
    }
}

impl TryFromTursoValue for String {
    open spec fn from_turso_view(v: SqlValue) -> Result<Seq<char>, ErrorView> {
        match v {
            SqlValue::Text(s) => Ok(s),
            SqlValue::Null => Err(ErrorView::UnexpectedNoneInColumn("String"@)),
            _ => Err(ErrorView::ConversionFailure(mismatch_message(v, "String"@))),
        }
    }

    fn try_from_turso(v: &TursoValue) -> (r: Result<String, Error>) {
        match v {
            TursoValue::Text(s) => Ok(s.clone()),
            TursoValue::Null => Err(unexpected_none("String")),
            _ => type_mismatch("String", v),
        }
    }
}

/// A blob reads as its bytes, a text as its UTF-8 encoding.
impl TryFromTursoValue for Vec<u8> {
    open spec fn from_turso_view(v: SqlValue) -> Result<Seq<u8>, ErrorView> {
        match v {
            SqlValue::Blob(b) => Ok(b),
            SqlValue::Text(s) => Ok(vstd::utf8::encode_utf8(s)),
            SqlValue::Null => Err(ErrorView::UnexpectedNoneInColumn("Vec<u8>"@)),
            _ => Err(ErrorView::ConversionFailure(mismatch_message(v, "Vec<u8>"@))),
        }
    }

    fn try_from_turso(v: &TursoValue) -> (r: Result<Vec<u8>, Error>) {
        match v {
            TursoValue::Blob(b) => {
                let r = crate::value::copy_bytes(b);
                proof { lemma_bytes_deep_view(r); }
                Ok(r)
            },
            TursoValue::Text(s) => {
                let bytes = s.as_str().as_bytes();
                let r = vstd::slice::slice_to_vec(bytes);
                proof { lemma_bytes_deep_view(r); }
                Ok(r)
            },
            TursoValue::Null => Err(unexpected_none("Vec<u8>")),
            _ => type_mismatch("Vec<u8>", v),
        }
    }
}

/// NULL reads as `None`; any other value as `Some` of what `T` reads.
impl<T: TryFromTursoValue> TryFromTursoValue for Option<T> {
    open spec fn from_turso_view(v: SqlValue) -> Result<Option<T::V>, ErrorView> {
        match v {
            SqlValue::Null => Ok(None),
            _ => match T::from_turso_view(v) {
                Ok(t) => Ok(Some(t)),
                Err(e) => Err(e),
            },
        }
    }

    fn try_from_turso(v: &TursoValue) -> (r: Result<Option<T>, Error>) {
        match v {
            TursoValue::Null => Ok(None),
            _ => match T::try_from_turso(v) {
                Ok(t) => Ok(Some(t)),
                Err(e) => Err(e),
            },
        }
    }
}

/// Any stored value reads as itself.
impl TryFromTursoValue for TursoValue {
    open spec fn from_turso_view(v: SqlValue) -> Result<SqlValue, ErrorView> {
        Ok(v)
    }

    fn try_from_turso(v: &TursoValue) -> (r: Result<TursoValue, Error>) {
        Ok(v.duplicate())
    }
}

/// Where a floating-point number is read from: the bits of a stored real, or
/// a stored integer (which becomes the nearest float).
#[derive(Debug, PartialEq, Eq)]
pub enum NumberSource {
    Real(u64),
    Integer(i64),
}

/// What reading a stored value as the floating-point type named `ty` starts
/// from: a real or an integer; NULL and other values are errors.
pub open spec fn number_source_view(v: SqlValue, ty: Seq<char>) -> Result<NumberSource, ErrorView> {
    match v {
        SqlValue::Real(bits) => Ok(NumberSource::Real(bits)),
        SqlValue::Integer(i) => Ok(NumberSource::Integer(i)),
        SqlValue::Null => Err(ErrorView::UnexpectedNoneInColumn(ty)),
        _ => Err(ErrorView::ConversionFailure(mismatch_message(v, ty))),
    }
}

/// The number a stored value is read from as the floating-point type `ty`.
pub fn number_source(v: &TursoValue, ty: &str) -> (r: Result<NumberSource, Error>)
    ensures
        match (r, number_source_view(v@, ty@)) {
            (Ok(a), Ok(b)) => a == b,
            (Err(e), Err(f)) => e@ == f,
            _ => false,
        },
{
    match v {
        TursoValue::Real(bits) => Ok(NumberSource::Real(*bits)),
        TursoValue::Integer(i) => Ok(NumberSource::Integer(*i)),
        TursoValue::Null => Err(unexpected_none(ty)),
        _ => type_mismatch(ty, v),
    }
}

/// The number an optional floating-point value of type `ty` is read from:
/// NULL reads as `None`, anything else as [`number_source`] reads it.
pub fn optional_number_source(v: &TursoValue, ty: &str) -> (r: Result<Option<NumberSource>, Error>)
    ensures
        v@ is Null ==> r == Ok::<Option<NumberSource>, Error>(None),
        !(v@ is Null) ==> match (r, number_source_view(v@, ty@)) {
            (Ok(Some(a)), Ok(b)) => a == b,
            (Err(e), Err(f)) => e@ == f,
            _ => false,
        },
{
    match v {
        TursoValue::Null => Ok(None),
        _ => match number_source(v, ty) {
            Ok(n) => Ok(Some(n)),
            Err(e) => Err(e),
        },
    }
}

} // verus!
