//! The values a turso database stores, and the parameters handed to a statement.

use vstd::prelude::*;

verus! {

/// A value as a turso database stores it.
///
/// A `Real` holds the IEEE 754 bit pattern of the stored double: the library
/// only carries reals through, it never computes with them.
#[derive(Debug, PartialEq, Eq)]
pub enum TursoValue {
    Null,
    Integer(i64),
    Real(u64),
    Text(String),
    Blob(Vec<u8>),
}

/// The mathematical model of a [`TursoValue`].
pub enum SqlValue {
    Null,
    Integer(i64),
    Real(u64),
    Text(Seq<char>),
    Blob(Seq<u8>),
}

impl View for TursoValue {
    type V = SqlValue;

    open spec fn view(&self) -> SqlValue {
        match self {
            TursoValue::Null => SqlValue::Null,
            TursoValue::Integer(i) => SqlValue::Integer(*i),
            TursoValue::Real(bits) => SqlValue::Real(*bits),
            TursoValue::Text(s) => SqlValue::Text(s@),
            TursoValue::Blob(b) => SqlValue::Blob(b@),
        }
    }
}

impl DeepView for TursoValue {
    type V = SqlValue;

    open spec fn deep_view(&self) -> SqlValue {
        self@
    }
}

/// The SQL name of the storage class of a value, as used in conversion errors.
pub open spec fn kind_name(v: SqlValue) -> Seq<char> {
    match v {
        SqlValue::Null => "NULL"@,
        SqlValue::Integer(_) => "INTEGER"@,
        SqlValue::Real(_) => "REAL"@,
        SqlValue::Text(_) => "TEXT"@,
        SqlValue::Blob(_) => "BLOB"@,
    }
}

/// Copies a byte vector.
pub(crate) fn copy_bytes(b: &Vec<u8>) -> (r: Vec<u8>)
    ensures
        r@ == b@,
{
    let mut r: Vec<u8> = Vec::new();
    let n = b.len();
    for i in 0..n
        invariant
            n == b.len(),
            r@ == b@.subrange(0, i as int),
    {
        r.push(b[i]);
        assert(r@ == b@.subrange(0, i + 1));
    }
    assert(b@.subrange(0, n as int) == b@);
    r
}

impl TursoValue {
    /// The name of the storage class of this value (`NULL`, `INTEGER`, ...).
    pub fn kind(&self) -> (r: &'static str)
        ensures
            r@ == kind_name(self@),
    {
        match self {
            TursoValue::Null => "NULL",
            TursoValue::Integer(_) => "INTEGER",
            TursoValue::Real(_) => "REAL",
            TursoValue::Text(_) => "TEXT",
            TursoValue::Blob(_) => "BLOB",
        }
    }

    /// An independent copy of this value.
    pub fn duplicate(&self) -> (r: TursoValue)
        ensures
            r@ == self@,
    {
        match self {
            TursoValue::Null => TursoValue::Null,
            TursoValue::Integer(i) => TursoValue::Integer(*i),
            TursoValue::Real(bits) => TursoValue::Real(*bits),
            TursoValue::Text(s) => TursoValue::Text(s.clone()),
            TursoValue::Blob(b) => TursoValue::Blob(copy_bytes(b)),
        }
    }
}

/// The parameters bound to a statement.
#[derive(Debug, PartialEq, Eq)]
pub enum TursoParams {
    Empty,
    Positional(Vec<TursoValue>),
}

/// The model of [`TursoParams`].
pub enum SqlParams {
    Empty,
    Positional(Seq<SqlValue>),
}

impl View for TursoParams {
    type V = SqlParams;

    open spec fn view(&self) -> SqlParams {
        match self {
            TursoParams::Empty => SqlParams::Empty,
            TursoParams::Positional(vals) => SqlParams::Positional(
                vals@.map_values(|v: TursoValue| v@),
            ),
        }
    }
}

/// The parameters for a statement with the given values: none at all when
/// there are no values, else the values by position, in order.
pub open spec fn params_for(vals: Seq<SqlValue>) -> SqlParams {
    if vals.len() == 0 {
        SqlParams::Empty
    } else {
        SqlParams::Positional(vals)
    }
}

} // verus!
