//! Rust values handed to a statement as parameters.

use vstd::prelude::*;
use crate::value::{SqlValue, TursoValue, SqlParams, params_for, copy_bytes};

verus! {

/// A Rust value that can be bound as a statement parameter.
pub trait TursoParam {
    /// The stored value this parameter becomes.
    spec fn param_view(&self) -> SqlValue;

    /// The stored value this parameter becomes.
    fn to_turso_value(&self) -> (r: TursoValue)
        ensures
            r@ == self.param_view(),
    ;
}

impl TursoParam for i8 {
    open spec fn param_view(&self) -> SqlValue {
        SqlValue::Integer(*self as i64)
    }

    fn to_turso_value(&self) -> (r: TursoValue) {
        TursoValue::Integer(*self as i64)
    }
}

impl TursoParam for i16 {
    open spec fn param_view(&self) -> SqlValue {
        SqlValue::Integer(*self as i64)
    }

    fn to_turso_value(&self) -> (r: TursoValue) {
        TursoValue::Integer(*self as i64)
    }
}

impl TursoParam for i32 {
    open spec fn param_view(&self) -> SqlValue {
        SqlValue::Integer(*self as i64)
    }

    fn to_turso_value(&self) -> (r: TursoValue) {
        TursoValue::Integer(*self as i64)
    }
}

impl TursoParam for i64 {
    open spec fn param_view(&self) -> SqlValue {
        SqlValue::Integer(*self)
    }

    fn to_turso_value(&self) -> (r: TursoValue) {
        TursoValue::Integer(*self)
    }
}

impl TursoParam for isize {
    open spec fn param_view(&self) -> SqlValue {
        SqlValue::Integer(*self as i64)
    }

    fn to_turso_value(&self) -> (r: TursoValue) {
        TursoValue::Integer(*self as i64)
    }
}

impl TursoParam for u8 {
    open spec fn param_view(&self) -> SqlValue {
        SqlValue::Integer(*self as i64)
    }

    fn to_turso_value(&self) -> (r: TursoValue) {
        TursoValue::Integer(*self as i64)
    }
}

impl TursoParam for u16 {
    open spec fn param_view(&self) -> SqlValue {
        SqlValue::Integer(*self as i64)
    }

    fn to_turso_value(&self) -> (r: TursoValue) {
        TursoValue::Integer(*self as i64)
    }
}

impl TursoParam for u32 {
    open spec fn param_view(&self) -> SqlValue {
        SqlValue::Integer(*self as i64)
    }

    fn to_turso_value(&self) -> (r: TursoValue) {
        TursoValue::Integer(*self as i64)
    }
}

/// An unsigned value above `i64::MAX` is stored as `i64::MAX`.
impl TursoParam for u64 {
    open spec fn param_view(&self) -> SqlValue {
        SqlValue::Integer(if *self <= i64::MAX { *self as i64 } else { i64::MAX })
    }

    fn to_turso_value(&self) -> (r: TursoValue) {
        let v: u64 = if *self <= 9223372036854775807u64 { *self } else { 9223372036854775807u64 };
        TursoValue::Integer(v as i64)
    }
}

/// A size above `i64::MAX` is stored as `i64::MAX`.
impl TursoParam for usize {
    open spec fn param_view(&self) -> SqlValue {
        SqlValue::Integer(if *self <= i64::MAX { *self as i64 } else { i64::MAX })
    }

    fn to_turso_value(&self) -> (r: TursoValue) {
        let v: u64 = *self as u64;
        let v: u64 = if v <= 9223372036854775807u64 { v } else { 9223372036854775807u64 };
        TursoValue::Integer(v as i64)
    }
}

/// `true` is stored as 1, `false` as 0.
impl TursoParam for bool {
    open spec fn param_view(&self) -> SqlValue {
        SqlValue::Integer(if *self { 1 } else { 0 })
    }

    fn to_turso_value(&self) -> (r: TursoValue) {
        TursoValue::Integer(if *self { 1 } else { 0 })
    }
}

impl TursoParam for String {
    open spec fn param_view(&self) -> SqlValue {
        SqlValue::Text(self@)
    }

    fn to_turso_value(&self) -> (r: TursoValue) {
        TursoValue::Text(self.clone())
    }
}

impl<'a> TursoParam for &'a str {
    open spec fn param_view(&self) -> SqlValue {
        SqlValue::Text((*self)@)
    }

    fn to_turso_value(&self) -> (r: TursoValue) {
        TursoValue::Text((*self).to_owned())
    }
}

impl TursoParam for Vec<u8> {
    open spec fn param_view(&self) -> SqlValue {
        SqlValue::Blob(self@)
    }

    fn to_turso_value(&self) -> (r: TursoValue) {
        TursoValue::Blob(copy_bytes(self))
    }
}

/// `None` is stored as NULL, `Some(v)` as `v` is.
impl<T: TursoParam> TursoParam for Option<T> {
    open spec fn param_view(&self) -> SqlValue {
        match self {
            Some(v) => v.param_view(),
            None => SqlValue::Null,
        }
    }

    fn to_turso_value(&self) -> (r: TursoValue) {
        match self {
            Some(v) => v.to_turso_value(),
            None => TursoValue::Null,
        }
    }
}

/// A stored value is bound as itself.
impl TursoParam for TursoValue {
    open spec fn param_view(&self) -> SqlValue {
        self@
    }

    fn to_turso_value(&self) -> (r: TursoValue) {
        self.duplicate()
    }
}

/// The parameters for a statement: none when `params` is empty, else the
/// stored value of each parameter, by position and in order.
pub fn build_params(params: &[&dyn TursoParam]) -> (r: crate::value::TursoParams)
    ensures
        r@ == params_for(params@.map_values(|p: &dyn TursoParam| p.param_view())),
{
    let mut vals: Vec<TursoValue> = Vec::new();
    let n = params.len();
    for i in 0..n
        invariant
            n == params@.len(),
            vals@.len() == i,
            forall|j: int| 0 <= j < i ==> #[trigger] vals@[j]@ == params@[j].param_view(),
    {
        let v = params[i].to_turso_value();
        vals.push(v);
    }
    assert(vals@.map_values(|v: TursoValue| v@) =~= params@.map_values(
        |p: &dyn TursoParam| p.param_view(),
    ));
    if vals.len() == 0 {
        crate::value::TursoParams::Empty
    } else {
        crate::value::TursoParams::Positional(vals)
    }
}

} // verus!
