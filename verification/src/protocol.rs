//! Protocol helpers shared by the comparison engine and the dispatch layer.

use vstd::prelude::*;
use crate::bignum::BigNum;
use crate::bignum::big_from_i64;
use crate::bignum::big_lt;
use crate::error::PyError;
use crate::error::type_error;
use crate::value::Kind;
use crate::value::Value;
use crate::value::numeric_spec;
use crate::value::vals_eq;
use crate::value::values_equal;

verus! {

/// Tri-state result of a comparison operation: a decided boolean, or the
/// marker that lets the dispatch layer retry with reflected operands.
pub enum ComparisonOutcome {
    Implemented(bool),
    NotImplemented,
}

/// The comparison operators routed through the compare slot.
#[derive(Clone, Copy, PartialEq, Eq, Structural)]
pub enum PyComparisonOp {
    Lt,
    Le,
    Eq,
    Ne,
    Gt,
    Ge,
}

/// How one pair of operands orders: decisively, as a tie that passes the
/// decision on, or not at all.
pub enum FieldOrd {
    Decided(bool),
    Tie,
    Undefined,
}

/// Strict less-than between two operands: equal operands tie; otherwise only
/// numeric operands order, by value.
pub open spec fn field_lt(a: Value, b: Value) -> FieldOrd {
    if vals_eq(a, b) {
        FieldOrd::Tie
    } else {
        match (numeric_spec(a), numeric_spec(b)) {
            (Option::Some(x), Option::Some(y)) => FieldOrd::Decided(x < y),
            _ => FieldOrd::Undefined,
        }
    }
}

/// Strict greater-than between two operands, mirroring `field_lt`.
pub open spec fn field_gt(a: Value, b: Value) -> FieldOrd {
    if vals_eq(a, b) {
        FieldOrd::Tie
    } else {
        match (numeric_spec(a), numeric_spec(b)) {
            (Option::Some(x), Option::Some(y)) => FieldOrd::Decided(x > y),
            _ => FieldOrd::Undefined,
        }
    }
}

/// The integer a value denotes under the index capability, if any.
pub fn value_as_num(v: &Value) -> (r: Option<BigNum>)
    ensures
        match r {
            Option::Some(n) => numeric_spec(*v) == Option::Some(n.value()),
            Option::None => numeric_spec(*v) is None,
        },
{
    match &v.kind {
        Kind::Int(n) => Option::Some(n.clone_num()),
        Kind::Bool(b) => Option::Some(big_from_i64(if *b { 1 } else { 0 })),
        _ => Option::None,
    }
}

/// Strict less-than helper: `None` means the operands tie and the decision
/// passes to the next field; an undefined ordering is a type error.
pub fn value_lt(a: &Value, b: &Value) -> (r: Result<Option<bool>, PyError>)
    ensures
        match r {
            Result::Ok(opt) => match opt {
                Option::None => field_lt(*a, *b) is Tie,
                Option::Some(d) => field_lt(*a, *b) == FieldOrd::Decided(d),
            },
            Result::Err(e) => field_lt(*a, *b) is Undefined && e.kind is TypeError,
        },
{
    if values_equal(a, b) {
        return Result::Ok(Option::None);
    }
    let na = value_as_num(a);
    let nb = value_as_num(b);
    match (na, nb) {
        (Option::Some(x), Option::Some(y)) => Result::Ok(Option::Some(big_lt(&x, &y))),
        _ => Result::Err(type_error("'<' not supported between the operand types")),
    }
}

/// Strict greater-than helper, mirroring `value_lt`.
pub fn value_gt(a: &Value, b: &Value) -> (r: Result<Option<bool>, PyError>)
    ensures
        match r {
            Result::Ok(opt) => match opt {
                Option::None => field_gt(*a, *b) is Tie,
                Option::Some(d) => field_gt(*a, *b) == FieldOrd::Decided(d),
            },
            Result::Err(e) => field_gt(*a, *b) is Undefined && e.kind is TypeError,
        },
{
    if values_equal(a, b) {
        return Result::Ok(Option::None);
    }
    let na = value_as_num(a);
    let nb = value_as_num(b);
    match (na, nb) {
        (Option::Some(x), Option::Some(y)) => Result::Ok(Option::Some(big_lt(&y, &x))),
        _ => Result::Err(type_error("'>' not supported between the operand types")),
    }
}

/// Result of chaining field comparisons: a decided boolean or an ordering
/// the operands do not support.
pub enum ChainRes {
    Val(bool),
    Unsupported,
}

/// Lexicographic chaining: the first decisive field wins, an undefined field
/// comparison stops the chain, and a full tie yields the default.
pub open spec fn chain3(a: FieldOrd, b: FieldOrd, c: FieldOrd, dflt: bool) -> ChainRes {
    match a {
        FieldOrd::Decided(v) => ChainRes::Val(v),
        FieldOrd::Undefined => ChainRes::Unsupported,
        FieldOrd::Tie => match b {
            FieldOrd::Decided(v) => ChainRes::Val(v),
            FieldOrd::Undefined => ChainRes::Unsupported,
            FieldOrd::Tie => match c {
                FieldOrd::Decided(v) => ChainRes::Val(v),
                FieldOrd::Undefined => ChainRes::Unsupported,
                FieldOrd::Tie => ChainRes::Val(dflt),
            },
        },
    }
}

} // verus!
