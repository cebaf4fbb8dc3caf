//! The slice type: stored fields, index normalization, comparison.

use vstd::prelude::*;
use crate::bignum::BigNum;
use crate::bignum::big_add;
use crate::bignum::big_from_i64;
use crate::bignum::big_is_negative;
use crate::bignum::big_is_zero;
use crate::bignum::big_lt;
use crate::bignum::big_zero;
use crate::error::PyError;
use crate::error::type_error;
use crate::error::value_error;
use crate::value::Kind;
use crate::value::NONE_ID;
use crate::value::Value;
use crate::value::clone_value;
use crate::value::is_none_value;
use crate::value::is_missing;
use crate::value::none_value;
use crate::value::numeric_spec;
use crate::value::obs_eq;
use crate::value::sfield_eq;
use crate::value::slice_fields_equal;
use crate::value::vals_eq;
use crate::value::values_equal;
use crate::protocol::ChainRes;
use crate::protocol::ComparisonOutcome;
use crate::protocol::FieldOrd;
use crate::protocol::PyComparisonOp;
use crate::protocol::chain3;
use crate::protocol::field_gt;
use crate::protocol::field_lt;
use crate::protocol::value_gt;
use crate::protocol::value_lt;
use crate::function::ArgBundle;
use crate::function::bind_positional;
use crate::machine::ELLIPSIS_TYPE;
use crate::machine::Machine;
use crate::machine::NativeOp;
use crate::machine::SLICE_TYPE;
use crate::machine::SlotEntry;
use crate::machine::SlotTable;
use crate::value::ELLIPSIS_ID;
use crate::value::ellipsis_value;
use crate::value::not_implemented_value;

verus! {

/// A slice value. `start` and `step` may be absent; `stop` is always stored,
/// though its stored value may itself be the missing value.
#[derive(Debug)]
pub struct PySlice {
    pub start: Option<Value>,
    pub stop: Value,
    pub step: Option<Value>,
}

/// What a slice field contributes to normalization: it is the missing value,
/// an integer under the index capability, or unusable.
pub enum FieldRes {
    Missing,
    Num(int),
    Bad,
}

/// Resolution of a stored field value under the index-conversion rule.
pub open spec fn val_field_spec(v: Value) -> FieldRes {
    if is_missing(v) {
        FieldRes::Missing
    } else {
        match numeric_spec(v) {
            Option::Some(n) => FieldRes::Num(n),
            Option::None => FieldRes::Bad,
        }
    }
}

/// Resolution of an optional field: absent reads as missing.
pub open spec fn field_spec(f: Option<Value>) -> FieldRes {
    match f {
        Option::None => FieldRes::Missing,
        Option::Some(v) => val_field_spec(v),
    }
}

/// Direction-aware clamp of a resolved index: a negative index counts from
/// the end and is then clamped up to `lower`; a non-negative one is clamped
/// down to `upper`.
pub open spec fn clamp_index(v: int, length: int, lower: int, upper: int) -> int {
    if v < 0 {
        if v + length < lower {
            lower
        } else {
            v + length
        }
    } else if v > upper {
        upper
    } else {
        v
    }
}

/// Outcome of normalization: concrete bounds, a zero-step rejection, or a
/// field without the index capability.
pub enum NormRes {
    Triple(int, int, int),
    ZeroStep,
    BadIndex,
}

/// The normalization algorithm: resolve `step` (absent means 1, zero is
/// rejected), pick the direction-dependent sentinel bounds, then resolve and
/// clamp `start` and `stop`.
pub open spec fn norm_spec(s: PySlice, length: int) -> NormRes {
    let stepf = field_spec(s.step);
    if stepf is Bad {
        NormRes::BadIndex
    } else {
        let step = match stepf {
            FieldRes::Num(n) => n,
            _ => 1int,
        };
        if step == 0 {
            NormRes::ZeroStep
        } else {
            let lower: int = if step < 0 {
                -1
            } else {
                0
            };
            let upper: int = if step < 0 {
                length - 1
            } else {
                length
            };
            let startf = field_spec(s.start);
            if startf is Bad {
                NormRes::BadIndex
            } else {
                let start = match startf {
                    FieldRes::Num(n) => clamp_index(n, length, lower, upper),
                    _ => if step < 0 { upper } else { lower },
                };
                let stopf = val_field_spec(s.stop);
                if stopf is Bad {
                    NormRes::BadIndex
                } else {
                    let stop = match stopf {
                        FieldRes::Num(n) => clamp_index(n, length, lower, upper),
                        _ => if step < 0 { lower } else { upper },
                    };
                    NormRes::Triple(start, stop, step)
                }
            }
        }
    }
}

/// Converts a concrete field value for indexing: the missing value yields
/// nothing, a value with the index capability yields its integer, anything
/// else is a type error.
pub fn to_index_value(v: &Value) -> (r: Result<Option<BigNum>, PyError>)
    ensures
        match r {
            Result::Ok(opt) => match opt {
                Option::None => val_field_spec(*v) is Missing,
                Option::Some(n) => val_field_spec(*v) == FieldRes::Num(n.value()),
            },
            Result::Err(e) => val_field_spec(*v) is Bad && e.kind is TypeError
                && e.msg@ == "slice indices must be integers or None or have an index capability"@,
        },
{
    if is_none_value(v) {
        return Result::Ok(Option::None);
    }
    match &v.kind {
        Kind::Int(n) => Result::Ok(Option::Some(n.clone_num())),
        Kind::Bool(b) => Result::Ok(Option::Some(big_from_i64(if *b { 1 } else { 0 }))),
        _ => Result::Err(type_error(
            "slice indices must be integers or None or have an index capability",
        )),
    }
}

/// Converts an optional field for indexing; absent reads as missing.
pub fn field_index(f: &Option<Value>) -> (r: Result<Option<BigNum>, PyError>)
    ensures
        match r {
            Result::Ok(opt) => match opt {
                Option::None => field_spec(*f) is Missing,
                Option::Some(n) => field_spec(*f) == FieldRes::Num(n.value()),
            },
            Result::Err(e) => field_spec(*f) is Bad && e.kind is TypeError
                && e.msg@ == "slice indices must be integers or None or have an index capability"@,
        },
{
    match f {
        Option::None => Result::Ok(Option::None),
        Option::Some(v) => to_index_value(v),
    }
}

/// Negative-adjust then clamp a resolved index into the sentinel bounds.
fn clamp_field(s0: BigNum, length: &BigNum, lower: &BigNum, upper: &BigNum) -> (r: BigNum)
    ensures
        r.value() == clamp_index(s0.value(), length.value(), lower.value(), upper.value()),
{
    if big_is_negative(&s0) {
        let shifted = big_add(&s0, length);
        if big_lt(&shifted, lower) {
            lower.clone_num()
        } else {
            shifted
        }
    } else {
        if big_lt(upper, &s0) {
            upper.clone_num()
        } else {
            s0
        }
    }
}

/// The stored value a field reads as: the missing value when absent.
pub open spec fn field_read(f: Option<Value>) -> Value {
    match f {
        Option::Some(v) => v,
        Option::None => Value { id: NONE_ID, kind: Kind::NoneVal },
    }
}

impl PySlice {
    /// Read accessor for `start`: the stored value, missing when absent.
    pub fn start(&self) -> (r: Value)
        ensures
            obs_eq(field_read(self.start), r),
    {
        match &self.start {
            Option::Some(v) => clone_value(v),
            Option::None => none_value(),
        }
    }

    /// Read accessor for `stop`: the stored value unchanged.
    pub fn stop(&self) -> (r: Value)
        ensures
            obs_eq(self.stop, r),
    {
        clone_value(&self.stop)
    }

    /// Read accessor for `step`: the stored value, missing when absent.
    pub fn step(&self) -> (r: Value)
        ensures
            obs_eq(field_read(self.step), r),
    {
        match &self.step {
            Option::Some(v) => clone_value(v),
            Option::None => none_value(),
        }
    }

    /// The `start` field under the index-conversion rule.
    pub fn start_index(&self) -> (r: Result<Option<BigNum>, PyError>)
        ensures
            match r {
                Result::Ok(opt) => match opt {
                    Option::None => field_spec(self.start) is Missing,
                    Option::Some(n) => field_spec(self.start) == FieldRes::Num(n.value()),
                },
                Result::Err(e) => field_spec(self.start) is Bad && e.kind is TypeError,
            },
    {
        field_index(&self.start)
    }

    /// The `stop` field under the index-conversion rule.
    pub fn stop_index(&self) -> (r: Result<Option<BigNum>, PyError>)
        ensures
            match r {
                Result::Ok(opt) => match opt {
                    Option::None => val_field_spec(self.stop) is Missing,
                    Option::Some(n) => val_field_spec(self.stop) == FieldRes::Num(n.value()),
                },
                Result::Err(e) => val_field_spec(self.stop) is Bad && e.kind is TypeError,
            },
    {
        to_index_value(&self.stop)
    }

    /// The `step` field under the index-conversion rule.
    pub fn step_index(&self) -> (r: Result<Option<BigNum>, PyError>)
        ensures
            match r {
                Result::Ok(opt) => match opt {
                    Option::None => field_spec(self.step) is Missing,
                    Option::Some(n) => field_spec(self.step) == FieldRes::Num(n.value()),
                },
                Result::Err(e) => field_spec(self.step) is Bad && e.kind is TypeError,
            },
    {
        field_index(&self.step)
    }

    /// Normalize the stored fields against a sequence length into concrete
    /// `(start, stop, step)` iteration bounds.
    pub fn inner_indices(&self, length: &BigNum) -> (r: Result<(BigNum, BigNum, BigNum), PyError>)
        ensures
            match r {
                Result::Ok(t) => norm_spec(*self, length.value()) == NormRes::Triple(
                    t.0.value(),
                    t.1.value(),
                    t.2.value(),
                ),
                Result::Err(e) => match norm_spec(*self, length.value()) {
                    NormRes::Triple(a, o, st) => false,
                    NormRes::ZeroStep => e.kind is ValueError
                        && e.msg@ == "slice step cannot be zero"@,
                    NormRes::BadIndex => e.kind is TypeError
                        && e.msg@ == "slice indices must be integers or None or have an index capability"@,
                },
            },
    {
        let step_opt = field_index(&self.step)?;
        let step = match step_opt {
            Option::None => big_from_i64(1),
            Option::Some(n) => {
                if big_is_zero(&n) {
                    return Result::Err(value_error("slice step cannot be zero"));
                }
                n
            },
        };
        let backwards = big_is_negative(&step);

        let lower = if backwards {
            big_from_i64(-1)
        } else {
            big_zero()
        };
        let upper = if backwards {
            big_add(&lower, length)
        } else {
            length.clone_num()
        };

        let start_opt = field_index(&self.start)?;
        let start = match start_opt {
            Option::None => {
                if backwards {
                    upper.clone_num()
                } else {
                    lower.clone_num()
                }
            },
            Option::Some(s0) => clamp_field(s0, length, &lower, &upper),
        };

        let stop_opt = to_index_value(&self.stop)?;
        let stop = match stop_opt {
            Option::None => {
                if backwards {
                    lower
                } else {
                    upper
                }
            },
            Option::Some(s0) => clamp_field(s0, length, &lower, &upper),
        };

        Result::Ok((start, stop, step))
    }
}

/// Declared slice equality: the three field pairs identical-or-equal, the
/// absent-field normalization included.
pub open spec fn slice_eq_fields(x: PySlice, y: PySlice) -> bool {
    sfield_eq(x.start, y.start) && vals_eq(x.stop, y.stop) && sfield_eq(x.step, y.step)
}

/// The slice less-than chain over `(start, stop, step)`.
pub open spec fn slice_lt_chain(x: PySlice, y: PySlice, dflt: bool) -> ChainRes {
    chain3(
        field_lt(field_read(x.start), field_read(y.start)),
        field_lt(x.stop, y.stop),
        field_lt(field_read(x.step), field_read(y.step)),
        dflt,
    )
}

/// The slice greater-than chain over `(start, stop, step)`.
pub open spec fn slice_gt_chain(x: PySlice, y: PySlice, dflt: bool) -> ChainRes {
    chain3(
        field_gt(field_read(x.start), field_read(y.start)),
        field_gt(x.stop, y.stop),
        field_gt(field_read(x.step), field_read(y.step)),
        dflt,
    )
}

/// Strict less-than of two optional slice fields, read as the accessors
/// read them.
fn sfield_lt(x: &Option<Value>, y: &Option<Value>) -> (r: Result<Option<bool>, PyError>)
    ensures
        match r {
            Result::Ok(opt) => match opt {
                Option::None => field_lt(field_read(*x), field_read(*y)) is Tie,
                Option::Some(d) => field_lt(field_read(*x), field_read(*y))
                    == FieldOrd::Decided(d),
            },
            Result::Err(e) => field_lt(field_read(*x), field_read(*y)) is Undefined
                && e.kind is TypeError,
        },
{
    match (x, y) {
        (Option::Some(v), Option::Some(w)) => value_lt(v, w),
        (Option::None, Option::None) => Result::Ok(Option::None),
        (Option::None, Option::Some(w)) => {
            if w.id == NONE_ID || is_none_value(w) {
                Result::Ok(Option::None)
            } else {
                Result::Err(type_error("'<' not supported between the operand types"))
            }
        },
        (Option::Some(v), Option::None) => {
            if v.id == NONE_ID || is_none_value(v) {
                Result::Ok(Option::None)
            } else {
                Result::Err(type_error("'<' not supported between the operand types"))
            }
        },
    }
}

/// Strict greater-than of two optional slice fields.
fn sfield_gt(x: &Option<Value>, y: &Option<Value>) -> (r: Result<Option<bool>, PyError>)
    ensures
        match r {
            Result::Ok(opt) => match opt {
                Option::None => field_gt(field_read(*x), field_read(*y)) is Tie,
                Option::Some(d) => field_gt(field_read(*x), field_read(*y))
                    == FieldOrd::Decided(d),
            },
            Result::Err(e) => field_gt(field_read(*x), field_read(*y)) is Undefined
                && e.kind is TypeError,
        },
{
    match (x, y) {
        (Option::Some(v), Option::Some(w)) => value_gt(v, w),
        (Option::None, Option::None) => Result::Ok(Option::None),
        (Option::None, Option::Some(w)) => {
            if w.id == NONE_ID || is_none_value(w) {
                Result::Ok(Option::None)
            } else {
                Result::Err(type_error("'>' not supported between the operand types"))
            }
        },
        (Option::Some(v), Option::None) => {
            if v.id == NONE_ID || is_none_value(v) {
                Result::Ok(Option::None)
            } else {
                Result::Err(type_error("'>' not supported between the operand types"))
            }
        },
    }
}

/// Exactly what the slice comparison slot returns for each operator and
/// operand.
pub open spec fn slice_cmp_post(
    x: PySlice,
    other: Value,
    op: PyComparisonOp,
    r: Result<ComparisonOutcome, PyError>,
) -> bool {
    match r {
        Result::Ok(out) => match out {
            ComparisonOutcome::NotImplemented => !(other.kind is Slice),
            ComparisonOutcome::Implemented(v) => other.kind matches Kind::Slice(q) && match op {
                PyComparisonOp::Eq => v == slice_eq_fields(x, *q),
                PyComparisonOp::Ne => v == !slice_eq_fields(x, *q),
                PyComparisonOp::Lt => slice_lt_chain(x, *q, false) == ChainRes::Val(v),
                PyComparisonOp::Le => slice_lt_chain(x, *q, true) == ChainRes::Val(v),
                PyComparisonOp::Gt => slice_gt_chain(x, *q, false) == ChainRes::Val(v),
                PyComparisonOp::Ge => slice_gt_chain(x, *q, true) == ChainRes::Val(v),
            },
        },
        Result::Err(e) => other.kind matches Kind::Slice(q) && e.kind is TypeError && match op {
            PyComparisonOp::Eq => false,
            PyComparisonOp::Ne => false,
            PyComparisonOp::Lt => slice_lt_chain(x, *q, false) is Unsupported,
            PyComparisonOp::Le => slice_lt_chain(x, *q, true) is Unsupported,
            PyComparisonOp::Gt => slice_gt_chain(x, *q, false) is Unsupported,
            PyComparisonOp::Ge => slice_gt_chain(x, *q, true) is Unsupported,
        },
    }
}

impl PySlice {
    /// Run the less-than chain against another slice.
    fn chain_lt(&self, q: &PySlice, dflt: bool) -> (r: Result<bool, PyError>)
        ensures
            match r {
                Result::Ok(v) => slice_lt_chain(*self, *q, dflt) == ChainRes::Val(v),
                Result::Err(e) => slice_lt_chain(*self, *q, dflt) is Unsupported
                    && e.kind is TypeError,
            },
    {
        let first = sfield_lt(&self.start, &q.start)?;
        match first {
            Option::Some(v) => Result::Ok(v),
            Option::None => {
                let second = value_lt(&self.stop, &q.stop)?;
                match second {
                    Option::Some(v) => Result::Ok(v),
                    Option::None => {
                        let third = sfield_lt(&self.step, &q.step)?;
                        match third {
                            Option::Some(v) => Result::Ok(v),
                            Option::None => Result::Ok(dflt),
                        }
                    },
                }
            },
        }
    }

    /// Run the greater-than chain against another slice.
    fn chain_gt(&self, q: &PySlice, dflt: bool) -> (r: Result<bool, PyError>)
        ensures
            match r {
                Result::Ok(v) => slice_gt_chain(*self, *q, dflt) == ChainRes::Val(v),
                Result::Err(e) => slice_gt_chain(*self, *q, dflt) is Unsupported
                    && e.kind is TypeError,
            },
    {
        let first = sfield_gt(&self.start, &q.start)?;
        match first {
            Option::Some(v) => Result::Ok(v),
            Option::None => {
                let second = value_gt(&self.stop, &q.stop)?;
                match second {
                    Option::Some(v) => Result::Ok(v),
                    Option::None => {
                        let third = sfield_gt(&self.step, &q.step)?;
                        match third {
                            Option::Some(v) => Result::Ok(v),
                            Option::None => Result::Ok(dflt),
                        }
                    },
                }
            },
        }
    }

    /// The slice comparison slot: equality is pairwise identical-or-equal
    /// over the three fields; ordering is the lexicographic chain with the
    /// operator's default on a full tie; any other operand kind yields the
    /// `NotImplemented` outcome.
    pub fn cmp(&self, other: &Value, op: PyComparisonOp) -> (r: Result<ComparisonOutcome, PyError>)
        ensures
            slice_cmp_post(*self, *other, op, r),
    {
        let q = match &other.kind {
            Kind::Slice(q) => q,
            _ => {
                return Result::Ok(ComparisonOutcome::NotImplemented);
            },
        };
        match op {
            PyComparisonOp::Eq | PyComparisonOp::Ne => {
                let eq = slice_fields_equal(&self.start, &q.start)
                    && values_equal(&self.stop, &q.stop)
                    && slice_fields_equal(&self.step, &q.step);
                let v = match op {
                    PyComparisonOp::Ne => !eq,
                    _ => eq,
                };
                Result::Ok(ComparisonOutcome::Implemented(v))
            },
            PyComparisonOp::Lt => Result::Ok(
                ComparisonOutcome::Implemented(self.chain_lt(q, false)?),
            ),
            PyComparisonOp::Le => Result::Ok(
                ComparisonOutcome::Implemented(self.chain_lt(q, true)?),
            ),
            PyComparisonOp::Gt => Result::Ok(
                ComparisonOutcome::Implemented(self.chain_gt(q, false)?),
            ),
            PyComparisonOp::Ge => Result::Ok(
                ComparisonOutcome::Implemented(self.chain_gt(q, true)?),
            ),
        }
    }
}

/// Exactly what slice construction returns: the binding table over the
/// positional count, arity violations as type errors.
pub open spec fn slice_new_post(args: ArgBundle, r: Result<Value, PyError>) -> bool {
    match r {
        Result::Ok(v) => args.kwargs@.len() == 0 && 1 <= args.args@.len() <= 3
            && (v.kind matches Kind::Slice(p) && (if args.args@.len() == 1 {
            p.start is None && p.stop == args.args@[0] && p.step is None
        } else if args.args@.len() == 2 {
            p.start == Option::Some(args.args@[0]) && p.stop == args.args@[1]
                && p.step is None
        } else {
            p.start == Option::Some(args.args@[0]) && p.stop == args.args@[1]
                && p.step == Option::Some(args.args@[2])
        })),
        Result::Err(e) => (args.kwargs@.len() > 0 || args.args@.len() == 0
            || args.args@.len() > 3) && e.kind is TypeError && (args.args@.len() == 0
            ==> e.msg@ == "slice() must have at least one argument"@),
    }
}

impl PySlice {
    /// The construct slot: an explicit match over the bound positional
    /// count, each arm producing a fully populated slice.
    pub fn tp_new(m: &mut Machine, _cls: usize, args: ArgBundle) -> (r: Result<Value, PyError>)
        ensures
            final(m).types == old(m).types,
            final(m).locals == old(m).locals,
            old(m).wf() ==> final(m).wf(),
            slice_new_post(args, r),
    {
        if args.args.len() == 0 {
            return Result::Err(type_error("slice() must have at least one argument"));
        }
        let n = args.args.len();
        let mut bound = bind_positional(args, 1, 3)?;
        let third = bound.pop().unwrap();
        let second = bound.pop().unwrap();
        let first = bound.pop().unwrap();
        let slice = if n == 1 {
            PySlice { start: Option::None, stop: first.unwrap(), step: Option::None }
        } else if n == 2 {
            PySlice {
                start: Option::Some(first.unwrap()),
                stop: second.unwrap(),
                step: Option::None,
            }
        } else {
            PySlice {
                start: Option::Some(first.unwrap()),
                stop: second.unwrap(),
                step: Option::Some(third.unwrap()),
            }
        };
        Result::Ok(m.new_value(Kind::Slice(Box::new(slice))))
    }

    /// `repr()` of a slice: each field through the generic repr protocol,
    /// the absent sentinel as the canonical missing-value text.
    pub fn repr(&self, m: &Machine) -> (r: Result<String, PyError>)
        ensures
            r matches Result::Ok(s) && s@ == "slice("@ + crate::dispatch::repr_field(
                *m,
                self.start,
            ) + ", "@ + crate::dispatch::repr_spec(*m, self.stop) + ", "@
                + crate::dispatch::repr_field(*m, self.step) + ")"@,
    {
        let mut out = String::from_str("slice(");
        let fs = crate::dispatch::repr_field_exec(m, &self.start);
        out.append(fs.as_str());
        out.append(", ");
        let ss = crate::dispatch::repr_value(m, &self.stop);
        out.append(ss.as_str());
        out.append(", ");
        let ts = crate::dispatch::repr_field_exec(m, &self.step);
        out.append(ts.as_str());
        out.append(")");
        Result::Ok(out)
    }

    /// The host-callable `indices` operation: a non-integer length yields the
    /// `NotImplemented` outcome; an integer length is normalized into a tuple
    /// of three fresh integer values.
    pub fn indices(&self, length: &Value, m: &mut Machine) -> (r: Result<Value, PyError>)
        ensures
            final(m).types == old(m).types,
            final(m).locals == old(m).locals,
            old(m).wf() ==> final(m).wf(),
            match r {
                Result::Ok(v) => match length.kind {
                    Kind::Int(lb) => v.kind matches Kind::Tuple(els) && els@.len() == 3
                        && (norm_spec(*self, lb.value()) matches NormRes::Triple(a, o, st)
                        && (els@[0].kind matches Kind::Int(b0) && b0.value() == a)
                        && (els@[1].kind matches Kind::Int(b1) && b1.value() == o)
                        && (els@[2].kind matches Kind::Int(b2) && b2.value() == st)),
                    _ => v.kind is NotImplemented,
                },
                Result::Err(e) => length.kind matches Kind::Int(lb) && match norm_spec(
                    *self,
                    lb.value(),
                ) {
                    NormRes::Triple(a, o, st) => false,
                    NormRes::ZeroStep => e.kind is ValueError
                        && e.msg@ == "slice step cannot be zero"@,
                    NormRes::BadIndex => e.kind is TypeError
                        && e.msg@ == "slice indices must be integers or None or have an index capability"@,
                },
            },
    {
        match &length.kind {
            Kind::Int(lb) => {
                let t = self.inner_indices(lb)?;
                let (a, o, st) = t;
                let va = m.new_int(a);
                let vo = m.new_int(o);
                let vst = m.new_int(st);
                let mut els: Vec<Value> = Vec::new();
                els.push(va);
                els.push(vo);
                els.push(vst);
                Result::Ok(m.new_value(Kind::Tuple(els)))
            },
            _ => Result::Ok(not_implemented_value()),
        }
    }
}

/// The ellipsis singleton's type.
pub struct PyEllipsis;

impl PyEllipsis {
    /// The construct slot: every construction yields the singleton.
    pub fn tp_new(_cls: usize) -> (r: Value)
        ensures
            r.kind is Ellipsis,
            r.id == ELLIPSIS_ID,
    {
        ellipsis_value()
    }

    /// Canonical text of the singleton.
    pub fn repr(&self) -> (r: String)
        ensures
            r@ == "Ellipsis"@,
    {
        String::from_str("Ellipsis")
    }

    /// Reduction for serialization: the same canonical text.
    pub fn reduce(&self) -> (r: String)
        ensures
            r@ == "Ellipsis"@,
    {
        String::from_str("Ellipsis")
    }
}

/// What `init` wires into the registry for the slice type: construction,
/// comparison and repr are native, hashing is declared unsupported.
pub open spec fn slice_wired(m: Machine) -> bool {
    m.types@.len() > ELLIPSIS_TYPE
        && m.types@[SLICE_TYPE as int].slots == (SlotTable {
        construct: SlotEntry::Native(NativeOp::SliceConstruct),
        hash: SlotEntry::Unsupported,
        compare: SlotEntry::Native(NativeOp::SliceCompare),
        repr: SlotEntry::Native(NativeOp::SliceRepr),
    }) && m.types@[ELLIPSIS_TYPE as int].slots == (SlotTable {
        construct: SlotEntry::Native(NativeOp::EllipsisConstruct),
        hash: SlotEntry::Inherit,
        compare: SlotEntry::Native(NativeOp::ScalarCompare),
        repr: SlotEntry::Native(NativeOp::EllipsisRepr),
    })
}

/// Wire the slice and ellipsis slot tables into a bootstrapped registry.
pub fn init(m: &mut Machine)
    requires
        old(m).wf(),
    ensures
        final(m).wf(),
        slice_wired(*final(m)),
        final(m).types@.len() == old(m).types@.len(),
        final(m).next_id == old(m).next_id,
        final(m).locals == old(m).locals,
        forall|j: int|
            0 <= j < old(m).types@.len() && j != SLICE_TYPE && j != ELLIPSIS_TYPE
                ==> final(m).types@[j] == old(m).types@[j],
        final(m).types@[SLICE_TYPE as int].name == old(m).types@[SLICE_TYPE as int].name,
        final(m).types@[SLICE_TYPE as int].parent == old(m).types@[SLICE_TYPE as int].parent,
        final(m).types@[SLICE_TYPE as int].attrs == old(m).types@[SLICE_TYPE as int].attrs,
        final(m).types@[ELLIPSIS_TYPE as int].name == old(m).types@[ELLIPSIS_TYPE as int].name,
        final(m).types@[ELLIPSIS_TYPE as int].parent == old(m).types@[
            ELLIPSIS_TYPE as int
        ].parent,
        final(m).types@[ELLIPSIS_TYPE as int].attrs == old(m).types@[ELLIPSIS_TYPE as int].attrs,
{
    let st = &mut m.types[SLICE_TYPE];
    st.slots = SlotTable {
        construct: SlotEntry::Native(NativeOp::SliceConstruct),
        hash: SlotEntry::Unsupported,
        compare: SlotEntry::Native(NativeOp::SliceCompare),
        repr: SlotEntry::Native(NativeOp::SliceRepr),
    };
    let et = &mut m.types[ELLIPSIS_TYPE];
    et.slots = SlotTable {
        construct: SlotEntry::Native(NativeOp::EllipsisConstruct),
        hash: SlotEntry::Inherit,
        compare: SlotEntry::Native(NativeOp::ScalarCompare),
        repr: SlotEntry::Native(NativeOp::EllipsisRepr),
    };
}

/// The resolved step of a slice: absent means 1.
pub open spec fn resolved_step(s: PySlice) -> int {
    match field_spec(s.step) {
        FieldRes::Num(n) => n,
        _ => 1int,
    }
}

/// With every field missing or carrying the index capability, normalization
/// fails exactly when the resolved step is zero; otherwise it succeeds and
/// returns that step.
pub proof fn lemma_normalize_step(s: PySlice, length: int)
    requires
        !(field_spec(s.step) is Bad),
        !(field_spec(s.start) is Bad),
        !(val_field_spec(s.stop) is Bad),
    ensures
        norm_spec(s, length) is ZeroStep <==> resolved_step(s) == 0,
        resolved_step(s) != 0 ==> (norm_spec(s, length) matches NormRes::Triple(a, o, st)
            && st == resolved_step(s)),
{
}

/// Bounds of a successful normalization against a non-negative length:
/// forward slices land in `[0, length]`, backward slices in
/// `[-1, length - 1]`, for start and stop alike.
pub proof fn lemma_normalize_bounds(s: PySlice, length: int, a: int, o: int, st: int)
    requires
        length >= 0,
        norm_spec(s, length) == NormRes::Triple(a, o, st),
    ensures
        st != 0,
        st > 0 ==> 0 <= a <= length && 0 <= o <= length,
        st < 0 ==> -1 <= a <= length - 1 && -1 <= o <= length - 1,
{
}

/// Normalization is a pure function of the resolved stored fields and the
/// length: slices whose fields resolve alike normalize alike, so repeated
/// calls return the same bounds.
pub proof fn lemma_normalize_pure(s1: PySlice, s2: PySlice, length: int)
    requires
        field_spec(s1.start) == field_spec(s2.start),
        val_field_spec(s1.stop) == val_field_spec(s2.stop),
        field_spec(s1.step) == field_spec(s2.step),
    ensures
        norm_spec(s1, length) == norm_spec(s2, length),
{
}

} // verus!
