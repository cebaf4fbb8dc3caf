//! The type-protocol dispatch layer: construction, hashing, representation
//! and comparison requests routed through the slot tables.

use vstd::prelude::*;
use crate::bignum::BigNum;
use crate::bignum::big_from_u64;
use crate::bignum::big_lt;
use crate::bignum::big_to_decimal;
use crate::bignum::dec_rep;
use crate::error::ErrorKind;
use crate::error::PyError;
use crate::error::type_error;
use crate::function::ArgBundle;
use crate::machine::Machine;
use crate::machine::NativeOp;
use crate::machine::SlotKind;
use crate::machine::resolve_slot;
use crate::machine::resolve_slot_spec;
use crate::machine::type_of;
use crate::machine::type_of_spec;
use crate::objslice::PyEllipsis;
use crate::objslice::PySlice;
use crate::objslice::slice_cmp_post;
use crate::objslice::slice_new_post;
use crate::protocol::ComparisonOutcome;
use crate::protocol::PyComparisonOp;
use crate::protocol::value_as_num;
use crate::value::Kind;
use crate::value::Value;
use crate::value::numeric_spec;
use crate::value::vals_eq;
use crate::value::values_equal;

verus! {

/// The name of a registered type, the root's name past the registry's end.
pub open spec fn type_name_spec(m: Machine, t: int) -> Seq<char> {
    if 0 <= t < m.types@.len() {
        m.types@[t].name@
    } else {
        "object"@
    }
}

/// The name of a registered type.
pub fn name_of_type(m: &Machine, t: usize) -> (r: String)
    ensures
        r@ == type_name_spec(*m, t as int),
{
    if t < m.types.len() {
        m.types[t].name.clone()
    } else {
        String::from_str("object")
    }
}

/// The canonical text of an optional slice field.
pub open spec fn repr_field(m: Machine, f: Option<Value>) -> Seq<char>
    decreases f,
{
    match f {
        Option::None => "None"@,
        Option::Some(v) => repr_spec(m, v),
    }
}

/// The canonical text of a value: the missing value and the singletons by
/// name, numbers in decimal, strings quoted, slices over their fields, and
/// every other kind in the default angle-bracket form.
pub open spec fn repr_spec(m: Machine, v: Value) -> Seq<char>
    decreases v,
{
    match v.kind {
        Kind::NoneVal => "None"@,
        Kind::Bool(b) => if b {
            "True"@
        } else {
            "False"@
        },
        Kind::Int(n) => dec_rep(n.value()),
        Kind::Str(s) => "'"@ + s@ + "'"@,
        Kind::Slice(p) => "slice("@ + repr_field(m, p.start) + ", "@ + repr_spec(m, p.stop)
            + ", "@ + repr_field(m, p.step) + ")"@,
        Kind::Ellipsis => "Ellipsis"@,
        Kind::NotImplemented => "NotImplemented"@,
        Kind::Class(c) => "<class '"@ + type_name_spec(m, c as int) + "'>"@,
        Kind::Module { name, dict } => "<module '"@ + name@ + "'>"@,
        Kind::NativeFunction(_) => "<built-in function>"@,
        _ => "<"@ + type_name_spec(m, type_of_spec(v) as int) + " object>"@,
    }
}

/// Generic repr of an optional slice field.
pub fn repr_field_exec(m: &Machine, f: &Option<Value>) -> (r: String)
    ensures
        r@ == repr_field(*m, *f),
    decreases *f,
{
    match f {
        Option::None => String::from_str("None"),
        Option::Some(v) => repr_value(m, v),
    }
}

/// Generic repr of a value.
pub fn repr_value(m: &Machine, v: &Value) -> (r: String)
    ensures
        r@ == repr_spec(*m, *v),
    decreases *v,
{
    match &v.kind {
        Kind::NoneVal => String::from_str("None"),
        Kind::Bool(b) => {
            if *b {
                String::from_str("True")
            } else {
                String::from_str("False")
            }
        },
        Kind::Int(n) => big_to_decimal(n),
        Kind::Str(s) => {
            let mut out = String::from_str("'");
            out.append(s.as_str());
            out.append("'");
            out
        },
        Kind::Slice(p) => {
            let mut out = String::from_str("slice(");
            let fs = repr_field_exec(m, &p.start);
            out.append(fs.as_str());
            out.append(", ");
            let ss = repr_value(m, &p.stop);
            out.append(ss.as_str());
            out.append(", ");
            let ts = repr_field_exec(m, &p.step);
            out.append(ts.as_str());
            out.append(")");
            out
        },
        Kind::Ellipsis => String::from_str("Ellipsis"),
        Kind::NotImplemented => String::from_str("NotImplemented"),
        Kind::Class(c) => {
            let mut out = String::from_str("<class '");
            let n = name_of_type(m, *c);
            out.append(n.as_str());
            out.append("'>");
            out
        },
        Kind::Module { name, .. } => {
            let mut out = String::from_str("<module '");
            out.append(name.as_str());
            out.append("'>");
            out
        },
        Kind::NativeFunction(_) => String::from_str("<built-in function>"),
        _ => {
            let mut out = String::from_str("<");
            let t = type_of(v);
            let n = name_of_type(m, t);
            out.append(n.as_str());
            out.append(" object>");
            out
        },
    }
}

/// Route a construction request through the construct slot; a type without
/// the slot is not instantiable.
pub fn construct(m: &mut Machine, t: usize, args: ArgBundle) -> (r: Result<Value, PyError>)
    requires
        old(m).wf(),
        t < old(m).types@.len(),
    ensures
        final(m).wf(),
        final(m).types == old(m).types,
        final(m).locals == old(m).locals,
        match resolve_slot_spec(*old(m), t as int, SlotKind::Construct) {
            Option::Some(NativeOp::SliceConstruct) => slice_new_post(args, r),
            Option::Some(NativeOp::EllipsisConstruct) => r matches Result::Ok(v)
                && v.kind is Ellipsis,
            Option::Some(NativeOp::InstanceConstruct) => r matches Result::Ok(v)
                && (v.kind matches Kind::Instance { class, attrs } && class == t
                && attrs@.len() == 0),
            Option::Some(_) => r matches Result::Err(e) && e.kind is TypeError,
            Option::None => r matches Result::Err(e) && e.kind is TypeError,
        },
{
    match resolve_slot(m, t, SlotKind::Construct) {
        Option::Some(NativeOp::SliceConstruct) => PySlice::tp_new(m, t, args),
        Option::Some(NativeOp::EllipsisConstruct) => Result::Ok(PyEllipsis::tp_new(t)),
        Option::Some(NativeOp::InstanceConstruct) => Result::Ok(
            m.new_value(Kind::Instance { class: t, attrs: Vec::new() }),
        ),
        _ => Result::Err(type_error("cannot create instances of this type")),
    }
}

/// What a hash request answers when the type declares hashing unsupported.
pub open spec fn unhashable_msg(m: Machine, t: int) -> Seq<char> {
    "unhashable type: '"@ + type_name_spec(m, t) + "'"@
}

/// Route a hash request through the hash slot: the declared identity hash,
/// or the unhashable-type rejection.
pub fn hash_value(m: &Machine, v: &Value) -> (r: Result<BigNum, PyError>)
    requires
        m.wf(),
        type_of_spec(*v) < m.types@.len(),
    ensures
        match resolve_slot_spec(*m, type_of_spec(*v) as int, SlotKind::Hash) {
            Option::Some(NativeOp::IdentityHash) => r matches Result::Ok(h)
                && h.value() == v.id,
            Option::Some(_) => r matches Result::Err(e) && e.kind is TypeError,
            Option::None => r matches Result::Err(e) && e.kind is TypeError
                && e.msg@ == unhashable_msg(*m, type_of_spec(*v) as int),
        },
{
    let t = type_of(v);
    match resolve_slot(m, t, SlotKind::Hash) {
        Option::Some(NativeOp::IdentityHash) => Result::Ok(big_from_u64(v.id)),
        Option::Some(_) => Result::Err(type_error("hash slot is not a hash operation")),
        Option::None => {
            let mut msg = String::from_str("unhashable type: '");
            let n = name_of_type(m, t);
            msg.append(n.as_str());
            msg.append("'");
            Result::Err(PyError { kind: ErrorKind::TypeError, msg })
        },
    }
}

/// Hashing a slice is rejected even though slice equality is defined: with
/// the slice type wired, the hash slot resolves to nothing, so a hash
/// request answers the unhashable-type error whatever the slice holds.
pub proof fn lemma_slice_unhashable(m: Machine, v: Value)
    requires
        crate::objslice::slice_wired(m),
        v.kind is Slice,
    ensures
        resolve_slot_spec(m, type_of_spec(v) as int, SlotKind::Hash) is None,
{
}

/// Exactly what the scalar comparison slot returns: equality is
/// identical-or-equal, ordering is by numeric value where both operands have
/// one and otherwise passes the decision on.
pub open spec fn scalar_cmp_post(
    a: Value,
    b: Value,
    op: PyComparisonOp,
    r: Result<ComparisonOutcome, PyError>,
) -> bool {
    match op {
        PyComparisonOp::Eq => r == Result::<ComparisonOutcome, PyError>::Ok(
            ComparisonOutcome::Implemented(vals_eq(a, b)),
        ),
        PyComparisonOp::Ne => r == Result::<ComparisonOutcome, PyError>::Ok(
            ComparisonOutcome::Implemented(!vals_eq(a, b)),
        ),
        PyComparisonOp::Lt => match (numeric_spec(a), numeric_spec(b)) {
            (Option::Some(x), Option::Some(y)) => r == Result::<ComparisonOutcome, PyError>::Ok(
                ComparisonOutcome::Implemented(x < y),
            ),
            _ => r == Result::<ComparisonOutcome, PyError>::Ok(ComparisonOutcome::NotImplemented),
        },
        PyComparisonOp::Le => match (numeric_spec(a), numeric_spec(b)) {
            (Option::Some(x), Option::Some(y)) => r == Result::<ComparisonOutcome, PyError>::Ok(
                ComparisonOutcome::Implemented(x <= y),
            ),
            _ => r == Result::<ComparisonOutcome, PyError>::Ok(ComparisonOutcome::NotImplemented),
        },
        PyComparisonOp::Gt => match (numeric_spec(a), numeric_spec(b)) {
            (Option::Some(x), Option::Some(y)) => r == Result::<ComparisonOutcome, PyError>::Ok(
                ComparisonOutcome::Implemented(x > y),
            ),
            _ => r == Result::<ComparisonOutcome, PyError>::Ok(ComparisonOutcome::NotImplemented),
        },
        PyComparisonOp::Ge => match (numeric_spec(a), numeric_spec(b)) {
            (Option::Some(x), Option::Some(y)) => r == Result::<ComparisonOutcome, PyError>::Ok(
                ComparisonOutcome::Implemented(x >= y),
            ),
            _ => r == Result::<ComparisonOutcome, PyError>::Ok(ComparisonOutcome::NotImplemented),
        },
    }
}

/// The scalar comparison slot shared by the built-in scalar types.
fn scalar_cmp(a: &Value, b: &Value, op: PyComparisonOp) -> (r: Result<ComparisonOutcome, PyError>)
    ensures
        scalar_cmp_post(*a, *b, op, r),
{
    match op {
        PyComparisonOp::Eq => Result::Ok(ComparisonOutcome::Implemented(values_equal(a, b))),
        PyComparisonOp::Ne => Result::Ok(ComparisonOutcome::Implemented(!values_equal(a, b))),
        _ => {
            let na = value_as_num(a);
            let nb = value_as_num(b);
            match (na, nb) {
                (Option::Some(x), Option::Some(y)) => {
                    let v = match op {
                        PyComparisonOp::Lt => big_lt(&x, &y),
                        PyComparisonOp::Le => !big_lt(&y, &x),
                        PyComparisonOp::Gt => big_lt(&y, &x),
                        PyComparisonOp::Ge => !big_lt(&x, &y),
                        _ => false,
                    };
                    Result::Ok(ComparisonOutcome::Implemented(v))
                },
                _ => Result::Ok(ComparisonOutcome::NotImplemented),
            }
        },
    }
}

/// What one operand's compare slot answers for a comparison request.
pub open spec fn invoke_compare_post(
    m: Machine,
    x: Value,
    y: Value,
    op: PyComparisonOp,
    r: Result<ComparisonOutcome, PyError>,
) -> bool {
    match resolve_slot_spec(m, type_of_spec(x) as int, SlotKind::Compare) {
        Option::Some(NativeOp::SliceCompare) => match x.kind {
            Kind::Slice(p) => slice_cmp_post(*p, y, op, r),
            _ => r == Result::<ComparisonOutcome, PyError>::Ok(ComparisonOutcome::NotImplemented),
        },
        Option::Some(NativeOp::ScalarCompare) => scalar_cmp_post(x, y, op, r),
        _ => r == Result::<ComparisonOutcome, PyError>::Ok(ComparisonOutcome::NotImplemented),
    }
}

/// Ask one operand's compare slot.
fn invoke_compare(m: &Machine, x: &Value, y: &Value, op: PyComparisonOp) -> (r: Result<
    ComparisonOutcome,
    PyError,
>)
    requires
        m.wf(),
        type_of_spec(*x) < m.types@.len(),
    ensures
        invoke_compare_post(*m, *x, *y, op, r),
{
    let t = type_of(x);
    match resolve_slot(m, t, SlotKind::Compare) {
        Option::Some(NativeOp::SliceCompare) => match &x.kind {
            Kind::Slice(p) => p.cmp(y, op),
            _ => Result::Ok(ComparisonOutcome::NotImplemented),
        },
        Option::Some(NativeOp::ScalarCompare) => scalar_cmp(x, y, op),
        _ => Result::Ok(ComparisonOutcome::NotImplemented),
    }
}

/// The reflected operator used when the first operand passes.
pub open spec fn swap_op_spec(op: PyComparisonOp) -> PyComparisonOp {
    match op {
        PyComparisonOp::Lt => PyComparisonOp::Gt,
        PyComparisonOp::Le => PyComparisonOp::Ge,
        PyComparisonOp::Gt => PyComparisonOp::Lt,
        PyComparisonOp::Ge => PyComparisonOp::Le,
        PyComparisonOp::Eq => PyComparisonOp::Eq,
        PyComparisonOp::Ne => PyComparisonOp::Ne,
    }
}

fn swap_op(op: PyComparisonOp) -> (r: PyComparisonOp)
    ensures
        r == swap_op_spec(op),
{
    match op {
        PyComparisonOp::Lt => PyComparisonOp::Gt,
        PyComparisonOp::Le => PyComparisonOp::Ge,
        PyComparisonOp::Gt => PyComparisonOp::Lt,
        PyComparisonOp::Ge => PyComparisonOp::Le,
        PyComparisonOp::Eq => PyComparisonOp::Eq,
        PyComparisonOp::Ne => PyComparisonOp::Ne,
    }
}

/// What the whole dispatch answers once both operands have passed: identity
/// equality for `==`/`!=`, a type error for orderings.
pub open spec fn default_cmp_post(
    a: Value,
    b: Value,
    op: PyComparisonOp,
    r: Result<Value, PyError>,
) -> bool {
    match op {
        PyComparisonOp::Eq => r matches Result::Ok(v) && v.kind == Kind::Bool(a.id == b.id),
        PyComparisonOp::Ne => r matches Result::Ok(v) && v.kind == Kind::Bool(a.id != b.id),
        _ => r matches Result::Err(e) && e.kind is TypeError,
    }
}

/// A comparison request: ask the first operand, retry with reflected
/// operands, then fall back to the declared defaults.
pub fn richcompare(m: &mut Machine, a: &Value, b: &Value, op: PyComparisonOp) -> (r: Result<
    Value,
    PyError,
>)
    requires
        old(m).wf(),
        type_of_spec(*a) < old(m).types@.len(),
        type_of_spec(*b) < old(m).types@.len(),
    ensures
        final(m).wf(),
        final(m).types == old(m).types,
        final(m).locals == old(m).locals,
        r matches Result::Ok(v) ==> v.kind is Bool,
        forall|out: ComparisonOutcome|
            (invoke_compare_post(*old(m), *a, *b, op, Result::Ok(out)) && (out matches
                ComparisonOutcome::Implemented(d) ==> (r matches Result::Ok(v) && v.kind
                == Kind::Bool(d)))) || !invoke_compare_post(*old(m), *a, *b, op, Result::Ok(out)),
        forall|e: PyError|
            invoke_compare_post(*old(m), *a, *b, op, Result::Err(e)) ==> r is Err,
        forall|out: ComparisonOutcome|
            (invoke_compare_post(
                *old(m),
                *a,
                *b,
                op,
                Result::Ok(ComparisonOutcome::NotImplemented),
            ) && invoke_compare_post(*old(m), *b, *a, swap_op_spec(op), Result::Ok(out)) && (out
                matches ComparisonOutcome::Implemented(d) ==> (r matches Result::Ok(v) && v.kind
                == Kind::Bool(d)))) || !invoke_compare_post(
                *old(m),
                *b,
                *a,
                swap_op_spec(op),
                Result::Ok(out),
            ) || !invoke_compare_post(
                *old(m),
                *a,
                *b,
                op,
                Result::Ok(ComparisonOutcome::NotImplemented),
            ),
        forall|e: PyError|
            (invoke_compare_post(
                *old(m),
                *a,
                *b,
                op,
                Result::Ok(ComparisonOutcome::NotImplemented),
            ) && invoke_compare_post(*old(m), *b, *a, swap_op_spec(op), Result::Err(e))) ==> r
                is Err,
        (invoke_compare_post(
            *old(m),
            *a,
            *b,
            op,
            Result::Ok(ComparisonOutcome::NotImplemented),
        ) && invoke_compare_post(
            *old(m),
            *b,
            *a,
            swap_op_spec(op),
            Result::Ok(ComparisonOutcome::NotImplemented),
        )) ==> default_cmp_post(*a, *b, op, r),
{
    let first = invoke_compare(m, a, b, op)?;
    match first {
        ComparisonOutcome::Implemented(v) => Result::Ok(m.new_bool(v)),
        ComparisonOutcome::NotImplemented => {
            let second = invoke_compare(m, b, a, swap_op(op))?;
            match second {
                ComparisonOutcome::Implemented(v) => Result::Ok(m.new_bool(v)),
                ComparisonOutcome::NotImplemented => match op {
                    PyComparisonOp::Eq => Result::Ok(m.new_bool(a.id == b.id)),
                    PyComparisonOp::Ne => Result::Ok(m.new_bool(a.id != b.id)),
                    _ => Result::Err(type_error(
                        "ordering not supported between the operand types",
                    )),
                },
            }
        },
    }
}

} // verus!
