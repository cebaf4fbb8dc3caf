//! The uniform runtime value representation.
//!
//! A `Value` is a tagged variant plus a stable identity. Identity stands for
//! shared-cell reference identity: clones of one runtime object keep its id,
//! distinct allocations get distinct ids from the machine.

use vstd::prelude::*;
use crate::bignum::BigNum;
use crate::bignum::big_eq;
use crate::bignum::big_from_i64;
use crate::objslice::PySlice;

verus! {

broadcast use vstd::std_specs::vec::axiom_vec_index_decreases;

/// Identity of the `None` singleton.
pub const NONE_ID: u64 = 0;

/// Identity of the `NotImplemented` singleton.
pub const NOT_IMPLEMENTED_ID: u64 = 1;

/// Identity of the `Ellipsis` singleton.
pub const ELLIPSIS_ID: u64 = 2;

/// First identity handed out for ordinary allocations.
pub const FIRST_DYNAMIC_ID: u64 = 3;

/// The native operations that can sit in a builtins or module table. The
/// machine only stores the tag; a host driver maps each tag to the operation
/// it names, so operations that need the outside world stay outside the core.
#[derive(Clone, Copy, Debug, PartialEq, Eq, Structural)]
pub enum NativeFn {
    Id,
    Print,
    Dir,
    Locals,
    Compile,
    Eval,
    Len,
    Any,
    All,
    Open,
    StringIoInit,
    StringIoGetValue,
    BytesIoInit,
    BytesIoGetValue,
    BufferedIoBaseInit,
    FileIoInit,
    FileIoRead,
    FileIoReadInto,
    BufferedReaderRead,
}

/// The closed set of concrete representations.
#[derive(Debug)]
pub enum Kind {
    NoneVal,
    Bool(bool),
    Int(BigNum),
    Str(String),
    Bytes(Vec<u8>),
    List(Vec<Value>),
    Tuple(Vec<Value>),
    Dict(Vec<(String, Value)>),
    Slice(Box<PySlice>),
    NativeFunction(NativeFn),
    Class(usize),
    Instance { class: usize, attrs: Vec<(String, Value)> },
    Scope { locals: Box<Value>, parent: Option<Box<Value>> },
    Module { name: String, dict: Box<Value> },
    Ellipsis,
    NotImplemented,
}

/// A runtime value: a stable identity plus its representation.
#[derive(Debug)]
pub struct Value {
    pub id: u64,
    pub kind: Kind,
}

/// The `None` singleton.
pub fn none_value() -> (r: Value)
    ensures
        r.id == NONE_ID,
        r.kind is NoneVal,
{
    Value { id: NONE_ID, kind: Kind::NoneVal }
}

/// The `NotImplemented` singleton.
pub fn not_implemented_value() -> (r: Value)
    ensures
        r.id == NOT_IMPLEMENTED_ID,
        r.kind is NotImplemented,
{
    Value { id: NOT_IMPLEMENTED_ID, kind: Kind::NotImplemented }
}

/// The `Ellipsis` singleton.
pub fn ellipsis_value() -> (r: Value)
    ensures
        r.id == ELLIPSIS_ID,
        r.kind is Ellipsis,
{
    Value { id: ELLIPSIS_ID, kind: Kind::Ellipsis }
}

/// The integer a value denotes under the integer-index capability, if it has
/// that capability: integers denote themselves, booleans 0 or 1.
pub open spec fn numeric_spec(v: Value) -> Option<int> {
    match v.kind {
        Kind::Int(n) => Some(n.value()),
        Kind::Bool(x) => Some(if x { 1int } else { 0int }),
        _ => None,
    }
}

/// Whether a value is the language's missing value.
pub open spec fn is_missing(v: Value) -> bool {
    v.kind is NoneVal
}

/// Observational equality: same identity, same tag, and the same observable
/// content. Clones of a value are observationally equal to it.
pub open spec fn obs_eq(a: Value, b: Value) -> bool
    decreases a,
{
    a.id == b.id && match a.kind {
        Kind::NoneVal => b.kind is NoneVal,
        Kind::Bool(x) => b.kind matches Kind::Bool(y) && x == y,
        Kind::Int(n) => b.kind matches Kind::Int(m)
            && n.negative == m.negative && n.digits@ == m.digits@,
        Kind::Str(s) => b.kind matches Kind::Str(t) && s@ == t@,
        Kind::Bytes(s) => b.kind matches Kind::Bytes(t) && s@ == t@,
        Kind::List(x) => b.kind matches Kind::List(y) && x@.len() == y@.len()
            && (forall|i: int| 0 <= i < x@.len() ==> obs_eq(#[trigger] x@[i], y@[i])),
        Kind::Tuple(x) => b.kind matches Kind::Tuple(y) && x@.len() == y@.len()
            && (forall|i: int| 0 <= i < x@.len() ==> obs_eq(#[trigger] x@[i], y@[i])),
        Kind::Dict(x) => b.kind matches Kind::Dict(y) && x@.len() == y@.len()
            && (forall|i: int| 0 <= i < x@.len()
                ==> (#[trigger] x@[i]).0@ == y@[i].0@ && obs_eq(x@[i].1, y@[i].1)),
        Kind::Slice(p) => b.kind matches Kind::Slice(q)
            && opt_obs_eq(p.start, q.start)
            && obs_eq(p.stop, q.stop)
            && opt_obs_eq(p.step, q.step),
        Kind::NativeFunction(f) => b.kind matches Kind::NativeFunction(g) && f == g,
        Kind::Class(c) => b.kind matches Kind::Class(d) && c == d,
        Kind::Instance { class: c, attrs: x } => b.kind matches Kind::Instance {
            class: d, attrs: y }
            && c == d && x@.len() == y@.len()
            && (forall|i: int| 0 <= i < x@.len()
                ==> (#[trigger] x@[i]).0@ == y@[i].0@ && obs_eq(x@[i].1, y@[i].1)),
        Kind::Scope { locals: l, parent: p } => b.kind matches Kind::Scope {
            locals: l2, parent: p2 }
            && obs_eq(*l, *l2) && opt_box_obs_eq(p, p2),
        Kind::Module { name: n, dict: d } => b.kind matches Kind::Module {
            name: n2, dict: d2 }
            && n@ == n2@ && obs_eq(*d, *d2),
        Kind::Ellipsis => b.kind is Ellipsis,
        Kind::NotImplemented => b.kind is NotImplemented,
    }
}

/// Observational equality of optional values.
pub open spec fn opt_obs_eq(x: Option<Value>, y: Option<Value>) -> bool
    decreases x,
{
    match x {
        Option::None => y is None,
        Option::Some(v) => y matches Option::Some(w) && obs_eq(v, w),
    }
}

/// Observational equality of optional boxed values.
pub open spec fn opt_box_obs_eq(x: Option<Box<Value>>, y: Option<Box<Value>>) -> bool
    decreases x,
{
    match x {
        Option::None => y is None,
        Option::Some(v) => y matches Option::Some(w) && obs_eq(*v, *w),
    }
}

/// Language-level "identical or equal": reference identity short-circuits,
/// else the value equality each built-in type declares. Types that declare
/// no equality fall back to the default, which is identity alone.
pub open spec fn vals_eq(a: Value, b: Value) -> bool
    decreases a,
{
    a.id == b.id || match a.kind {
        Kind::NoneVal => b.kind is NoneVal,
        Kind::Bool(x) => match b.kind {
            Kind::Bool(y) => x == y,
            Kind::Int(m) => (if x { 1int } else { 0int }) == m.value(),
            _ => false,
        },
        Kind::Int(n) => match b.kind {
            Kind::Bool(y) => n.value() == (if y { 1int } else { 0int }),
            Kind::Int(m) => n.value() == m.value(),
            _ => false,
        },
        Kind::Str(s) => b.kind matches Kind::Str(t) && s@ == t@,
        Kind::Bytes(s) => b.kind matches Kind::Bytes(t) && s@ == t@,
        Kind::Slice(p) => b.kind matches Kind::Slice(q)
            && sfield_eq(p.start, q.start)
            && vals_eq(p.stop, q.stop)
            && sfield_eq(p.step, q.step),
        Kind::Class(c) => b.kind matches Kind::Class(d) && c == d,
        Kind::Ellipsis => b.kind is Ellipsis,
        Kind::NotImplemented => b.kind is NotImplemented,
        _ => false,
    }
}

/// Equality of slice fields as read through the accessors: an absent field
/// reads as the missing value, so absent and stored-`None` coincide.
pub open spec fn sfield_eq(x: Option<Value>, y: Option<Value>) -> bool
    decreases x,
{
    match x {
        Option::None => match y {
            Option::None => true,
            Option::Some(w) => w.id == NONE_ID || w.kind is NoneVal,
        },
        Option::Some(v) => match y {
            Option::None => v.id == NONE_ID || v.kind is NoneVal,
            Option::Some(w) => vals_eq(v, w),
        },
    }
}

/// Identical-or-equal is reflexive: every value equals itself, by identity
/// alone.
pub proof fn lemma_vals_eq_reflexive(a: Value)
    ensures
        vals_eq(a, a),
{
}

/// Identical-or-equal is symmetric.
pub proof fn lemma_vals_eq_symmetric(a: Value, b: Value)
    ensures
        vals_eq(a, b) == vals_eq(b, a),
    decreases a,
{
    match a.kind {
        Kind::Slice(p) => match b.kind {
            Kind::Slice(q) => {
                lemma_sfield_eq_symmetric(p.start, q.start);
                lemma_vals_eq_symmetric(p.stop, q.stop);
                lemma_sfield_eq_symmetric(p.step, q.step);
            },
            _ => {},
        },
        _ => {},
    }
}

/// Slice-field identical-or-equal is symmetric.
pub proof fn lemma_sfield_eq_symmetric(x: Option<Value>, y: Option<Value>)
    ensures
        sfield_eq(x, y) == sfield_eq(y, x),
    decreases x,
{
    match x {
        Option::Some(v) => match y {
            Option::Some(w) => lemma_vals_eq_symmetric(v, w),
            Option::None => {},
        },
        Option::None => {},
    }
}

/// Whether a value is the missing value.
pub fn is_none_value(v: &Value) -> (r: bool)
    ensures
        r == is_missing(*v),
{
    match &v.kind {
        Kind::NoneVal => true,
        _ => false,
    }
}

/// Byte-string equality.
fn bytes_equal(x: &Vec<u8>, y: &Vec<u8>) -> (r: bool)
    ensures
        r == (x@ == y@),
{
    if x.len() != y.len() {
        return false;
    }
    let mut i: usize = 0;
    while i < x.len()
        invariant
            i <= x.len(),
            x.len() == y.len(),
            forall|j: int| 0 <= j < i ==> x@[j] == y@[j],
        decreases x.len() - i,
    {
        if x[i] != y[i] {
            return false;
        }
        i = i + 1;
    }
    proof {
        assert(x@ =~= y@);
    }
    true
}

/// Identical-or-equal of two values: identity first, else the value equality
/// the kinds declare; kinds without declared equality compare by identity.
pub fn values_equal(a: &Value, b: &Value) -> (r: bool)
    ensures
        r == vals_eq(*a, *b),
    decreases *a,
{
    if a.id == b.id {
        return true;
    }
    match &a.kind {
        Kind::NoneVal => is_none_value(b),
        Kind::Bool(x) => match &b.kind {
            Kind::Bool(y) => *x == *y,
            Kind::Int(m) => big_eq(&big_from_i64(if *x { 1 } else { 0 }), m),
            _ => false,
        },
        Kind::Int(n) => match &b.kind {
            Kind::Bool(y) => big_eq(n, &big_from_i64(if *y { 1 } else { 0 })),
            Kind::Int(m) => big_eq(n, m),
            _ => false,
        },
        Kind::Str(s) => match &b.kind {
            Kind::Str(t) => s.eq(t),
            _ => false,
        },
        Kind::Bytes(s) => match &b.kind {
            Kind::Bytes(t) => bytes_equal(s, t),
            _ => false,
        },
        Kind::Slice(p) => match &b.kind {
            Kind::Slice(q) => slice_fields_equal(&p.start, &q.start)
                && values_equal(&p.stop, &q.stop)
                && slice_fields_equal(&p.step, &q.step),
            _ => false,
        },
        Kind::Class(c) => match &b.kind {
            Kind::Class(d) => *c == *d,
            _ => false,
        },
        Kind::Ellipsis => match &b.kind {
            Kind::Ellipsis => true,
            _ => false,
        },
        Kind::NotImplemented => match &b.kind {
            Kind::NotImplemented => true,
            _ => false,
        },
        _ => false,
    }
}

/// Identical-or-equal of two slice fields read through the accessors.
pub fn slice_fields_equal(x: &Option<Value>, y: &Option<Value>) -> (r: bool)
    ensures
        r == sfield_eq(*x, *y),
    decreases *x,
{
    match x {
        Option::None => match y {
            Option::None => true,
            Option::Some(w) => w.id == NONE_ID || is_none_value(w),
        },
        Option::Some(v) => match y {
            Option::None => v.id == NONE_ID || is_none_value(v),
            Option::Some(w) => values_equal(v, w),
        },
    }
}

/// An observationally equal copy of a value.
pub fn clone_value(v: &Value) -> (r: Value)
    ensures
        obs_eq(*v, r),
    decreases *v,
{
    let kind = match &v.kind {
        Kind::NoneVal => Kind::NoneVal,
        Kind::Bool(x) => Kind::Bool(*x),
        Kind::Int(n) => Kind::Int(n.clone_num()),
        Kind::Str(s) => Kind::Str(s.clone()),
        Kind::Bytes(s) => Kind::Bytes(clone_bytes(s)),
        Kind::List(els) => Kind::List(clone_values(els)),
        Kind::Tuple(els) => Kind::Tuple(clone_values(els)),
        Kind::Dict(entries) => Kind::Dict(clone_entries(entries)),
        Kind::Slice(p) => Kind::Slice(Box::new(PySlice {
            start: clone_opt_value(&p.start),
            stop: clone_value(&p.stop),
            step: clone_opt_value(&p.step),
        })),
        Kind::NativeFunction(f) => Kind::NativeFunction(*f),
        Kind::Class(c) => Kind::Class(*c),
        Kind::Instance { class, attrs } => Kind::Instance {
            class: *class,
            attrs: clone_entries(attrs),
        },
        Kind::Scope { locals, parent } => Kind::Scope {
            locals: Box::new(clone_value(locals)),
            parent: clone_opt_box(parent),
        },
        Kind::Module { name, dict } => Kind::Module {
            name: name.clone(),
            dict: Box::new(clone_value(dict)),
        },
        Kind::Ellipsis => Kind::Ellipsis,
        Kind::NotImplemented => Kind::NotImplemented,
    };
    Value { id: v.id, kind }
}

/// An observationally equal copy of an optional value.
pub fn clone_opt_value(x: &Option<Value>) -> (r: Option<Value>)
    ensures
        opt_obs_eq(*x, r),
    decreases *x,
{
    match x {
        Option::None => Option::None,
        Option::Some(v) => Option::Some(clone_value(v)),
    }
}

/// An observationally equal copy of an optional boxed value.
fn clone_opt_box(x: &Option<Box<Value>>) -> (r: Option<Box<Value>>)
    ensures
        opt_box_obs_eq(*x, r),
    decreases *x,
{
    match x {
        Option::None => Option::None,
        Option::Some(p) => {
            let c = clone_value(p);
            Option::Some(Box::new(c))
        },
    }
}

/// A copy of a byte string.
fn clone_bytes(x: &Vec<u8>) -> (r: Vec<u8>)
    ensures
        r@ == x@,
{
    let mut out: Vec<u8> = Vec::new();
    let mut i: usize = 0;
    while i < x.len()
        invariant
            i <= x.len(),
            out@ == x@.take(i as int),
        decreases x.len() - i,
    {
        out.push(x[i]);
        i = i + 1;
    }
    proof {
        assert(x@.take(x@.len() as int) =~= x@);
    }
    out
}

/// Observationally equal copies of a vector of values.
pub fn clone_values(x: &Vec<Value>) -> (r: Vec<Value>)
    ensures
        r@.len() == x@.len(),
        forall|i: int| 0 <= i < x@.len() ==> obs_eq(#[trigger] x@[i], r@[i]),
    decreases *x,
{
    let mut out: Vec<Value> = Vec::new();
    let mut i: usize = 0;
    while i < x.len()
        invariant
            i <= x.len(),
            out@.len() == i,
            forall|j: int| 0 <= j < i ==> obs_eq(#[trigger] x@[j], out@[j]),
        decreases x.len() - i,
    {
        out.push(clone_value(&x[i]));
        i = i + 1;
    }
    out
}

/// Observationally equal copies of a name-to-value table.
pub fn clone_entries(x: &Vec<(String, Value)>) -> (r: Vec<(String, Value)>)
    ensures
        r@.len() == x@.len(),
        forall|i: int| 0 <= i < x@.len()
            ==> (#[trigger] x@[i]).0@ == r@[i].0@ && obs_eq(x@[i].1, r@[i].1),
    decreases *x,
{
    let mut out: Vec<(String, Value)> = Vec::new();
    let mut i: usize = 0;
    while i < x.len()
        invariant
            i <= x.len(),
            out@.len() == i,
            forall|j: int| 0 <= j < i
                ==> (#[trigger] x@[j]).0@ == out@[j].0@ && obs_eq(x@[j].1, out@[j].1),
        decreases x.len() - i,
    {
        let entry = &x[i];
        out.push((entry.0.clone(), clone_value(&entry.1)));
        i = i + 1;
    }
    out
}

} // verus!
