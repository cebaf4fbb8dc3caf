//! The argument binder: a raw call payload and its translation into a
//! statically shaped parameter list.

use vstd::prelude::*;
use crate::error::PyError;
use crate::error::type_error;
use crate::value::Value;

verus! {

/// A call payload: ordered positional values plus keyword bindings,
/// immutable once built.
pub struct ArgBundle {
    pub args: Vec<Value>,
    pub kwargs: Vec<(String, Value)>,
}

/// Bind a positional-only payload against an arity window: each declared
/// position gets the caller's value or, past the caller's count, the
/// explicit missing marker. Arity violations surface as type errors.
pub fn bind_positional(b: ArgBundle, min: usize, max: usize) -> (r: Result<
    Vec<Option<Value>>,
    PyError,
>)
    requires
        min <= max,
    ensures
        match r {
            Result::Ok(bound) => b.kwargs@.len() == 0 && min <= b.args@.len() <= max
                && bound@.len() == max && (forall|i: int|
                0 <= i < b.args@.len() ==> bound@[i] == Option::Some(b.args@[i])) && (forall|
                i: int,
            |
                b.args@.len() <= i < max ==> bound@[i] is None),
            Result::Err(e) => (b.kwargs@.len() > 0 || b.args@.len() < min || b.args@.len() > max)
                && e.kind is TypeError,
        },
{
    if b.kwargs.len() > 0 {
        return Result::Err(type_error("keyword arguments are not accepted here"));
    }
    let mut args = b.args;
    let ghost orig = args@;
    let n = args.len();
    if n < min {
        return Result::Err(type_error("not enough positional arguments"));
    }
    if n > max {
        return Result::Err(type_error("too many positional arguments"));
    }
    let mut bound: Vec<Option<Value>> = Vec::new();
    let mut i: usize = 0;
    while i < n
        invariant
            i <= n,
            n == orig.len(),
            args@ == orig.skip(i as int),
            bound@.len() == i,
            forall|j: int| 0 <= j < i ==> bound@[j] == Option::Some(orig[j]),
        decreases n - i,
    {
        let v = args.remove(0);
        proof {
            assert(orig.skip(i as int).remove(0) =~= orig.skip(i as int + 1));
        }
        bound.push(Option::Some(v));
        i = i + 1;
    }
    while bound.len() < max
        invariant
            n <= bound@.len() <= max,
            forall|j: int| 0 <= j < n ==> bound@[j] == Option::Some(orig[j]),
            forall|j: int| n <= j < bound@.len() ==> bound@[j] is None,
        decreases max - bound.len(),
    {
        bound.push(Option::None);
    }
    Result::Ok(bound)
}

} // verus!
