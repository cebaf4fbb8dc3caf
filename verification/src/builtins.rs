//! The builtins namespace: the native operations registered at startup and
//! the decision logic of each. Operations that must run code or touch the
//! outside world hand a fully validated request back to the host.

use vstd::prelude::*;
use crate::bignum::big_from_u64;
use crate::bignum::big_is_zero;
use crate::dispatch::repr_spec;
use crate::dispatch::repr_value;
use crate::error::PyError;
use crate::error::exception;
use crate::error::type_error;
use crate::function::ArgBundle;
use crate::machine::INT_TYPE;
use crate::machine::Machine;
use crate::machine::TYPE_TYPE;
use crate::value::Kind;
use crate::value::NativeFn;
use crate::value::Value;
use crate::value::clone_entries;
use crate::value::obs_eq;

verus! {

/// Truthiness: the missing value and empty or zero scalars and containers
/// are false, everything else true.
pub open spec fn bool_spec(v: Value) -> bool {
    match v.kind {
        Kind::NoneVal => false,
        Kind::Bool(b) => b,
        Kind::Int(n) => n.value() != 0,
        Kind::Str(s) => s@.len() != 0,
        Kind::Bytes(b) => b@.len() != 0,
        Kind::List(e) => e@.len() != 0,
        Kind::Tuple(e) => e@.len() != 0,
        Kind::Dict(e) => e@.len() != 0,
        _ => true,
    }
}

/// Truthiness of a value.
pub fn boolval(v: &Value) -> (r: bool)
    ensures
        r == bool_spec(*v),
{
    match &v.kind {
        Kind::NoneVal => false,
        Kind::Bool(b) => *b,
        Kind::Int(n) => !big_is_zero(n),
        Kind::Str(s) => !s.as_str().is_empty(),
        Kind::Bytes(b) => b.len() != 0,
        Kind::List(e) => e.len() != 0,
        Kind::Tuple(e) => e.len() != 0,
        Kind::Dict(e) => e.len() != 0,
        _ => true,
    }
}

/// The plain text of a value: a string's own characters, anything else its
/// canonical repr.
pub open spec fn str_spec(m: Machine, v: Value) -> Seq<char> {
    match v.kind {
        Kind::Str(s) => s@,
        _ => repr_spec(m, v),
    }
}

/// The plain text of a value.
pub fn str_of(m: &Machine, v: &Value) -> (r: String)
    ensures
        r@ == str_spec(*m, *v),
{
    match &v.kind {
        Kind::Str(s) => s.clone(),
        _ => repr_value(m, v),
    }
}

/// A fresh dict holding a copy of the interpreter-visible locals.
pub fn get_locals(m: &mut Machine) -> (r: Value)
    ensures
        final(m).types == old(m).types,
        final(m).locals == old(m).locals,
        old(m).wf() ==> final(m).wf(),
        r.kind matches Kind::Dict(entries) && entries@.len() == old(m).locals@.len()
            && (forall|i: int|
            0 <= i < old(m).locals@.len() ==> (#[trigger] entries@[i]).0@
                == old(m).locals@[i].0@ && obs_eq(old(m).locals@[i].1, entries@[i].1)),
{
    let entries = clone_entries(&m.locals);
    m.new_dict(entries)
}

/// `dir()` without arguments: the visible locals.
pub fn dir_locals(m: &mut Machine) -> (r: Value)
    ensures
        final(m).types == old(m).types,
        final(m).locals == old(m).locals,
        old(m).wf() ==> final(m).wf(),
        r.kind matches Kind::Dict(entries) && entries@.len() == old(m).locals@.len()
            && (forall|i: int|
            0 <= i < old(m).locals@.len() ==> (#[trigger] entries@[i]).0@
                == old(m).locals@[i].0@ && obs_eq(old(m).locals@[i].1, entries@[i].1)),
{
    get_locals(m)
}

/// `dir()` on an object: attribute listing is not modelled yet, so the
/// answer is an empty dict.
pub fn dir_object(m: &mut Machine, _obj: Value) -> (r: Value)
    ensures
        final(m).types == old(m).types,
        final(m).locals == old(m).locals,
        old(m).wf() ==> final(m).wf(),
        r.kind matches Kind::Dict(entries) && entries@.len() == 0,
{
    m.new_dict(Vec::new())
}

/// The `dir` builtin: the locals without an argument, an object listing
/// with one.
pub fn builtin_dir(m: &mut Machine, args: ArgBundle) -> (r: Result<Value, PyError>)
    ensures
        final(m).types == old(m).types,
        final(m).locals == old(m).locals,
        old(m).wf() ==> final(m).wf(),
        r matches Result::Ok(v) && (v.kind matches Kind::Dict(entries) && (if args.args@.len()
            == 0 {
            entries@.len() == old(m).locals@.len() && (forall|i: int|
                0 <= i < old(m).locals@.len() ==> (#[trigger] entries@[i]).0@
                    == old(m).locals@[i].0@ && obs_eq(old(m).locals@[i].1, entries@[i].1))
        } else {
            entries@.len() == 0
        })),
{
    let mut args = args;
    if args.args.len() == 0 {
        Result::Ok(dir_locals(m))
    } else {
        let obj = args.args.remove(0);
        Result::Ok(dir_object(m, obj))
    }
}

/// The `id` builtin: the argument's stable identity as an integer.
pub fn builtin_id(m: &mut Machine, args: ArgBundle) -> (r: Result<Value, PyError>)
    ensures
        final(m).types == old(m).types,
        final(m).locals == old(m).locals,
        old(m).wf() ==> final(m).wf(),
        match r {
            Result::Ok(v) => args.args@.len() == 1 && (v.kind matches Kind::Int(n)
                && n.value() == args.args@[0].id),
            Result::Err(e) => args.args@.len() != 1 && e.kind is Exception
                && e.msg@ == "Expected only one argument"@,
        },
{
    if args.args.len() != 1 {
        return Result::Err(exception("Expected only one argument"));
    }
    let id = args.args[0].id;
    Result::Ok(m.new_int(big_from_u64(id)))
}

/// The `locals` builtin: a copy of the visible locals.
pub fn builtin_locals(m: &mut Machine, _args: ArgBundle) -> (r: Result<Value, PyError>)
    ensures
        final(m).types == old(m).types,
        final(m).locals == old(m).locals,
        old(m).wf() ==> final(m).wf(),
        r matches Result::Ok(v) && (v.kind matches Kind::Dict(entries) && entries@.len() == old(
            m,
        ).locals@.len() && (forall|i: int|
            0 <= i < old(m).locals@.len() ==> (#[trigger] entries@[i]).0@ == old(m).locals@[i].0@
                && obs_eq(old(m).locals@[i].1, entries@[i].1))),
{
    Result::Ok(get_locals(m))
}

/// The `len` builtin: the element count of a list or tuple, the character
/// count of a string; anything else has no length.
pub fn builtin_len(m: &mut Machine, args: ArgBundle) -> (r: Result<Value, PyError>)
    ensures
        final(m).types == old(m).types,
        final(m).locals == old(m).locals,
        old(m).wf() ==> final(m).wf(),
        match r {
            Result::Ok(v) => args.args@.len() == 1 && (v.kind matches Kind::Int(n)
                && match args.args@[0].kind {
                Kind::List(e) => n.value() == e@.len(),
                Kind::Tuple(e) => n.value() == e@.len(),
                Kind::Str(s) => n.value() == s@.len(),
                _ => false,
            }),
            Result::Err(e) => e.kind is TypeError && (args.args@.len() == 1 ==> match args.args@[
                0
            ].kind {
                Kind::List(els) => false,
                Kind::Tuple(els) => false,
                Kind::Str(s) => false,
                _ => e.msg@ == "object of this type has no len()"@,
            }),
        },
{
    if args.args.len() != 1 {
        return Result::Err(type_error("len() expects exactly one argument"));
    }
    let n: usize = match &args.args[0].kind {
        Kind::List(e) => e.len(),
        Kind::Tuple(e) => e.len(),
        Kind::Str(s) => s.as_str().unicode_len(),
        _ => {
            return Result::Err(type_error("object of this type has no len()"));
        },
    };
    Result::Ok(m.new_int(big_from_u64(n as u64)))
}

/// The `any` builtin: whether some argument is truthy.
pub fn builtin_any(m: &mut Machine, args: ArgBundle) -> (r: Result<Value, PyError>)
    ensures
        final(m).types == old(m).types,
        final(m).locals == old(m).locals,
        old(m).wf() ==> final(m).wf(),
        r matches Result::Ok(v) && v.kind == Kind::Bool(
            exists|i: int| 0 <= i < args.args@.len() && bool_spec(#[trigger] args.args@[i]),
        ),
{
    let mut found = false;
    let mut i: usize = 0;
    let n = args.args.len();
    while i < n
        invariant
            i <= n,
            n == args.args@.len(),
            found == exists|j: int| 0 <= j < i && bool_spec(#[trigger] args.args@[j]),
        decreases n - i,
    {
        if boolval(&args.args[i]) {
            found = true;
        }
        i = i + 1;
    }
    Result::Ok(m.new_bool(found))
}

/// The `all` builtin: whether every argument is truthy.
pub fn builtin_all(m: &mut Machine, args: ArgBundle) -> (r: Result<Value, PyError>)
    ensures
        final(m).types == old(m).types,
        final(m).locals == old(m).locals,
        old(m).wf() ==> final(m).wf(),
        r matches Result::Ok(v) && v.kind == Kind::Bool(
            forall|i: int| 0 <= i < args.args@.len() ==> bool_spec(#[trigger] args.args@[i]),
        ),
{
    let mut holds = true;
    let mut i: usize = 0;
    let n = args.args.len();
    while i < n
        invariant
            i <= n,
            n == args.args@.len(),
            holds == forall|j: int| 0 <= j < i ==> bool_spec(#[trigger] args.args@[j]),
        decreases n - i,
    {
        if !boolval(&args.args[i]) {
            holds = false;
        }
        i = i + 1;
    }
    Result::Ok(m.new_bool(holds))
}

/// The compilation modes the host compiler accepts.
#[derive(Debug)]
pub enum CompileMode {
    EvalMode,
}

/// A validated compilation request, handed to the host's compiler.
#[derive(Debug)]
pub struct CompileRequest {
    pub source: String,
    pub mode: CompileMode,
}

/// The `compile` builtin's decision part: validate arity, take the source
/// text, and hand the host a request; running the compiler is the host's.
pub fn builtin_compile(m: &Machine, args: &ArgBundle) -> (r: Result<CompileRequest, PyError>)
    ensures
        match r {
            Result::Ok(req) => args.args@.len() >= 1 && req.source@ == str_spec(
                *m,
                args.args@[0],
            ) && req.mode is EvalMode,
            Result::Err(e) => args.args@.len() == 0 && e.kind is Exception
                && e.msg@ == "Expected more arguments"@,
        },
{
    if args.args.len() < 1 {
        return Result::Err(exception("Expected more arguments"));
    }
    let source = str_of(m, &args.args[0]);
    Result::Ok(CompileRequest { source, mode: CompileMode::EvalMode })
}

/// A validated evaluation action: the code value and the scope built for it;
/// running it is the host interpreter's.
#[derive(Debug)]
pub struct EvalAction {
    pub code: Value,
    pub scope: Value,
}

/// The `eval` builtin's decision part: exactly three arguments are accepted;
/// the third becomes the locals of a fresh scope wrapped around the code.
pub fn builtin_eval(m: &mut Machine, args: ArgBundle) -> (r: Result<EvalAction, PyError>)
    ensures
        final(m).types == old(m).types,
        final(m).locals == old(m).locals,
        old(m).wf() ==> final(m).wf(),
        match r {
            Result::Ok(a) => args.args@.len() == 3 && a.code == args.args@[0]
                && (a.scope.kind matches Kind::Scope { locals, parent } && *locals
                == args.args@[2] && parent is None),
            Result::Err(e) => e.kind is Exception && (args.args@.len() > 3 ==> e.msg@
                == "Expected at maximum of 3 arguments"@) && (args.args@.len() <= 2 ==> e.msg@
                == "Expected at least one argument"@) && args.args@.len() != 3,
        },
{
    if args.args.len() > 3 {
        return Result::Err(exception("Expected at maximum of 3 arguments"));
    }
    if args.args.len() <= 2 {
        return Result::Err(exception("Expected at least one argument"));
    }
    let mut v = args.args;
    let code = v.remove(0);
    let _globals = v.remove(0);
    let locs = v.remove(0);
    let scope = m.new_value(Kind::Scope { locals: Box::new(locs), parent: Option::None });
    Result::Ok(EvalAction { code, scope })
}

/// Names and operations of the builtins module, in registration order.
pub open spec fn builtins_table(entries: Seq<(String, Value)>) -> bool {
    entries.len() == 11 && entries[0].0@ == "id"@ && entries[0].1.kind == Kind::NativeFunction(
        NativeFn::Id,
    ) && entries[1].0@ == "print"@ && entries[1].1.kind == Kind::NativeFunction(NativeFn::Print)
        && entries[2].0@ == "type"@ && entries[2].1.kind == Kind::Class(TYPE_TYPE)
        && entries[3].0@ == "int"@ && entries[3].1.kind == Kind::Class(INT_TYPE)
        && entries[4].0@ == "all"@ && entries[4].1.kind == Kind::NativeFunction(NativeFn::All)
        && entries[5].0@ == "any"@ && entries[5].1.kind == Kind::NativeFunction(NativeFn::Any)
        && entries[6].0@ == "dir"@ && entries[6].1.kind == Kind::NativeFunction(NativeFn::Dir)
        && entries[7].0@ == "locals"@ && entries[7].1.kind == Kind::NativeFunction(
        NativeFn::Locals,
    ) && entries[8].0@ == "compile"@ && entries[8].1.kind == Kind::NativeFunction(
        NativeFn::Compile,
    ) && entries[9].0@ == "eval"@ && entries[9].1.kind == Kind::NativeFunction(NativeFn::Eval)
        && entries[10].0@ == "len"@ && entries[10].1.kind == Kind::NativeFunction(NativeFn::Len)
}

/// Build the builtins module: the native operations, and the `type` and
/// `int` type handles, under their public names.
pub fn make_module(m: &mut Machine) -> (r: Value)
    ensures
        final(m).types == old(m).types,
        final(m).locals == old(m).locals,
        old(m).wf() ==> final(m).wf(),
        r.kind matches Kind::Module { name, dict } && name@ == "__builtins__"@
            && (dict.kind matches Kind::Dict(entries) && builtins_table(entries@)),
{
    let mut entries: Vec<(String, Value)> = Vec::new();
    let f_id = m.new_rustfunc(NativeFn::Id);
    entries.push((String::from_str("id"), f_id));
    let f_print = m.new_rustfunc(NativeFn::Print);
    entries.push((String::from_str("print"), f_print));
    let c_type = m.new_value(Kind::Class(TYPE_TYPE));
    entries.push((String::from_str("type"), c_type));
    let c_int = m.new_value(Kind::Class(INT_TYPE));
    entries.push((String::from_str("int"), c_int));
    let f_all = m.new_rustfunc(NativeFn::All);
    entries.push((String::from_str("all"), f_all));
    let f_any = m.new_rustfunc(NativeFn::Any);
    entries.push((String::from_str("any"), f_any));
    let f_dir = m.new_rustfunc(NativeFn::Dir);
    entries.push((String::from_str("dir"), f_dir));
    let f_locals = m.new_rustfunc(NativeFn::Locals);
    entries.push((String::from_str("locals"), f_locals));
    let f_compile = m.new_rustfunc(NativeFn::Compile);
    entries.push((String::from_str("compile"), f_compile));
    let f_eval = m.new_rustfunc(NativeFn::Eval);
    entries.push((String::from_str("eval"), f_eval));
    let f_len = m.new_rustfunc(NativeFn::Len);
    entries.push((String::from_str("len"), f_len));
    let dict = m.new_dict(entries);
    m.new_value(Kind::Module { name: String::from_str("__builtins__"), dict: Box::new(dict) })
}

} // verus!
