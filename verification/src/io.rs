//! The stream facility's class hierarchy: constructible stubs registered as
//! ordinary types through the same construct and attribute slots. Reading
//! and writing real files is the host's work.

use vstd::prelude::*;
use crate::bignum::big_from_i64;
use crate::error::PyError;
use crate::error::type_error;
use crate::machine::Machine;
use crate::machine::OBJECT_TYPE;
use crate::machine::table_get;
use crate::value::Kind;
use crate::value::NativeFn;
use crate::value::Value;
use crate::value::none_value;

verus! {

/// In-memory text buffer construction stub.
pub fn string_io_init(_m: &Machine, _args: &crate::function::ArgBundle) -> (r: Result<
    Value,
    PyError,
>)
    ensures
        r matches Result::Ok(v) && v.kind is NoneVal,
{
    Result::Ok(none_value())
}

/// In-memory text buffer read-back stub.
pub fn string_io_getvalue(_m: &Machine, _args: &crate::function::ArgBundle) -> (r: Result<
    Value,
    PyError,
>)
    ensures
        r matches Result::Ok(v) && v.kind is NoneVal,
{
    Result::Ok(none_value())
}

/// In-memory byte buffer construction stub.
pub fn bytes_io_init(_m: &Machine, _args: &crate::function::ArgBundle) -> (r: Result<
    Value,
    PyError,
>)
    ensures
        r matches Result::Ok(v) && v.kind is NoneVal,
{
    Result::Ok(none_value())
}

/// In-memory byte buffer read-back stub.
pub fn bytes_io_getvalue(_m: &Machine, _args: &crate::function::ArgBundle) -> (r: Result<
    Value,
    PyError,
>)
    ensures
        r matches Result::Ok(v) && v.kind is NoneVal,
{
    Result::Ok(none_value())
}

/// Buffered base construction stub.
pub fn buffered_io_base_init(_m: &Machine, _args: &crate::function::ArgBundle) -> (r: Result<
    Value,
    PyError,
>)
    ensures
        r matches Result::Ok(v) && v.kind is NoneVal,
{
    Result::Ok(none_value())
}

/// Buffered reader stub: delegation to the raw class is the host's work.
pub fn buffered_reader_read(_m: &Machine, _args: &crate::function::ArgBundle) -> (r: Result<
    Value,
    PyError,
>)
    ensures
        r matches Result::Ok(v) && v.kind is NoneVal,
{
    Result::Ok(none_value())
}

/// `open`: validates its two arguments; the construction chain over the
/// buffered classes is the host's work.
pub fn io_open(_m: &Machine, args: &crate::function::ArgBundle) -> (r: Result<Value, PyError>)
    ensures
        match r {
            Result::Ok(v) => args.args@.len() == 2 && v.kind is NoneVal,
            Result::Err(e) => args.args@.len() != 2 && e.kind is TypeError,
        },
{
    if args.args.len() != 2 {
        return Result::Err(type_error("open() expects a file and a mode"));
    }
    Result::Ok(none_value())
}

/// File object initialization: the file name and a zeroed read offset are
/// written as attributes; the name must be a string.
pub fn file_io_init(m: &mut Machine, file_io: &mut Value, name: Value) -> (r: Result<
    Value,
    PyError,
>)
    ensures
        final(m).locals == old(m).locals,
        old(m).wf() ==> final(m).wf(),
        !(name.kind is Str) ==> r is Err,
        r matches Result::Ok(v) ==> v.kind is NoneVal,
        r is Err ==> *final(file_io) == *old(file_io) && final(m).types == old(m).types,
        (old(file_io).kind is Instance && name.kind is Str) ==> (r is Ok
            && (old(file_io).kind matches Kind::Instance { class: c0, attrs: a0 }
            && final(file_io).kind matches Kind::Instance { class, attrs }
            && class == c0
            && (table_get(attrs@, "name"@) matches Option::Some(w) && w == name)
            && (table_get(attrs@, "__offset__"@) matches Option::Some(o) && (o.kind matches
            Kind::Int(n) && n.value() == 0))
            && (forall|k2: Seq<char>|
                k2 != "name"@ && k2 != "__offset__"@ ==> table_get(attrs@, k2) == table_get(
                    a0@,
                    k2,
                )))),
{
    match &name.kind {
        Kind::Str(_) => {},
        _ => {
            return Result::Err(type_error("file name must be a string"));
        },
    }
    let r1 = m.set_attr(file_io, "name", name);
    match r1 {
        Result::Ok(()) => {},
        Result::Err(e) => {
            return Result::Err(e);
        },
    }
    let zero = m.new_int(big_from_i64(0));
    let r2 = m.set_attr(file_io, "__offset__", zero);
    match r2 {
        Result::Ok(()) => {},
        Result::Err(e) => {
            return Result::Err(e);
        },
    }
    proof {
        reveal_strlit("name");
        reveal_strlit("__offset__");
        assert("name"@.len() == 4);
        assert("__offset__"@.len() == 10);
        assert("name"@ != "__offset__"@);
    }
    Result::Ok(none_value())
}

/// The bytes past the first `k`: what a read leaves after the stored
/// offset is skipped.
pub fn bytes_tail(b: &Vec<u8>, k: usize) -> (r: Vec<u8>)
    ensures
        k <= b@.len() ==> r@ == b@.skip(k as int),
        k > b@.len() ==> r@.len() == 0,
{
    let mut out: Vec<u8> = Vec::new();
    if k >= b.len() {
        return out;
    }
    let mut i: usize = k;
    while i < b.len()
        invariant
            k <= i <= b@.len(),
            out@ == b@.subrange(k as int, i as int),
        decreases b@.len() - i,
    {
        out.push(b[i]);
        i = i + 1;
    }
    proof {
        assert(b@.subrange(k as int, b@.len() as int) =~= b@.skip(k as int));
    }
    out
}

/// Names of the io module's table, in registration order.
pub open spec fn io_table(entries: Seq<(String, Value)>) -> bool {
    entries.len() == 11 && entries[0].0@ == "open"@ && entries[0].1.kind
        == Kind::NativeFunction(NativeFn::Open) && entries[1].0@ == "IOBase"@
        && entries[1].1.kind is Class && entries[2].0@ == "RawIOBase"@
        && entries[2].1.kind is Class && entries[3].0@ == "BufferedIOBase"@
        && entries[3].1.kind is Class && entries[4].0@ == "TextIOBase"@
        && entries[4].1.kind is Class && entries[5].0@ == "FileIO"@
        && entries[5].1.kind is Class && entries[6].0@ == "BufferedReader"@
        && entries[6].1.kind is Class && entries[7].0@ == "BufferedWriter"@
        && entries[7].1.kind is Class && entries[8].0@ == "TextIOWrapper"@
        && entries[8].1.kind is Class && entries[9].0@ == "StringIO"@
        && entries[9].1.kind is Class && entries[10].0@ == "BytesIO"@
        && entries[10].1.kind is Class
}

/// One io-module entry names a registered class: the handle in the table
/// points at a descriptor carrying the given name and parent, with the
/// ordinary class slots.
pub open spec fn io_class(
    m1: Machine,
    entries: Seq<(String, Value)>,
    e: int,
    t: int,
    name: Seq<char>,
    parent: int,
) -> bool {
    0 <= e < entries.len() && 0 <= t < m1.types@.len()
        && (entries[e].1.kind matches Kind::Class(c) && c as int == t)
        && m1.types@[t].name@ == name
        && (m1.types@[t].parent matches Option::Some(p) && p as int == parent)
        && m1.types@[t].slots == crate::machine::class_slots()
}

/// A registered class carries an attribute of the given representation.
pub open spec fn class_attr(m1: Machine, t: int, k: Seq<char>, kind: Kind) -> bool {
    0 <= t < m1.types@.len() && (table_get(m1.types@[t].attrs@, k) matches Option::Some(v)
        && v.kind == kind)
}

/// What building the io module registers: ten classes appended to the
/// registry in order, the original hierarchy (the buffered, text and
/// in-memory classes under IOBase, the file class under RawIOBase, the
/// reader and writer under BufferedIOBase), and the operation attributes of
/// the file and buffer classes, including the file class's `name` slot
/// holding the string type handle.
pub open spec fn io_wired(m0: Machine, m1: Machine, entries: Seq<(String, Value)>) -> bool {
    let base = m0.types@.len() as int;
    m1.types@.len() == base + 10
        && io_class(m1, entries, 1, base, "IOBase"@, OBJECT_TYPE as int)
        && io_class(m1, entries, 2, base + 1, "RawIOBase"@, OBJECT_TYPE as int)
        && io_class(m1, entries, 3, base + 2, "BufferedIOBase"@, base)
        && io_class(m1, entries, 4, base + 3, "TextIOBase"@, base)
        && io_class(m1, entries, 5, base + 4, "FileIO"@, base + 1)
        && io_class(m1, entries, 6, base + 5, "BufferedReader"@, base + 2)
        && io_class(m1, entries, 7, base + 6, "BufferedWriter"@, base + 2)
        && io_class(m1, entries, 8, base + 7, "TextIOWrapper"@, OBJECT_TYPE as int)
        && io_class(m1, entries, 9, base + 8, "StringIO"@, base)
        && io_class(m1, entries, 10, base + 9, "BytesIO"@, base)
        && class_attr(m1, base + 2, "__init__"@, Kind::NativeFunction(NativeFn::BufferedIoBaseInit))
        && class_attr(m1, base + 4, "__init__"@, Kind::NativeFunction(NativeFn::FileIoInit))
        && class_attr(m1, base + 4, "name"@, Kind::Class(crate::machine::STR_TYPE))
        && class_attr(m1, base + 4, "read"@, Kind::NativeFunction(NativeFn::FileIoRead))
        && class_attr(m1, base + 4, "readinto"@, Kind::NativeFunction(NativeFn::FileIoReadInto))
        && class_attr(m1, base + 8, "__init__"@, Kind::NativeFunction(NativeFn::StringIoInit))
        && class_attr(m1, base + 8, "getvalue"@, Kind::NativeFunction(NativeFn::StringIoGetValue))
        && class_attr(m1, base + 9, "__init__"@, Kind::NativeFunction(NativeFn::BytesIoInit))
        && class_attr(m1, base + 9, "getvalue"@, Kind::NativeFunction(NativeFn::BytesIoGetValue))
}

/// Build the io module: the abstract bases, the file and buffered classes
/// with their operation attributes, and the in-memory buffers, each
/// registered as an ordinary constructible type under its declared parent.
#[verifier::rlimit(50)]
pub fn mk_module(m: &mut Machine) -> (r: Value)
    requires
        old(m).wf(),
    ensures
        final(m).wf(),
        final(m).locals == old(m).locals,
        r.kind matches Kind::Module { name, dict } && name@ == "io"@
            && (dict.kind matches Kind::Dict(entries) && io_table(entries@)
            && io_wired(*old(m), *final(m), entries@)),
{
    let mut entries: Vec<(String, Value)> = Vec::new();
    let f_open = m.new_rustfunc(NativeFn::Open);
    entries.push((String::from_str("open"), f_open));

    let io_base_t = m.types.len();
    let io_base = m.new_class("IOBase", OBJECT_TYPE);
    entries.push((String::from_str("IOBase"), io_base));

    let raw_t = m.types.len();
    let raw_io_base = m.new_class("RawIOBase", OBJECT_TYPE);
    entries.push((String::from_str("RawIOBase"), raw_io_base));

    let buf_t = m.types.len();
    let mut buffered_io_base = m.new_class("BufferedIOBase", io_base_t);
    let f = m.new_rustfunc(NativeFn::BufferedIoBaseInit);
    set_class_attr(m, &mut buffered_io_base, "__init__", f);
    entries.push((String::from_str("BufferedIOBase"), buffered_io_base));

    let text_io_base = m.new_class("TextIOBase", io_base_t);
    entries.push((String::from_str("TextIOBase"), text_io_base));

    let mut file_io = m.new_class("FileIO", raw_t);
    let f = m.new_rustfunc(NativeFn::FileIoInit);
    set_class_attr(m, &mut file_io, "__init__", f);
    let str_handle = m.new_value(Kind::Class(crate::machine::STR_TYPE));
    set_class_attr(m, &mut file_io, "name", str_handle);
    let f = m.new_rustfunc(NativeFn::FileIoRead);
    set_class_attr(m, &mut file_io, "read", f);
    let f = m.new_rustfunc(NativeFn::FileIoReadInto);
    set_class_attr(m, &mut file_io, "readinto", f);
    entries.push((String::from_str("FileIO"), file_io));

    let buffered_reader = m.new_class("BufferedReader", buf_t);
    entries.push((String::from_str("BufferedReader"), buffered_reader));

    let buffered_writer = m.new_class("BufferedWriter", buf_t);
    entries.push((String::from_str("BufferedWriter"), buffered_writer));

    let text_io_wrapper = m.new_class("TextIOWrapper", OBJECT_TYPE);
    entries.push((String::from_str("TextIOWrapper"), text_io_wrapper));

    let mut string_io = m.new_class("StringIO", io_base_t);
    let f = m.new_rustfunc(NativeFn::StringIoInit);
    set_class_attr(m, &mut string_io, "__init__", f);
    let f = m.new_rustfunc(NativeFn::StringIoGetValue);
    set_class_attr(m, &mut string_io, "getvalue", f);
    entries.push((String::from_str("StringIO"), string_io));

    let mut bytes_io = m.new_class("BytesIO", io_base_t);
    let f = m.new_rustfunc(NativeFn::BytesIoInit);
    set_class_attr(m, &mut bytes_io, "__init__", f);
    let f = m.new_rustfunc(NativeFn::BytesIoGetValue);
    set_class_attr(m, &mut bytes_io, "getvalue", f);
    entries.push((String::from_str("BytesIO"), bytes_io));

    let n_end = m.types.len();
    proof {
        assert(n_end == m.types@.len());
        reveal_strlit("__init__");
        reveal_strlit("name");
        reveal_strlit("read");
        reveal_strlit("readinto");
        reveal_strlit("getvalue");
        assert("__init__"@.len() == 8);
        assert("name"@.len() == 4);
        assert("read"@.len() == 4);
        assert("readinto"@.len() == 8);
        assert("getvalue"@.len() == 8);
        assert("__init__"@[0] == '_' && "readinto"@[0] == 'r' && "getvalue"@[0] == 'g');
        assert("name"@[0] == 'n' && "read"@[0] == 'r');
    }
    let dict = m.new_dict(entries);
    m.new_value(Kind::Module { name: String::from_str("io"), dict: Box::new(dict) })
}

/// Write an attribute on a registered class value: the registry keeps its
/// shape, only the class's attribute table changes, and only at that name.
fn set_class_attr(m: &mut Machine, class: &mut Value, name: &str, val: Value)
    requires
        old(m).wf(),
        old(class).kind matches Kind::Class(c) && c < old(m).types@.len(),
    ensures
        final(m).wf(),
        final(m).types@.len() == old(m).types@.len(),
        final(m).next_id == old(m).next_id,
        final(m).locals == old(m).locals,
        *final(class) == *old(class),
        old(class).kind matches Kind::Class(c) ==> ((forall|j: int|
            0 <= j < old(m).types@.len() && j != c ==> final(m).types@[j] == old(m).types@[j])
            && final(m).types@[c as int].name == old(m).types@[c as int].name
            && final(m).types@[c as int].parent == old(m).types@[c as int].parent
            && final(m).types@[c as int].slots == old(m).types@[c as int].slots
            && crate::machine::table_set_post(
            old(m).types@[c as int].attrs@,
            final(m).types@[c as int].attrs@,
            name@,
            val,
        )),
{
    let r = m.set_attr(class, name, val);
    match r {
        Result::Ok(()) => {},
        Result::Err(_) => {
            // A registered class always takes attribute assignment.
            proof {
                assert(false);
            }
        },
    }
}

} // verus!
