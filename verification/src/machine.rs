//! The runtime context: the type registry with its slot tables, the identity
//! counter, and the interpreter-visible locals.

use vstd::prelude::*;
use crate::value::FIRST_DYNAMIC_ID;
use crate::value::Kind;
use crate::value::NativeFn;
use crate::value::Value;

verus! {

pub const OBJECT_TYPE: usize = 0;

pub const TYPE_TYPE: usize = 1;

pub const INT_TYPE: usize = 2;

pub const BOOL_TYPE: usize = 3;

pub const STR_TYPE: usize = 4;

pub const NONE_TYPE: usize = 5;

pub const NOT_IMPLEMENTED_TYPE: usize = 6;

pub const SLICE_TYPE: usize = 7;

pub const ELLIPSIS_TYPE: usize = 8;

pub const BYTES_TYPE: usize = 9;

pub const LIST_TYPE: usize = 10;

pub const TUPLE_TYPE: usize = 11;

pub const DICT_TYPE: usize = 12;

pub const FUNCTION_TYPE: usize = 13;

pub const MODULE_TYPE: usize = 14;

pub const SCOPE_TYPE: usize = 15;

/// Number of type descriptors installed at bootstrap.
pub const N_CORE_TYPES: usize = 16;

/// The native implementations a slot can name.
#[derive(Clone, Copy, PartialEq, Eq, Structural)]
pub enum NativeOp {
    SliceConstruct,
    EllipsisConstruct,
    InstanceConstruct,
    IdentityHash,
    ScalarCompare,
    SliceCompare,
    DefaultRepr,
    SliceRepr,
    EllipsisRepr,
}

/// A slot table entry: a native implementation, inheritance from the parent
/// type, or a declared "unsupported".
#[derive(Clone, Copy, PartialEq, Eq, Structural)]
pub enum SlotEntry {
    Native(NativeOp),
    Inherit,
    Unsupported,
}

/// The protocol operations a type can implement.
#[derive(Clone, Copy, PartialEq, Eq, Structural)]
pub enum SlotKind {
    Construct,
    Hash,
    Compare,
    Repr,
}

/// A type's slot table, every entry declared explicitly.
#[derive(Clone, Copy, PartialEq, Eq, Structural)]
pub struct SlotTable {
    pub construct: SlotEntry,
    pub hash: SlotEntry,
    pub compare: SlotEntry,
    pub repr: SlotEntry,
}

/// A runtime type: name, single parent, slot table, and attributes.
pub struct TypeDef {
    pub name: String,
    pub parent: Option<usize>,
    pub slots: SlotTable,
    pub attrs: Vec<(String, Value)>,
}

/// The machine context.
pub struct Machine {
    pub types: Vec<TypeDef>,
    pub next_id: u64,
    pub locals: Vec<(String, Value)>,
}

/// The entry a slot table holds for an operation.
pub open spec fn slot_of(t: SlotTable, k: SlotKind) -> SlotEntry {
    match k {
        SlotKind::Construct => t.construct,
        SlotKind::Hash => t.hash,
        SlotKind::Compare => t.compare,
        SlotKind::Repr => t.repr,
    }
}

/// Every parent link points at an earlier registry entry, so parent chains
/// terminate at the root.
pub open spec fn parents_wf(types: Seq<TypeDef>) -> bool {
    forall|i: int|
        0 <= i < types.len() ==> match (#[trigger] types[i]).parent {
            Option::Some(p) => p < i,
            Option::None => true,
        }
}

impl Machine {
    /// Registry shape invariant.
    pub open spec fn wf(&self) -> bool {
        parents_wf(self.types@) && self.types@.len() >= N_CORE_TYPES
            && self.next_id >= FIRST_DYNAMIC_ID
    }

    /// Allocate a fresh identity and wrap a representation in a value.
    /// Identities stay unique until the counter is exhausted.
    pub fn new_value(&mut self, kind: Kind) -> (r: Value)
        ensures
            r.kind == kind,
            r.id == old(self).next_id,
            final(self).next_id >= old(self).next_id,
            final(self).types == old(self).types,
            final(self).locals == old(self).locals,
            old(self).wf() ==> final(self).wf(),
    {
        let id = self.next_id;
        if self.next_id < u64::MAX {
            self.next_id = self.next_id + 1;
        }
        Value { id, kind }
    }
}

/// Resolved implementation of a slot for a type: walk `Inherit` links up the
/// parent chain; `None` stands for a declared or inherited "unsupported".
pub open spec fn resolve_slot_spec(m: Machine, t: int, k: SlotKind) -> Option<NativeOp>
    decreases t,
{
    if 0 <= t < m.types@.len() {
        match slot_of(m.types@[t].slots, k) {
            SlotEntry::Native(op) => Option::Some(op),
            SlotEntry::Unsupported => Option::None,
            SlotEntry::Inherit => match m.types@[t].parent {
                Option::Some(p) => if p < t {
                    resolve_slot_spec(m, p as int, k)
                } else {
                    Option::None
                },
                Option::None => Option::None,
            },
        }
    } else {
        Option::None
    }
}

/// Walks the slot table and parent chain for an operation's implementation.
pub fn resolve_slot(m: &Machine, t: usize, k: SlotKind) -> (r: Option<NativeOp>)
    requires
        m.wf(),
        t < m.types@.len(),
    ensures
        r == resolve_slot_spec(*m, t as int, k),
    decreases t,
{
    let td = &m.types[t];
    let entry = match k {
        SlotKind::Construct => td.slots.construct,
        SlotKind::Hash => td.slots.hash,
        SlotKind::Compare => td.slots.compare,
        SlotKind::Repr => td.slots.repr,
    };
    match entry {
        SlotEntry::Native(op) => Option::Some(op),
        SlotEntry::Unsupported => Option::None,
        SlotEntry::Inherit => match td.parent {
            Option::Some(p) => {
                if p < t {
                    resolve_slot(m, p, k)
                } else {
                    Option::None
                }
            },
            Option::None => Option::None,
        },
    }
}

/// The registry index of a value's runtime type.
pub open spec fn type_of_spec(v: Value) -> usize {
    match v.kind {
        Kind::NoneVal => NONE_TYPE,
        Kind::Bool(_) => BOOL_TYPE,
        Kind::Int(_) => INT_TYPE,
        Kind::Str(_) => STR_TYPE,
        Kind::Bytes(_) => BYTES_TYPE,
        Kind::List(_) => LIST_TYPE,
        Kind::Tuple(_) => TUPLE_TYPE,
        Kind::Dict(_) => DICT_TYPE,
        Kind::Slice(_) => SLICE_TYPE,
        Kind::NativeFunction(_) => FUNCTION_TYPE,
        Kind::Class(_) => TYPE_TYPE,
        Kind::Instance { class, attrs } => class,
        Kind::Scope { locals, parent } => SCOPE_TYPE,
        Kind::Module { name, dict } => MODULE_TYPE,
        Kind::Ellipsis => ELLIPSIS_TYPE,
        Kind::NotImplemented => NOT_IMPLEMENTED_TYPE,
    }
}

/// The registry index of a value's runtime type.
pub fn type_of(v: &Value) -> (t: usize)
    ensures
        t == type_of_spec(*v),
{
    match &v.kind {
        Kind::NoneVal => NONE_TYPE,
        Kind::Bool(_) => BOOL_TYPE,
        Kind::Int(_) => INT_TYPE,
        Kind::Str(_) => STR_TYPE,
        Kind::Bytes(_) => BYTES_TYPE,
        Kind::List(_) => LIST_TYPE,
        Kind::Tuple(_) => TUPLE_TYPE,
        Kind::Dict(_) => DICT_TYPE,
        Kind::Slice(_) => SLICE_TYPE,
        Kind::NativeFunction(_) => FUNCTION_TYPE,
        Kind::Class(_) => TYPE_TYPE,
        Kind::Instance { class, .. } => *class,
        Kind::Scope { .. } => SCOPE_TYPE,
        Kind::Module { .. } => MODULE_TYPE,
        Kind::Ellipsis => ELLIPSIS_TYPE,
        Kind::NotImplemented => NOT_IMPLEMENTED_TYPE,
    }
}

/// A slot table whose only declared operation is the scalar comparison; the
/// rest inherits, construction is not offered.
fn scalar_slots() -> (s: SlotTable)
    ensures
        s == (SlotTable {
            construct: SlotEntry::Unsupported,
            hash: SlotEntry::Inherit,
            compare: SlotEntry::Native(NativeOp::ScalarCompare),
            repr: SlotEntry::Inherit,
        }),
{
    SlotTable {
        construct: SlotEntry::Unsupported,
        hash: SlotEntry::Inherit,
        compare: SlotEntry::Native(NativeOp::ScalarCompare),
        repr: SlotEntry::Inherit,
    }
}

/// The slot table of a registered class: construction makes a plain
/// instance of the class; the rest is as for the scalars.
pub open spec fn class_slots() -> SlotTable {
    SlotTable {
        construct: SlotEntry::Native(NativeOp::InstanceConstruct),
        hash: SlotEntry::Inherit,
        compare: SlotEntry::Native(NativeOp::ScalarCompare),
        repr: SlotEntry::Inherit,
    }
}

fn class_slots_exec() -> (s: SlotTable)
    ensures
        s == class_slots(),
{
    SlotTable {
        construct: SlotEntry::Native(NativeOp::InstanceConstruct),
        hash: SlotEntry::Inherit,
        compare: SlotEntry::Native(NativeOp::ScalarCompare),
        repr: SlotEntry::Inherit,
    }
}

/// A fresh type descriptor with no attributes.
fn mk_type(name: &str, parent: Option<usize>, slots: SlotTable) -> (t: TypeDef)
    ensures
        t.name@ == name@,
        t.parent == parent,
        t.slots == slots,
        t.attrs@.len() == 0,
{
    TypeDef { name: String::from_str(name), parent, slots, attrs: Vec::new() }
}

/// What bootstrap guarantees: the sixteen core descriptors, the root with the
/// declared defaults (identity hash, generic repr, no construction, no
/// comparison), every other core type a direct child of the root carrying the
/// scalar comparison slot.
pub open spec fn bootstrapped(m: Machine) -> bool {
    m.types@.len() == N_CORE_TYPES && m.types@[OBJECT_TYPE as int].parent is None
        && m.types@[OBJECT_TYPE as int].slots == (SlotTable {
        construct: SlotEntry::Unsupported,
        hash: SlotEntry::Native(NativeOp::IdentityHash),
        compare: SlotEntry::Unsupported,
        repr: SlotEntry::Native(NativeOp::DefaultRepr),
    }) && (forall|i: int|
        1 <= i < N_CORE_TYPES ==> (#[trigger] m.types@[i]).parent == Option::Some(OBJECT_TYPE))
        && (forall|i: int|
        1 <= i < N_CORE_TYPES ==> (#[trigger] m.types@[i]).slots == (SlotTable {
            construct: SlotEntry::Unsupported,
            hash: SlotEntry::Inherit,
            compare: SlotEntry::Native(NativeOp::ScalarCompare),
            repr: SlotEntry::Inherit,
        })) && core_names(m)
}

/// The names of the core type descriptors.
pub open spec fn core_names(m: Machine) -> bool {
    m.types@.len() >= N_CORE_TYPES
        && m.types@[OBJECT_TYPE as int].name@ == "object"@
        && m.types@[TYPE_TYPE as int].name@ == "type"@
        && m.types@[INT_TYPE as int].name@ == "int"@
        && m.types@[BOOL_TYPE as int].name@ == "bool"@
        && m.types@[STR_TYPE as int].name@ == "str"@
        && m.types@[NONE_TYPE as int].name@ == "NoneType"@
        && m.types@[NOT_IMPLEMENTED_TYPE as int].name@ == "NotImplementedType"@
        && m.types@[SLICE_TYPE as int].name@ == "slice"@
        && m.types@[ELLIPSIS_TYPE as int].name@ == "EllipsisType"@
        && m.types@[BYTES_TYPE as int].name@ == "bytes"@
        && m.types@[LIST_TYPE as int].name@ == "list"@
        && m.types@[TUPLE_TYPE as int].name@ == "tuple"@
        && m.types@[DICT_TYPE as int].name@ == "dict"@
        && m.types@[FUNCTION_TYPE as int].name@ == "builtin_function_or_method"@
        && m.types@[MODULE_TYPE as int].name@ == "module"@
        && m.types@[SCOPE_TYPE as int].name@ == "scope"@
}

/// Allocate the type shells in registry order, root first, then wire the
/// declared slot tables; instances can only be made once this is done.
pub fn bootstrap() -> (m: Machine)
    ensures
        m.wf(),
        bootstrapped(m),
        m.locals@.len() == 0,
{
    let mut types: Vec<TypeDef> = Vec::new();
    types.push(mk_type(
        "object",
        Option::None,
        SlotTable {
            construct: SlotEntry::Unsupported,
            hash: SlotEntry::Native(NativeOp::IdentityHash),
            compare: SlotEntry::Unsupported,
            repr: SlotEntry::Native(NativeOp::DefaultRepr),
        },
    ));
    types.push(mk_type("type", Option::Some(OBJECT_TYPE), scalar_slots()));
    types.push(mk_type("int", Option::Some(OBJECT_TYPE), scalar_slots()));
    types.push(mk_type("bool", Option::Some(OBJECT_TYPE), scalar_slots()));
    types.push(mk_type("str", Option::Some(OBJECT_TYPE), scalar_slots()));
    types.push(mk_type("NoneType", Option::Some(OBJECT_TYPE), scalar_slots()));
    types.push(mk_type("NotImplementedType", Option::Some(OBJECT_TYPE), scalar_slots()));
    types.push(mk_type("slice", Option::Some(OBJECT_TYPE), scalar_slots()));
    types.push(mk_type("EllipsisType", Option::Some(OBJECT_TYPE), scalar_slots()));
    types.push(mk_type("bytes", Option::Some(OBJECT_TYPE), scalar_slots()));
    types.push(mk_type("list", Option::Some(OBJECT_TYPE), scalar_slots()));
    types.push(mk_type("tuple", Option::Some(OBJECT_TYPE), scalar_slots()));
    types.push(mk_type("dict", Option::Some(OBJECT_TYPE), scalar_slots()));
    types.push(mk_type("builtin_function_or_method", Option::Some(OBJECT_TYPE), scalar_slots()));
    types.push(mk_type("module", Option::Some(OBJECT_TYPE), scalar_slots()));
    types.push(mk_type("scope", Option::Some(OBJECT_TYPE), scalar_slots()));
    Machine { types, next_id: FIRST_DYNAMIC_ID, locals: Vec::new() }
}

impl Machine {
    /// Register a new class under the given parent; its value is returned.
    pub fn new_class(&mut self, name: &str, parent: usize) -> (r: Value)
        requires
            old(self).wf(),
            parent < old(self).types@.len(),
        ensures
            final(self).wf(),
            final(self).types@.len() == old(self).types@.len() + 1,
            forall|j: int|
                0 <= j < old(self).types@.len() ==> final(self).types@[j] == old(self).types@[j],
            final(self).types@[old(self).types@.len() as int].name@ == name@,
            final(self).types@[old(self).types@.len() as int].parent == Option::Some(parent),
            final(self).types@[old(self).types@.len() as int].attrs@.len() == 0,
            final(self).types@[old(self).types@.len() as int].slots == class_slots(),
            r.kind == Kind::Class(old(self).types@.len() as usize),
            final(self).locals == old(self).locals,
    {
        let idx = self.types.len();
        self.types.push(mk_type(name, Option::Some(parent), class_slots_exec()));
        proof {
            assert(self.types@.subrange(0, old(self).types@.len() as int) =~= old(self).types@);
        }
        self.new_value(Kind::Class(idx))
    }
}

/// First-match lookup in a name-to-value table.
pub open spec fn table_get(s: Seq<(String, Value)>, k: Seq<char>) -> Option<Value>
    decreases s.len(),
{
    if s.len() == 0 {
        Option::None
    } else if s[0].0@ == k {
        Option::Some(s[0].1)
    } else {
        table_get(s.skip(1), k)
    }
}

/// What writing one name leaves behind: that name maps to the new value and
/// every other name reads as before.
pub open spec fn table_set_post(
    s0: Seq<(String, Value)>,
    s1: Seq<(String, Value)>,
    k: Seq<char>,
    v: Value,
) -> bool {
    table_get(s1, k) == Option::Some(v) && (forall|k2: Seq<char>|
        k2 != k ==> table_get(s1, k2) == table_get(s0, k2))
}

proof fn lemma_table_get_update_other(s: Seq<(String, Value)>, i: int, e: (String, Value), k2: Seq<char>)
    requires
        0 <= i < s.len(),
        e.0@ == s[i].0@,
        k2 != s[i].0@,
    ensures
        table_get(s.update(i, e), k2) == table_get(s, k2),
    decreases s.len(),
{
    if i == 0 {
        assert(s.update(0, e).skip(1) =~= s.skip(1));
    } else {
        assert(s.update(i, e).skip(1) =~= s.skip(1).update(i - 1, e));
        lemma_table_get_update_other(s.skip(1), i - 1, e, k2);
    }
}

proof fn lemma_table_get_update_hit(s: Seq<(String, Value)>, i: int, e: (String, Value))
    requires
        0 <= i < s.len(),
        e.0@ == s[i].0@,
        forall|j: int| 0 <= j < i ==> (#[trigger] s[j]).0@ != s[i].0@,
    ensures
        table_get(s.update(i, e), s[i].0@) == Option::Some(e.1),
    decreases s.len(),
{
    if i == 0 {
    } else {
        assert(s.update(i, e).skip(1) =~= s.skip(1).update(i - 1, e));
        assert(forall|j: int|
            0 <= j < i - 1 ==> (#[trigger] s.skip(1)[j]).0@ == s[j + 1].0@);
        lemma_table_get_update_hit(s.skip(1), i - 1, e);
    }
}

proof fn lemma_table_get_push(s: Seq<(String, Value)>, e: (String, Value), k2: Seq<char>)
    ensures
        table_get(s.push(e), k2) == (if table_get(s, k2) is Some {
            table_get(s, k2)
        } else if e.0@ == k2 {
            Option::Some(e.1)
        } else {
            Option::<Value>::None
        }),
    decreases s.len(),
{
    if s.len() == 0 {
        assert(s.push(e)[0] == e);
        assert(s.push(e).skip(1) =~= Seq::<(String, Value)>::empty());
        assert(table_get(s, k2) is None);
        assert(table_get(s.push(e).skip(1), k2) is None);
        if e.0@ == k2 {
            assert(table_get(s.push(e), k2) == Option::Some(e.1));
        } else {
            assert(table_get(s.push(e), k2) is None);
        }
    } else {
        assert(s.push(e)[0] == s[0]);
        assert(s.push(e).skip(1) =~= s.skip(1).push(e));
        lemma_table_get_push(s.skip(1), e, k2);
    }
}

proof fn lemma_table_get_none(s: Seq<(String, Value)>, k: Seq<char>)
    requires
        forall|j: int| 0 <= j < s.len() ==> (#[trigger] s[j]).0@ != k,
    ensures
        table_get(s, k) is None,
    decreases s.len(),
{
    if s.len() > 0 {
        lemma_table_get_none(s.skip(1), k);
    }
}

/// Write one name in a table: replace the first entry carrying it, else
/// append a new entry.
pub fn set_entry(entries: &mut Vec<(String, Value)>, name: &str, val: Value)
    ensures
        table_set_post(old(entries)@, final(entries)@, name@, val),
{
    let key = String::from_str(name);
    let n = entries.len();
    let mut i: usize = 0;
    while i < n
        invariant
            n == entries@.len(),
            i <= n,
            key@ == name@,
            *entries == *old(entries),
            forall|j: int| 0 <= j < i ==> (#[trigger] entries@[j]).0@ != name@,
        decreases n - i,
    {
        if entries[i].0.eq(&key) {
            let ghost s0 = entries@;
            entries[i] = (key, val);
            proof {
                let e = entries@[i as int];
                assert(entries@ == s0.update(i as int, e));
                lemma_table_get_update_hit(s0, i as int, e);
                assert forall|k2: Seq<char>| k2 != name@ implies table_get(entries@, k2)
                    == table_get(s0, k2) by {
                    lemma_table_get_update_other(s0, i as int, e, k2);
                }
            }
            return;
        }
        i = i + 1;
    }
    let ghost s0 = entries@;
    entries.push((key, val));
    proof {
        let e = entries@.last();
        assert(entries@ == s0.push(e));
        lemma_table_get_none(s0, name@);
        lemma_table_get_push(s0, e, name@);
        assert forall|k2: Seq<char>| k2 != name@ implies table_get(entries@, k2)
            == table_get(s0, k2) by {
            lemma_table_get_push(s0, e, k2);
        }
    }
}

/// Read one name from a table; the found value is returned as a copy.
pub fn get_entry(entries: &Vec<(String, Value)>, name: &str) -> (r: Option<Value>)
    ensures
        match r {
            Option::Some(w) => table_get(entries@, name@) matches Option::Some(x)
                && crate::value::obs_eq(x, w),
            Option::None => table_get(entries@, name@) is None,
        },
{
    let key = String::from_str(name);
    let n = entries.len();
    let mut i: usize = 0;
    while i < n
        invariant
            n == entries@.len(),
            i <= n,
            key@ == name@,
            forall|j: int| 0 <= j < i ==> (#[trigger] entries@[j]).0@ != name@,
        decreases n - i,
    {
        if entries[i].0.eq(&key) {
            proof {
                lemma_table_get_first_hit(entries@, i as int);
            }
            return Option::Some(crate::value::clone_value(&entries[i].1));
        }
        i = i + 1;
    }
    proof {
        lemma_table_get_none(entries@, name@);
    }
    Option::None
}

proof fn lemma_table_get_first_hit(s: Seq<(String, Value)>, i: int)
    requires
        0 <= i < s.len(),
        forall|j: int| 0 <= j < i ==> (#[trigger] s[j]).0@ != s[i].0@,
    ensures
        table_get(s, s[i].0@) == Option::Some(s[i].1),
    decreases s.len(),
{
    if i > 0 {
        assert(forall|j: int|
            0 <= j < i - 1 ==> (#[trigger] s.skip(1)[j]).0@ == s[j + 1].0@);
        lemma_table_get_first_hit(s.skip(1), i - 1);
    }
}

/// Whether a value can take attribute assignment: an instance, a module
/// whose dict is a dict value, or a class registered in the machine.
pub open spec fn settable(v: Value, m: Machine) -> bool {
    match v.kind {
        Kind::Instance { class, attrs } => true,
        Kind::Module { name, dict } => dict.kind is Dict,
        Kind::Class(c) => c < m.types@.len(),
        _ => false,
    }
}

impl Machine {
    /// An integer value with a fresh identity.
    pub fn new_int(&mut self, n: crate::bignum::BigNum) -> (r: Value)
        ensures
            r.kind == Kind::Int(n),
            r.id == old(self).next_id,
            final(self).types == old(self).types,
            final(self).locals == old(self).locals,
            old(self).wf() ==> final(self).wf(),
    {
        self.new_value(Kind::Int(n))
    }

    /// A boolean value with a fresh identity.
    pub fn new_bool(&mut self, b: bool) -> (r: Value)
        ensures
            r.kind == Kind::Bool(b),
            final(self).types == old(self).types,
            final(self).locals == old(self).locals,
            old(self).wf() ==> final(self).wf(),
    {
        self.new_value(Kind::Bool(b))
    }

    /// A string value with a fresh identity.
    pub fn new_str(&mut self, s: String) -> (r: Value)
        ensures
            r.kind == Kind::Str(s),
            final(self).types == old(self).types,
            final(self).locals == old(self).locals,
            old(self).wf() ==> final(self).wf(),
    {
        self.new_value(Kind::Str(s))
    }

    /// A tuple value with a fresh identity.
    pub fn new_tuple(&mut self, els: Vec<Value>) -> (r: Value)
        ensures
            r.kind == Kind::Tuple(els),
            final(self).types == old(self).types,
            final(self).locals == old(self).locals,
            old(self).wf() ==> final(self).wf(),
    {
        self.new_value(Kind::Tuple(els))
    }

    /// A dict value with a fresh identity.
    pub fn new_dict(&mut self, entries: Vec<(String, Value)>) -> (r: Value)
        ensures
            r.kind == Kind::Dict(entries),
            final(self).types == old(self).types,
            final(self).locals == old(self).locals,
            old(self).wf() ==> final(self).wf(),
    {
        self.new_value(Kind::Dict(entries))
    }

    /// A native-operation value with a fresh identity.
    pub fn new_rustfunc(&mut self, f: NativeFn) -> (r: Value)
        ensures
            r.kind == Kind::NativeFunction(f),
            final(self).types == old(self).types,
            final(self).locals == old(self).locals,
            old(self).wf() ==> final(self).wf(),
    {
        self.new_value(Kind::NativeFunction(f))
    }

    /// Write an attribute on a value that carries attributes: a module's
    /// dict, an instance's table, or a registered class.
    pub fn set_attr(&mut self, target: &mut Value, name: &str, val: Value) -> (r: Result<
        (),
        crate::error::PyError,
    >)
        ensures
            final(self).next_id == old(self).next_id,
            final(self).locals == old(self).locals,
            final(target).id == old(target).id,
            r is Ok <==> settable(*old(target), *old(self)),
            match r {
                Result::Ok(()) => match old(target).kind {
                    Kind::Instance { class: c0, attrs: a0 } => final(target).kind matches
                        Kind::Instance { class: c1, attrs: a1 }
                        && c1 == c0 && table_set_post(a0@, a1@, name@, val)
                        && final(self).types == old(self).types,
                    Kind::Module { name: n0, dict: d0 } => final(target).kind matches
                        Kind::Module { name: n1, dict: d1 }
                        && n1 == n0 && d1.id == d0.id
                        && (d0.kind matches Kind::Dict(e0) && d1.kind matches Kind::Dict(e1)
                            && table_set_post(e0@, e1@, name@, val))
                        && final(self).types == old(self).types,
                    Kind::Class(c) => *final(target) == *old(target)
                        && c < old(self).types@.len()
                        && final(self).types@.len() == old(self).types@.len()
                        && (forall|j: int|
                            0 <= j < old(self).types@.len() && j != c
                                ==> final(self).types@[j] == old(self).types@[j])
                        && final(self).types@[c as int].name == old(self).types@[c as int].name
                        && final(self).types@[c as int].parent == old(self).types@[c as int].parent
                        && final(self).types@[c as int].slots == old(self).types@[c as int].slots
                        && table_set_post(
                            old(self).types@[c as int].attrs@,
                            final(self).types@[c as int].attrs@,
                            name@,
                            val,
                        ),
                    _ => false,
                },
                Result::Err(e) => final(self).types == old(self).types
                    && *final(target) == *old(target) && e.kind is TypeError,
            },
            old(self).wf() ==> final(self).wf(),
    {
        match &mut target.kind {
            Kind::Instance { class: _, attrs } => {
                set_entry(attrs, name, val);
                Result::Ok(())
            },
            Kind::Module { name: _, dict } => {
                match &mut dict.kind {
                    Kind::Dict(entries) => {
                        set_entry(entries, name, val);
                        Result::Ok(())
                    },
                    _ => Result::Err(crate::error::type_error(
                        "attribute assignment target does not hold attributes",
                    )),
                }
            },
            Kind::Class(c) => {
                let c = *c;
                if c < self.types.len() {
                    let td = &mut self.types[c];
                    set_entry(&mut td.attrs, name, val);
                    Result::Ok(())
                } else {
                    Result::Err(crate::error::type_error(
                        "attribute assignment target does not hold attributes",
                    ))
                }
            },
            _ => Result::Err(crate::error::type_error(
                "attribute assignment target does not hold attributes",
            )),
        }
    }
}

} // verus!
