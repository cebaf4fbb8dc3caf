use pyvm::bignum::{big_eq, big_from_i64, big_from_u64};
use pyvm::builtins::{
    boolval, builtin_all, builtin_any, builtin_compile, builtin_dir, builtin_eval, builtin_id,
    builtin_len, builtin_locals, make_module, CompileMode,
};
use pyvm::error::ErrorKind;
use pyvm::function::{bind_positional, ArgBundle};
use pyvm::io::{file_io_init, io_open, mk_module, string_io_getvalue, string_io_init};
use pyvm::dispatch::construct;
use pyvm::machine::{bootstrap, get_entry, set_entry, Machine, FUNCTION_TYPE, N_CORE_TYPES, OBJECT_TYPE, STR_TYPE};
use pyvm::objslice::init;
use pyvm::value::{none_value, Kind, NativeFn, Value};

fn machine() -> Machine {
    let mut m = bootstrap();
    init(&mut m);
    m
}

fn int_val(m: &mut Machine, v: i64) -> Value {
    m.new_int(big_from_i64(v))
}

fn bundle(args: Vec<Value>) -> ArgBundle {
    ArgBundle { args, kwargs: Vec::new() }
}

#[test]
fn id_returns_identity_as_integer() {
    let mut m = machine();
    let v = int_val(&mut m, 7);
    let expected = v.id;
    let r = builtin_id(&mut m, bundle(vec![v])).unwrap();
    assert!(matches!(&r.kind, Kind::Int(n) if big_eq(n, &big_from_u64(expected))));
}

#[test]
fn id_arity_checked() {
    let mut m = machine();
    let e = builtin_id(&mut m, bundle(Vec::new())).unwrap_err();
    assert!(matches!(e.kind, ErrorKind::Exception));
    assert_eq!(e.msg, "Expected only one argument");
}

#[test]
fn len_of_string_list_tuple() {
    let mut m = machine();
    let s = m.new_str(String::from("hello"));
    let r = builtin_len(&mut m, bundle(vec![s])).unwrap();
    assert!(matches!(&r.kind, Kind::Int(n) if big_eq(n, &big_from_i64(5))));

    let a = int_val(&mut m, 1);
    let b = int_val(&mut m, 2);
    let list = m.new_value(Kind::List(vec![a, b]));
    let r = builtin_len(&mut m, bundle(vec![list])).unwrap();
    assert!(matches!(&r.kind, Kind::Int(n) if big_eq(n, &big_from_i64(2))));

    let t = m.new_tuple(Vec::new());
    let r = builtin_len(&mut m, bundle(vec![t])).unwrap();
    assert!(matches!(&r.kind, Kind::Int(n) if big_eq(n, &big_from_i64(0))));
}

#[test]
fn len_without_length_is_type_error() {
    let mut m = machine();
    let v = int_val(&mut m, 3);
    let e = builtin_len(&mut m, bundle(vec![v])).unwrap_err();
    assert!(matches!(e.kind, ErrorKind::TypeError));
    assert_eq!(e.msg, "object of this type has no len()");
}

#[test]
fn any_and_all_over_truthiness() {
    let mut m = machine();
    let zero = int_val(&mut m, 0);
    let one = int_val(&mut m, 1);
    let r = builtin_any(&mut m, bundle(vec![zero, one])).unwrap();
    assert!(matches!(r.kind, Kind::Bool(true)));

    let zero = int_val(&mut m, 0);
    let one = int_val(&mut m, 1);
    let r = builtin_all(&mut m, bundle(vec![zero, one])).unwrap();
    assert!(matches!(r.kind, Kind::Bool(false)));

    let r = builtin_any(&mut m, bundle(Vec::new())).unwrap();
    assert!(matches!(r.kind, Kind::Bool(false)));
    let r = builtin_all(&mut m, bundle(Vec::new())).unwrap();
    assert!(matches!(r.kind, Kind::Bool(true)));
}

#[test]
fn truthiness_of_kinds() {
    let mut m = machine();
    assert!(!boolval(&none_value()));
    let zero = int_val(&mut m, 0);
    assert!(!boolval(&zero));
    let neg = int_val(&mut m, -3);
    assert!(boolval(&neg));
    let empty = m.new_str(String::new());
    assert!(!boolval(&empty));
    let s = m.new_str(String::from("x"));
    assert!(boolval(&s));
}

#[test]
fn dir_and_locals_copy_the_visible_names() {
    let mut m = machine();
    let v = int_val(&mut m, 9);
    m.locals.push((String::from("x"), v));
    let r = builtin_dir(&mut m, bundle(Vec::new())).unwrap();
    match &r.kind {
        Kind::Dict(entries) => {
            assert_eq!(entries.len(), 1);
            assert_eq!(entries[0].0, "x");
        }
        _ => panic!("expected a dict"),
    }
    let r = builtin_locals(&mut m, bundle(Vec::new())).unwrap();
    assert!(matches!(&r.kind, Kind::Dict(entries) if entries.len() == 1));
    let obj = int_val(&mut m, 1);
    let r = builtin_dir(&mut m, bundle(vec![obj])).unwrap();
    assert!(matches!(&r.kind, Kind::Dict(entries) if entries.is_empty()));
}

#[test]
fn compile_takes_the_source_text() {
    let m = machine();
    let src = Value { id: 99, kind: Kind::Str(String::from("1 + 1")) };
    let req = builtin_compile(&m, &bundle(vec![src])).unwrap();
    assert_eq!(req.source, "1 + 1");
    assert!(matches!(req.mode, CompileMode::EvalMode));

    let e = builtin_compile(&m, &bundle(Vec::new())).unwrap_err();
    assert_eq!(e.msg, "Expected more arguments");
}

#[test]
fn eval_requires_exactly_three_arguments() {
    let mut m = machine();
    let a = int_val(&mut m, 1);
    let e = builtin_eval(&mut m, bundle(vec![a])).unwrap_err();
    assert_eq!(e.msg, "Expected at least one argument");

    let a = int_val(&mut m, 1);
    let b = int_val(&mut m, 2);
    let c = int_val(&mut m, 3);
    let d = int_val(&mut m, 4);
    let e = builtin_eval(&mut m, bundle(vec![a, b, c, d])).unwrap_err();
    assert_eq!(e.msg, "Expected at maximum of 3 arguments");

    let code = int_val(&mut m, 1);
    let globals = int_val(&mut m, 2);
    let locs = m.new_dict(Vec::new());
    let act = builtin_eval(&mut m, bundle(vec![code, globals, locs])).unwrap();
    assert!(matches!(&act.code.kind, Kind::Int(n) if big_eq(n, &big_from_i64(1))));
    match &act.scope.kind {
        Kind::Scope { locals, parent } => {
            assert!(matches!(locals.kind, Kind::Dict(_)));
            assert!(parent.is_none());
        }
        _ => panic!("expected a scope"),
    }
}

#[test]
fn builtins_module_names_and_operations() {
    let mut m = machine();
    let module = make_module(&mut m);
    match &module.kind {
        Kind::Module { name, dict } => {
            assert_eq!(name, "__builtins__");
            match &dict.kind {
                Kind::Dict(entries) => {
                    let names: Vec<&str> = entries.iter().map(|e| e.0.as_str()).collect();
                    assert_eq!(
                        names,
                        ["id", "print", "type", "int", "all", "any", "dir", "locals", "compile",
                            "eval", "len"]
                    );
                    assert!(matches!(entries[0].1.kind, Kind::NativeFunction(NativeFn::Id)));
                    assert!(matches!(entries[2].1.kind, Kind::Class(_)));
                    assert!(matches!(entries[10].1.kind, Kind::NativeFunction(NativeFn::Len)));
                }
                _ => panic!("expected a dict"),
            }
        }
        _ => panic!("expected a module"),
    }
}

#[test]
fn io_module_names() {
    let mut m = machine();
    let module = mk_module(&mut m);
    match &module.kind {
        Kind::Module { name, dict } => {
            assert_eq!(name, "io");
            match &dict.kind {
                Kind::Dict(entries) => {
                    let names: Vec<&str> = entries.iter().map(|e| e.0.as_str()).collect();
                    assert_eq!(
                        names,
                        ["open", "IOBase", "RawIOBase", "BufferedIOBase", "TextIOBase", "FileIO",
                            "BufferedReader", "BufferedWriter", "TextIOWrapper", "StringIO",
                            "BytesIO"]
                    );
                    assert!(matches!(entries[0].1.kind, Kind::NativeFunction(NativeFn::Open)));
                    for e in &entries[1..] {
                        assert!(matches!(e.1.kind, Kind::Class(_)));
                    }
                }
                _ => panic!("expected a dict"),
            }
        }
        _ => panic!("expected a module"),
    }
}

#[test]
fn io_module_registers_the_hierarchy() {
    let mut m = machine();
    let base = m.types.len();
    assert_eq!(base, N_CORE_TYPES);
    let _module = mk_module(&mut m);
    assert_eq!(m.types.len(), base + 10);
    let names: Vec<&str> = m.types[base..].iter().map(|t| t.name.as_str()).collect();
    assert_eq!(
        names,
        ["IOBase", "RawIOBase", "BufferedIOBase", "TextIOBase", "FileIO", "BufferedReader",
            "BufferedWriter", "TextIOWrapper", "StringIO", "BytesIO"]
    );
    let parents: Vec<usize> = m.types[base..].iter().map(|t| t.parent.unwrap()).collect();
    assert_eq!(
        parents,
        [OBJECT_TYPE, OBJECT_TYPE, base, base, base + 1, base + 2, base + 2, OBJECT_TYPE, base,
            base]
    );
    let file_io = &m.types[base + 4];
    let init = get_entry(&file_io.attrs, "__init__").unwrap();
    assert!(matches!(init.kind, Kind::NativeFunction(NativeFn::FileIoInit)));
    let name_attr = get_entry(&file_io.attrs, "name").unwrap();
    assert!(matches!(name_attr.kind, Kind::Class(c) if c == STR_TYPE));
    let read = get_entry(&file_io.attrs, "read").unwrap();
    assert!(matches!(read.kind, Kind::NativeFunction(NativeFn::FileIoRead)));
    let readinto = get_entry(&file_io.attrs, "readinto").unwrap();
    assert!(matches!(readinto.kind, Kind::NativeFunction(NativeFn::FileIoReadInto)));
    let string_io = &m.types[base + 8];
    let getvalue = get_entry(&string_io.attrs, "getvalue").unwrap();
    assert!(matches!(getvalue.kind, Kind::NativeFunction(NativeFn::StringIoGetValue)));
    let bytes_io = &m.types[base + 9];
    let init = get_entry(&bytes_io.attrs, "__init__").unwrap();
    assert!(matches!(init.kind, Kind::NativeFunction(NativeFn::BytesIoInit)));
}

#[test]
fn io_classes_are_constructible() {
    let mut m = machine();
    let base = m.types.len();
    let _module = mk_module(&mut m);
    let v = construct(&mut m, base + 4, bundle(Vec::new())).unwrap();
    match &v.kind {
        Kind::Instance { class, attrs } => {
            assert_eq!(*class, base + 4);
            assert!(attrs.is_empty());
        }
        _ => panic!("expected an instance of the file class"),
    }
}

#[test]
fn io_stubs_answer_the_missing_value() {
    let m = machine();
    let args = bundle(Vec::new());
    assert!(matches!(string_io_init(&m, &args).unwrap().kind, Kind::NoneVal));
    assert!(matches!(string_io_getvalue(&m, &args).unwrap().kind, Kind::NoneVal));
}

#[test]
fn open_checks_its_arity() {
    let mut m = machine();
    let f = m.new_str(String::from("f.txt"));
    let mode = m.new_str(String::from("r"));
    let r = io_open(&m, &bundle(vec![f, mode])).unwrap();
    assert!(matches!(r.kind, Kind::NoneVal));
    let e = io_open(&m, &bundle(Vec::new())).unwrap_err();
    assert!(matches!(e.kind, ErrorKind::TypeError));
}

#[test]
fn file_io_init_writes_name_and_offset() {
    let mut m = machine();
    let mut file = m.new_value(Kind::Instance { class: FUNCTION_TYPE, attrs: Vec::new() });
    let name = m.new_str(String::from("data.bin"));
    let r = file_io_init(&mut m, &mut file, name).unwrap();
    assert!(matches!(r.kind, Kind::NoneVal));
    match &file.kind {
        Kind::Instance { attrs, .. } => {
            let n = get_entry(attrs, "name").expect("name attribute");
            assert!(matches!(&n.kind, Kind::Str(s) if s == "data.bin"));
            let o = get_entry(attrs, "__offset__").expect("offset attribute");
            assert!(matches!(&o.kind, Kind::Int(n) if big_eq(n, &big_from_i64(0))));
        }
        _ => panic!("expected an instance"),
    }
}

#[test]
fn file_io_init_rejects_non_string_name() {
    let mut m = machine();
    let mut file = m.new_value(Kind::Instance { class: FUNCTION_TYPE, attrs: Vec::new() });
    let name = int_val(&mut m, 3);
    let e = file_io_init(&mut m, &mut file, name).unwrap_err();
    assert!(matches!(e.kind, ErrorKind::TypeError));
}

#[test]
fn binder_pads_optional_positions() {
    let mut m = machine();
    let a = int_val(&mut m, 1);
    let bound = bind_positional(bundle(vec![a]), 1, 3).unwrap();
    assert_eq!(bound.len(), 3);
    assert!(bound[0].is_some());
    assert!(bound[1].is_none());
    assert!(bound[2].is_none());

    let a = int_val(&mut m, 1);
    let e = bind_positional(bundle(vec![a]), 2, 3).unwrap_err();
    assert!(matches!(e.kind, ErrorKind::TypeError));
}

#[test]
fn table_write_then_read() {
    let mut m = machine();
    let mut entries: Vec<(String, Value)> = Vec::new();
    let one = int_val(&mut m, 1);
    set_entry(&mut entries, "a", one);
    let two = int_val(&mut m, 2);
    set_entry(&mut entries, "a", two);
    let three = int_val(&mut m, 3);
    set_entry(&mut entries, "b", three);
    assert_eq!(entries.len(), 2);
    let a = get_entry(&entries, "a").unwrap();
    assert!(matches!(&a.kind, Kind::Int(n) if big_eq(n, &big_from_i64(2))));
    assert!(get_entry(&entries, "missing").is_none());
}
