use pyvm::bignum::{big_eq, big_from_i64, big_to_decimal, BigNum};
use pyvm::dispatch::{construct, hash_value, repr_value, richcompare};
use pyvm::error::ErrorKind;
use pyvm::function::ArgBundle;
use pyvm::machine::{bootstrap, Machine, OBJECT_TYPE, SLICE_TYPE};
use pyvm::objslice::{init, PyEllipsis, PySlice};
use pyvm::protocol::{ComparisonOutcome, PyComparisonOp};
use pyvm::value::{none_value, Kind, Value};

fn machine() -> Machine {
    let mut m = bootstrap();
    init(&mut m);
    m
}

fn int_val(m: &mut Machine, v: i64) -> Value {
    m.new_int(big_from_i64(v))
}

/// slice built from up to three optional integer fields, absent as `None`.
fn make_slice(m: &mut Machine, start: Option<i64>, stop: Option<i64>, step: Option<i64>) -> PySlice {
    let start = match start {
        Some(v) => Some(int_val(m, v)),
        None => Some(none_value()),
    };
    let stop = match stop {
        Some(v) => int_val(m, v),
        None => none_value(),
    };
    let step = match step {
        Some(v) => Some(int_val(m, v)),
        None => Some(none_value()),
    };
    PySlice { start, stop, step }
}

fn expect_triple(r: Result<(BigNum, BigNum, BigNum), pyvm::error::PyError>, a: i64, o: i64, st: i64) {
    let (ra, ro, rst) = r.expect("normalization should succeed");
    assert!(big_eq(&ra, &big_from_i64(a)), "start was {}", big_to_decimal(&ra));
    assert!(big_eq(&ro, &big_from_i64(o)), "stop was {}", big_to_decimal(&ro));
    assert!(big_eq(&rst, &big_from_i64(st)), "step was {}", big_to_decimal(&rst));
}

#[test]
fn normalize_default_step_clamps_stop() {
    let mut m = machine();
    let s = make_slice(&mut m, None, Some(10), None);
    expect_triple(s.inner_indices(&big_from_i64(5)), 0, 5, 1);
}

#[test]
fn normalize_backwards_defaults() {
    let mut m = machine();
    let s = make_slice(&mut m, None, None, Some(-1));
    expect_triple(s.inner_indices(&big_from_i64(5)), 4, -1, -1);
}

#[test]
fn normalize_clamps_both_ends() {
    let mut m = machine();
    let s = make_slice(&mut m, Some(-100), Some(100), None);
    expect_triple(s.inner_indices(&big_from_i64(5)), 0, 5, 1);
}

#[test]
fn normalize_backwards_clamps() {
    let mut m = machine();
    let s = make_slice(&mut m, Some(100), Some(-100), Some(-2));
    expect_triple(s.inner_indices(&big_from_i64(5)), 4, -1, -2);
}

#[test]
fn normalize_empty_selection_is_valid() {
    let mut m = machine();
    let s = make_slice(&mut m, Some(3), Some(3), None);
    expect_triple(s.inner_indices(&big_from_i64(5)), 3, 3, 1);
}

#[test]
fn normalize_zero_length() {
    let mut m = machine();
    let s = make_slice(&mut m, Some(1), Some(4), None);
    expect_triple(s.inner_indices(&big_from_i64(0)), 0, 0, 1);
    let s = make_slice(&mut m, None, None, Some(-1));
    expect_triple(s.inner_indices(&big_from_i64(0)), -1, -1, -1);
}

#[test]
fn normalize_zero_step_fails() {
    let mut m = machine();
    let s = make_slice(&mut m, Some(1), Some(4), Some(0));
    let e = s.inner_indices(&big_from_i64(5)).unwrap_err();
    assert!(matches!(e.kind, ErrorKind::ValueError));
    assert_eq!(e.msg, "slice step cannot be zero");
}

#[test]
fn normalize_rejects_non_indexable_field() {
    let mut m = machine();
    let text = m.new_str(String::from("three"));
    let s = PySlice { start: None, stop: text, step: None };
    let e = s.inner_indices(&big_from_i64(5)).unwrap_err();
    assert!(matches!(e.kind, ErrorKind::TypeError));
    assert_eq!(
        e.msg,
        "slice indices must be integers or None or have an index capability"
    );
}

#[test]
fn normalize_bool_fields_have_index_capability() {
    let mut m = machine();
    let t = m.new_bool(true);
    let stop = int_val(&mut m, 4);
    let s = PySlice { start: Some(t), stop, step: None };
    expect_triple(s.inner_indices(&big_from_i64(5)), 1, 4, 1);
}

#[test]
fn normalize_large_values() {
    // Values beyond one base-2^32 digit exercise the arbitrary-precision
    // arithmetic: no truncation may happen.
    let mut m = machine();
    let s = make_slice(&mut m, Some(1 << 40), None, None);
    let length = big_from_i64((1 << 41) + 7);
    let (a, o, st) = s.inner_indices(&length).unwrap();
    assert!(big_eq(&a, &big_from_i64(1 << 40)));
    assert!(big_eq(&o, &length));
    assert!(big_eq(&st, &big_from_i64(1)));
    assert_eq!(big_to_decimal(&a), (1u64 << 40).to_string());
}

#[test]
fn normalize_negative_beyond_length_backwards() {
    let mut m = machine();
    let s = make_slice(&mut m, Some(-100), Some(-100), Some(-1));
    expect_triple(s.inner_indices(&big_from_i64(5)), -1, -1, -1);
}

#[test]
fn normalize_is_repeatable() {
    let mut m = machine();
    let s = make_slice(&mut m, Some(2), Some(9), Some(2));
    let first = s.inner_indices(&big_from_i64(6)).unwrap();
    let second = s.inner_indices(&big_from_i64(6)).unwrap();
    assert!(big_eq(&first.0, &second.0));
    assert!(big_eq(&first.1, &second.1));
    assert!(big_eq(&first.2, &second.2));
}

fn slice_value(m: &mut Machine, start: i64, stop: i64, step: Option<i64>) -> Value {
    let s = make_slice(m, Some(start), Some(stop), step);
    m.new_value(Kind::Slice(Box::new(s)))
}

fn cmp_slices(_m: &mut Machine, a: &Value, b: &Value, op: PyComparisonOp) -> bool {
    let pa = match &a.kind {
        Kind::Slice(p) => p,
        _ => panic!("not a slice"),
    };
    match pa.cmp(b, op).expect("comparison should be implemented") {
        ComparisonOutcome::Implemented(v) => v,
        ComparisonOutcome::NotImplemented => panic!("unexpected NotImplemented"),
    }
}

#[test]
fn equality_same_fields() {
    let mut m = machine();
    let a = slice_value(&mut m, 1, 2, Some(3));
    let b = slice_value(&mut m, 1, 2, Some(3));
    assert!(cmp_slices(&mut m, &a, &b, PyComparisonOp::Eq));
    assert!(!cmp_slices(&mut m, &a, &b, PyComparisonOp::Ne));
}

#[test]
fn equality_differs_on_missing_step() {
    let mut m = machine();
    let a = slice_value(&mut m, 1, 2, Some(3));
    let b = slice_value(&mut m, 1, 2, None);
    assert!(!cmp_slices(&mut m, &a, &b, PyComparisonOp::Eq));
    assert!(cmp_slices(&mut m, &a, &b, PyComparisonOp::Ne));
}

#[test]
fn equality_is_reflexive_and_symmetric() {
    let mut m = machine();
    let a = slice_value(&mut m, 1, 2, Some(3));
    let b = slice_value(&mut m, 1, 2, Some(3));
    assert!(cmp_slices(&mut m, &a, &a, PyComparisonOp::Eq));
    assert!(cmp_slices(&mut m, &b, &a, PyComparisonOp::Eq));
}

#[test]
fn absent_field_equals_stored_none() {
    let mut m = machine();
    let stop = int_val(&mut m, 2);
    let a = m.new_value(Kind::Slice(Box::new(PySlice { start: None, stop, step: None })));
    let stop2 = int_val(&mut m, 2);
    let b = m.new_value(Kind::Slice(Box::new(PySlice {
        start: Some(none_value()),
        stop: stop2,
        step: Some(none_value()),
    })));
    assert!(cmp_slices(&mut m, &a, &b, PyComparisonOp::Eq));
}

#[test]
fn ordering_differs_at_step() {
    let mut m = machine();
    let a = slice_value(&mut m, 1, 2, Some(3));
    let b = slice_value(&mut m, 1, 2, Some(4));
    assert!(cmp_slices(&mut m, &a, &b, PyComparisonOp::Lt));
}

#[test]
fn ordering_differs_at_stop() {
    let mut m = machine();
    let a = slice_value(&mut m, 1, 5, Some(1));
    let b = slice_value(&mut m, 1, 3, Some(1));
    assert!(!cmp_slices(&mut m, &a, &b, PyComparisonOp::Lt));
    assert!(cmp_slices(&mut m, &a, &b, PyComparisonOp::Gt));
}

#[test]
fn ordering_full_tie_uses_operator_default() {
    let mut m = machine();
    let a = slice_value(&mut m, 1, 2, Some(3));
    let b = slice_value(&mut m, 1, 2, Some(3));
    assert!(!cmp_slices(&mut m, &a, &b, PyComparisonOp::Lt));
    assert!(cmp_slices(&mut m, &a, &b, PyComparisonOp::Le));
    assert!(!cmp_slices(&mut m, &a, &b, PyComparisonOp::Gt));
    assert!(cmp_slices(&mut m, &a, &b, PyComparisonOp::Ge));
}

#[test]
fn comparison_with_other_kind_is_not_implemented() {
    let mut m = machine();
    let a = slice_value(&mut m, 1, 2, Some(3));
    let one = int_val(&mut m, 1);
    match &a.kind {
        Kind::Slice(p) => {
            let out = p.cmp(&one, PyComparisonOp::Eq).unwrap();
            assert!(matches!(out, ComparisonOutcome::NotImplemented));
        }
        _ => unreachable!(),
    }
}

#[test]
fn repr_matches_canonical_text() {
    let mut m = machine();
    let one = int_val(&mut m, 1);
    let two = int_val(&mut m, 2);
    let s = PySlice { start: Some(one), stop: none_value(), step: Some(two) };
    assert_eq!(s.repr(&m).unwrap(), "slice(1, None, 2)");
}

#[test]
fn repr_negative_and_nested() {
    let mut m = machine();
    let s = make_slice(&mut m, Some(-4), Some(100), None);
    assert_eq!(s.repr(&m).unwrap(), "slice(-4, 100, None)");
}

#[test]
fn hash_of_slice_fails_even_for_equal_slices() {
    let mut m = machine();
    let a = slice_value(&mut m, 1, 2, Some(3));
    let b = slice_value(&mut m, 1, 2, Some(3));
    assert!(cmp_slices(&mut m, &a, &b, PyComparisonOp::Eq));
    for v in [&a, &b] {
        let e = hash_value(&m, v).unwrap_err();
        assert!(matches!(e.kind, ErrorKind::TypeError));
        assert_eq!(e.msg, "unhashable type: 'slice'");
    }
}

#[test]
fn hash_of_int_is_identity_hash() {
    let mut m = machine();
    let one = int_val(&mut m, 1);
    let h = hash_value(&m, &one).unwrap();
    assert!(big_eq(&h, &pyvm::bignum::big_from_u64(one.id)));
}

fn bundle(args: Vec<Value>) -> ArgBundle {
    ArgBundle { args, kwargs: Vec::new() }
}

#[test]
fn construct_zero_args_fails() {
    let mut m = machine();
    let e = construct(&mut m, SLICE_TYPE, bundle(Vec::new())).unwrap_err();
    assert!(matches!(e.kind, ErrorKind::TypeError));
    assert_eq!(e.msg, "slice() must have at least one argument");
}

#[test]
fn construct_one_arg_sets_stop() {
    let mut m = machine();
    let ten = int_val(&mut m, 10);
    let v = construct(&mut m, SLICE_TYPE, bundle(vec![ten])).unwrap();
    match &v.kind {
        Kind::Slice(p) => {
            assert!(p.start.is_none());
            assert!(matches!(&p.stop.kind, Kind::Int(n) if big_eq(n, &big_from_i64(10))));
            assert!(p.step.is_none());
        }
        _ => panic!("expected a slice"),
    }
}

#[test]
fn construct_two_args_set_start_stop() {
    let mut m = machine();
    let one = int_val(&mut m, 1);
    let two = int_val(&mut m, 2);
    let v = construct(&mut m, SLICE_TYPE, bundle(vec![one, two])).unwrap();
    match &v.kind {
        Kind::Slice(p) => {
            assert!(matches!(&p.start, Some(s) if matches!(&s.kind, Kind::Int(n) if big_eq(n, &big_from_i64(1)))));
            assert!(matches!(&p.stop.kind, Kind::Int(n) if big_eq(n, &big_from_i64(2))));
            assert!(p.step.is_none());
        }
        _ => panic!("expected a slice"),
    }
}

#[test]
fn construct_three_args_set_all() {
    let mut m = machine();
    let one = int_val(&mut m, 1);
    let two = int_val(&mut m, 2);
    let three = int_val(&mut m, 3);
    let v = construct(&mut m, SLICE_TYPE, bundle(vec![one, two, three])).unwrap();
    match &v.kind {
        Kind::Slice(p) => {
            assert!(p.start.is_some());
            assert!(matches!(&p.step, Some(s) if matches!(&s.kind, Kind::Int(n) if big_eq(n, &big_from_i64(3)))));
        }
        _ => panic!("expected a slice"),
    }
}

#[test]
fn construct_four_args_fails() {
    let mut m = machine();
    let a = int_val(&mut m, 1);
    let b = int_val(&mut m, 2);
    let c = int_val(&mut m, 3);
    let d = int_val(&mut m, 4);
    let e = construct(&mut m, SLICE_TYPE, bundle(vec![a, b, c, d])).unwrap_err();
    assert!(matches!(e.kind, ErrorKind::TypeError));
}

#[test]
fn construct_keyword_fails() {
    let mut m = machine();
    let a = int_val(&mut m, 1);
    let kw = int_val(&mut m, 2);
    let args = ArgBundle { args: vec![a], kwargs: vec![(String::from("stop"), kw)] };
    let e = construct(&mut m, SLICE_TYPE, args).unwrap_err();
    assert!(matches!(e.kind, ErrorKind::TypeError));
}

#[test]
fn construct_abstract_root_fails() {
    let mut m = machine();
    let e = construct(&mut m, OBJECT_TYPE, bundle(Vec::new())).unwrap_err();
    assert!(matches!(e.kind, ErrorKind::TypeError));
}

#[test]
fn indices_on_integer_length() {
    let mut m = machine();
    let s = make_slice(&mut m, None, Some(10), None);
    let length = int_val(&mut m, 5);
    let v = s.indices(&length, &mut m).unwrap();
    match &v.kind {
        Kind::Tuple(els) => {
            assert_eq!(els.len(), 3);
            assert!(matches!(&els[0].kind, Kind::Int(n) if big_eq(n, &big_from_i64(0))));
            assert!(matches!(&els[1].kind, Kind::Int(n) if big_eq(n, &big_from_i64(5))));
            assert!(matches!(&els[2].kind, Kind::Int(n) if big_eq(n, &big_from_i64(1))));
        }
        _ => panic!("expected a tuple"),
    }
}

#[test]
fn indices_on_non_integer_is_not_implemented() {
    let mut m = machine();
    let s = make_slice(&mut m, None, Some(10), None);
    let length = m.new_str(String::from("five"));
    let v = s.indices(&length, &mut m).unwrap();
    assert!(matches!(v.kind, Kind::NotImplemented));
}

#[test]
fn richcompare_slice_against_int_defaults() {
    let mut m = machine();
    let a = slice_value(&mut m, 1, 2, Some(3));
    let one = int_val(&mut m, 1);
    let eq = richcompare(&mut m, &a, &one, PyComparisonOp::Eq).unwrap();
    assert!(matches!(eq.kind, Kind::Bool(false)));
    let ne = richcompare(&mut m, &a, &one, PyComparisonOp::Ne).unwrap();
    assert!(matches!(ne.kind, Kind::Bool(true)));
    let e = richcompare(&mut m, &one, &a, PyComparisonOp::Lt).unwrap_err();
    assert!(matches!(e.kind, ErrorKind::TypeError));
}

#[test]
fn richcompare_numeric_ordering() {
    let mut m = machine();
    let one = int_val(&mut m, 1);
    let two = int_val(&mut m, 2);
    let r = richcompare(&mut m, &one, &two, PyComparisonOp::Lt).unwrap();
    assert!(matches!(r.kind, Kind::Bool(true)));
    let t = m.new_bool(true);
    let one2 = int_val(&mut m, 1);
    let r = richcompare(&mut m, &t, &one2, PyComparisonOp::Eq).unwrap();
    assert!(matches!(r.kind, Kind::Bool(true)));
}

#[test]
fn ellipsis_repr_and_new() {
    let v = PyEllipsis::tp_new(0);
    assert!(matches!(v.kind, Kind::Ellipsis));
    let e = PyEllipsis;
    assert_eq!(e.repr(), "Ellipsis");
    assert_eq!(e.reduce(), "Ellipsis");
}

#[test]
fn repr_value_of_singletons() {
    let m = machine();
    assert_eq!(repr_value(&m, &none_value()), "None");
    assert_eq!(repr_value(&m, &pyvm::value::ellipsis_value()), "Ellipsis");
}

#[test]
fn accessors_read_stored_fields() {
    let mut m = machine();
    let one = int_val(&mut m, 1);
    let s = PySlice { start: Some(one), stop: none_value(), step: None };
    assert!(matches!(&s.start().kind, Kind::Int(n) if big_eq(n, &big_from_i64(1))));
    assert!(matches!(s.stop().kind, Kind::NoneVal));
    assert!(matches!(s.step().kind, Kind::NoneVal));
    let idx = s.start_index().unwrap();
    assert!(matches!(&idx, Some(n) if big_eq(n, &big_from_i64(1))));
    assert!(s.stop_index().unwrap().is_none());
    assert!(s.step_index().unwrap().is_none());
}
