use pyiter::container::{Container, PyObjectRef, PyRange};
use pyiter::objiter::{
    call_next, exhaustion_to_none, get_all, get_iter, get_next_object, init, new_stop_iteration,
    ErrorKind, PyContext, PyError, PyIteratorValue, PyObject,
};

fn ready_context() -> PyContext {
    let mut ctx = PyContext::new();
    init(&mut ctx);
    ctx
}

fn cursor_over(vm: &PyContext, c: Container) -> PyObject {
    match get_iter(vm, PyObject::Container(c)) {
        Ok(it) => it,
        Err(e) => panic!("no iterator: {}", e.message),
    }
}

fn assert_exhausted(r: Result<PyObjectRef, PyError>) {
    match r {
        Err(e) => {
            assert_eq!(e.kind, ErrorKind::StopIteration);
            assert_eq!(e.message, "End of iterator");
        }
        Ok(v) => panic!("expected exhaustion, got {:?}", v),
    }
}

fn position_of(obj: &PyObject) -> u64 {
    match obj {
        PyObject::Iterator(it) => it.position,
        _ => panic!("not a cursor"),
    }
}

#[test]
fn range_ascending_walk() {
    let vm = ready_context();
    let mut it = cursor_over(&vm, Container::Range(PyRange { start: 0, stop: 10, step: 3 }));
    for expected in [0i64, 3, 6, 9] {
        assert_eq!(call_next(&vm, &mut it).unwrap(), PyObjectRef::Int(expected));
    }
    assert_exhausted(call_next(&vm, &mut it));
    assert_eq!(position_of(&it), 4);
}

#[test]
fn range_descending_walk() {
    let vm = ready_context();
    let mut it = cursor_over(&vm, Container::Range(PyRange { start: 5, stop: -1, step: -2 }));
    let all = get_all(&vm, &mut it).unwrap();
    assert_eq!(all, vec![PyObjectRef::Int(5), PyObjectRef::Int(3), PyObjectRef::Int(1)]);
}

#[test]
fn range_extremes() {
    let r = PyRange { start: i64::MIN, stop: i64::MAX, step: i64::MAX };
    assert_eq!(r.get(0), Some(i64::MIN));
    assert_eq!(r.get(1), Some(-1));
    assert_eq!(r.get(2), Some(i64::MAX - 1));
    assert_eq!(r.get(3), None);
    let full = PyRange { start: i64::MIN, stop: i64::MAX, step: 1 };
    assert_eq!(full.get(u64::MAX - 1), Some(i64::MAX - 1));
    assert_eq!(full.get(u64::MAX), None);
}

#[test]
fn range_empty_and_zero_step() {
    assert_eq!(PyRange { start: 3, stop: 3, step: 1 }.get(0), None);
    assert_eq!(PyRange { start: 5, stop: 1, step: 1 }.get(0), None);
    assert_eq!(PyRange { start: 1, stop: 5, step: -1 }.get(0), None);
    assert_eq!(PyRange { start: 1, stop: 5, step: 0 }.get(0), None);
}

#[test]
fn bytes_produce_integers() {
    let vm = ready_context();
    let mut it = cursor_over(&vm, Container::Bytes(vec![7, 255, 0]));
    assert_eq!(call_next(&vm, &mut it).unwrap(), PyObjectRef::Int(7));
    assert_eq!(call_next(&vm, &mut it).unwrap(), PyObjectRef::Int(255));
    assert_eq!(call_next(&vm, &mut it).unwrap(), PyObjectRef::Int(0));
    assert_exhausted(call_next(&vm, &mut it));
}

#[test]
fn sequence_walk_in_order_then_exhausted() {
    let vm = ready_context();
    let items = vec![PyObjectRef::Object(11), PyObjectRef::Int(-4), PyObjectRef::Object(2)];
    let mut it = cursor_over(&vm, Container::Sequence(items.clone()));
    for item in items {
        assert_eq!(call_next(&vm, &mut it).unwrap(), item);
    }
    for _ in 0..3 {
        assert_exhausted(call_next(&vm, &mut it));
        assert_eq!(position_of(&it), 3);
    }
}

#[test]
fn empty_container_exhausts_at_once() {
    let vm = ready_context();
    for c in [
        Container::Sequence(vec![]),
        Container::Bytes(vec![]),
        Container::ByteArray(vec![]),
        Container::Range(PyRange { start: 0, stop: 0, step: 1 }),
    ] {
        let mut it = cursor_over(&vm, c);
        assert_exhausted(call_next(&vm, &mut it));
        assert_eq!(position_of(&it), 0);
    }
}

#[test]
fn exhaustion_repeats() {
    let mut cursor = PyIteratorValue::new(Container::Bytes(vec![1]));
    assert_eq!(cursor.next().unwrap(), PyObjectRef::Int(1));
    for _ in 0..5 {
        assert_exhausted(cursor.next());
        assert_eq!(cursor.position, 1);
    }
}

#[test]
fn buffer_append_is_seen() {
    let mut cursor = PyIteratorValue::new(Container::ByteArray(vec![1, 2]));
    assert_eq!(cursor.next().unwrap(), PyObjectRef::Int(1));
    assert_eq!(cursor.next().unwrap(), PyObjectRef::Int(2));
    assert_exhausted(cursor.next());
    if let Container::ByteArray(b) = &mut cursor.iterated_obj {
        b.push(3);
    }
    assert_eq!(cursor.next().unwrap(), PyObjectRef::Int(3));
    assert_exhausted(cursor.next());
}

#[test]
fn buffer_removal_skips_element() {
    let mut cursor = PyIteratorValue::new(Container::ByteArray(vec![10, 20, 30, 40]));
    assert_eq!(cursor.next().unwrap(), PyObjectRef::Int(10));
    if let Container::ByteArray(b) = &mut cursor.iterated_obj {
        b.remove(0);
    }
    assert_eq!(cursor.next().unwrap(), PyObjectRef::Int(30));
    assert_eq!(cursor.next().unwrap(), PyObjectRef::Int(40));
    assert_exhausted(cursor.next());
}

#[test]
fn buffer_truncation_exhausts_early() {
    let mut cursor = PyIteratorValue::new(Container::ByteArray(vec![10, 20, 30, 40]));
    assert_eq!(cursor.next().unwrap(), PyObjectRef::Int(10));
    assert_eq!(cursor.next().unwrap(), PyObjectRef::Int(20));
    if let Container::ByteArray(b) = &mut cursor.iterated_obj {
        b.truncate(1);
    }
    assert_exhausted(cursor.next());
    assert_eq!(cursor.position, 2);
}

#[test]
fn drain_three_in_order() {
    let vm = ready_context();
    let (a, b, c) = (PyObjectRef::Object(1), PyObjectRef::Object(2), PyObjectRef::Int(3));
    let mut it = cursor_over(&vm, Container::Sequence(vec![a, b, c]));
    assert_eq!(get_all(&vm, &mut it).unwrap(), vec![a, b, c]);
    assert_eq!(get_next_object(&vm, &mut it).unwrap(), None);
    assert_exhausted(call_next(&vm, &mut it));
}

#[test]
fn drain_after_partial_walk() {
    let vm = ready_context();
    let mut it = cursor_over(&vm, Container::Bytes(vec![4, 5, 6]));
    assert_eq!(get_next_object(&vm, &mut it).unwrap(), Some(PyObjectRef::Int(4)));
    assert_eq!(get_all(&vm, &mut it).unwrap(), vec![PyObjectRef::Int(5), PyObjectRef::Int(6)]);
    assert_eq!(get_all(&vm, &mut it).unwrap(), vec![]);
}

#[test]
fn iter_of_cursor_is_itself() {
    let vm = ready_context();
    let mut it = cursor_over(&vm, Container::Bytes(vec![1, 2, 3]));
    assert_eq!(call_next(&vm, &mut it).unwrap(), PyObjectRef::Int(1));
    let mut again = get_iter(&vm, it).unwrap();
    assert_eq!(position_of(&again), 1);
    assert_eq!(call_next(&vm, &mut again).unwrap(), PyObjectRef::Int(2));

    let cursor = PyIteratorValue::new(Container::Bytes(vec![9]));
    let same = cursor.iter();
    assert_eq!(same.position, 0);
    assert!(matches!(same.iterated_obj, Container::Bytes(ref b) if b == &vec![9]));
}

#[test]
fn plain_value_is_not_iterable() {
    let vm = ready_context();
    let e = get_iter(&vm, PyObject::Plain(PyObjectRef::Int(1))).unwrap_err();
    assert_eq!(e.kind, ErrorKind::TypeError);
    assert_eq!(e.message, "object is not iterable");
}

#[test]
fn unregistered_iterator_type_refuses() {
    let vm = PyContext::new();
    let mut it = PyObject::Iterator(PyIteratorValue::new(Container::Bytes(vec![1])));
    let e = call_next(&vm, &mut it).unwrap_err();
    assert_eq!(e.kind, ErrorKind::TypeError);
    assert_eq!(e.message, "object is not an iterator");
    assert_eq!(position_of(&it), 0);
    let e = get_iter(&vm, it).unwrap_err();
    assert_eq!(e.message, "object is not iterable");
}

#[test]
fn container_is_not_an_iterator() {
    let vm = ready_context();
    let mut obj = PyObject::Container(Container::Bytes(vec![1]));
    let e = get_next_object(&vm, &mut obj).unwrap_err();
    assert_eq!(e.kind, ErrorKind::TypeError);
    assert_eq!(e.message, "object is not an iterator");
    let e = get_all(&vm, &mut obj).unwrap_err();
    assert_eq!(e.kind, ErrorKind::TypeError);
    let mut plain = PyObject::Plain(PyObjectRef::Object(5));
    assert!(get_all(&vm, &mut plain).is_err());
}

#[test]
fn exhaustion_becomes_none_other_errors_pass() {
    assert_eq!(exhaustion_to_none(Ok(PyObjectRef::Int(8))).unwrap(), Some(PyObjectRef::Int(8)));
    assert_eq!(exhaustion_to_none(Err(new_stop_iteration())).unwrap(), None);
    let other = PyError { kind: ErrorKind::TypeError, message: "boom".to_string() };
    let e = exhaustion_to_none(Err(other)).unwrap_err();
    assert_eq!(e.kind, ErrorKind::TypeError);
    assert_eq!(e.message, "boom");
}

#[test]
fn stop_signal_message() {
    let e = new_stop_iteration();
    assert_eq!(e.kind, ErrorKind::StopIteration);
    assert_eq!(e.message, "End of iterator");
}

#[test]
fn init_registers_capabilities() {
    let mut ctx = PyContext::new();
    assert!(!ctx.iter_type.has_next && !ctx.iter_type.has_iter && ctx.iter_type.doc.is_none());
    init(&mut ctx);
    assert!(ctx.iter_type.has_next);
    assert!(ctx.iter_type.has_iter);
    let doc = ctx.iter_type.doc.unwrap();
    assert!(doc.starts_with("iter(iterable) -> iterator\niter(callable, sentinel) -> iterator\n\n"));
    assert!(doc.ends_with("until it returns the sentinel."));
}

#[test]
fn container_get_dispatches_by_kind() {
    assert_eq!(Container::Range(PyRange { start: 2, stop: 4, step: 1 }).get(1), Some(PyObjectRef::Int(3)));
    assert_eq!(Container::ByteArray(vec![9, 8]).get(1), Some(PyObjectRef::Int(8)));
    assert_eq!(Container::Sequence(vec![PyObjectRef::Object(3)]).get(0), Some(PyObjectRef::Object(3)));
    assert_eq!(Container::Sequence(vec![PyObjectRef::Object(3)]).get(1), None);
}
