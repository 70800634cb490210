//! The iteration protocol: obtaining an iterator, advancing it, and draining it.
use crate::container::{Container, PyObjectRef};
use vstd::prelude::*;

verus! {

/// The kinds of error that the protocol tells apart.
#[derive(Clone, Copy, Debug, PartialEq, Eq, Structural)]
pub enum ErrorKind {
    /// The control signal that an iterator has no more elements.
    StopIteration,
    /// A value lacks the capability that was asked of it.
    TypeError,
}

/// A runtime error: its kind and a message.
#[derive(Debug)]
pub struct PyError {
    pub kind: ErrorKind,
    pub message: String,
}

/// Message carried by the exhaustion signal.
pub open spec fn stop_message() -> Seq<char> {
    "End of iterator"@
}

/// Message of the error for a value that cannot give an iterator.
pub open spec fn not_iterable_message() -> Seq<char> {
    "object is not iterable"@
}

/// Message of the error for a value that cannot be advanced.
pub open spec fn not_iterator_message() -> Seq<char> {
    "object is not an iterator"@
}

/// Description of the iterator type, as registered on it.
pub open spec fn iter_doc() -> Seq<char> {
    "iter(iterable) -> iterator\n\
     iter(callable, sentinel) -> iterator\n\n\
     Get an iterator from an object.  In the first form, the argument must\n\
     supply its own iterator, or be a sequence.\n\
     In the second form, the callable is called until it returns the sentinel."@
}

impl PyError {
    /// This error is the exhaustion signal.
    pub open spec fn is_exhaustion(&self) -> bool {
        self.kind == ErrorKind::StopIteration && self.message@ == stop_message()
    }

    /// This error is a type error with the given message.
    pub open spec fn is_type_error(&self, message: Seq<char>) -> bool {
        self.kind == ErrorKind::TypeError && self.message@ == message
    }
}

/// A fresh exhaustion signal.
pub fn new_stop_iteration() -> (r: PyError)
    ensures
        r.is_exhaustion(),
{
    PyError { kind: ErrorKind::StopIteration, message: "End of iterator".to_string() }
}

fn new_type_error(message: &str) -> (r: PyError)
    ensures
        r.kind == ErrorKind::TypeError,
        r.message@ == message@,
{
    PyError { kind: ErrorKind::TypeError, message: message.to_string() }
}

/// The generic cursor: a position in a container, advanced one element at a
/// time.
///
/// The container is read afresh on every step, so a change to it between
/// steps is seen by the next one.
#[derive(Debug)]
pub struct PyIteratorValue {
    pub position: u64,
    pub iterated_obj: Container,
}

impl PyIteratorValue {
    /// The cursor has an element at its position.
    pub open spec fn has_next(&self) -> bool {
        self.position < self.iterated_obj.len_spec()
    }

    /// The element at the cursor's position.
    pub open spec fn current(&self) -> PyObjectRef {
        self.iterated_obj.item_spec(self.position as int)
    }

    /// What one step does: the element at the position, with the position
    /// moved past it; or the exhaustion signal, with the cursor unchanged.
    pub open spec fn step_result(self, r: Result<PyObjectRef, PyError>, after: PyIteratorValue) -> bool {
        if self.has_next() {
            &&& r == Ok::<PyObjectRef, PyError>(self.current())
            &&& after.position == self.position + 1
            &&& after.iterated_obj == self.iterated_obj
        } else {
            r is Err && r->Err_0.is_exhaustion() && after == self
        }
    }

    /// The elements that the cursor has yet to produce, in order.
    pub open spec fn remaining(&self) -> Seq<PyObjectRef> {
        let n = if self.has_next() {
            (self.iterated_obj.len_spec() - self.position) as nat
        } else {
            0nat
        };
        Seq::new(n, |i: int| self.iterated_obj.item_spec(self.position + i))
    }

    /// A cursor at the start of `iterated_obj`.
    pub fn new(iterated_obj: Container) -> (r: PyIteratorValue)
        ensures
            r.position == 0,
            r.iterated_obj == iterated_obj,
    {
        PyIteratorValue { position: 0, iterated_obj }
    }

    /// Advances the cursor by one element.
    pub fn next(&mut self) -> (r: Result<PyObjectRef, PyError>)
        ensures
            old(self).step_result(r, *final(self)),
    {
        match self.iterated_obj.get(self.position) {
            Some(v) => {
                self.position = self.position + 1;
                Ok(v)
            },
            None => Err(new_stop_iteration()),
        }
    }

    /// A cursor is its own iterator.
    pub fn iter(self) -> (r: PyIteratorValue)
        ensures
            r == self,
    {
        self
    }
}

/// A runtime value, as far as the iteration protocol is concerned.
#[derive(Debug)]
pub enum PyObject {
    /// A value with no iteration capability.
    Plain(PyObjectRef),
    /// A container that the generic cursor walks.
    Container(Container),
    /// A generic cursor.
    Iterator(PyIteratorValue),
}

/// The capabilities registered on the iterator type.
#[derive(Debug)]
pub struct IterType {
    /// `__next__` is registered.
    pub has_next: bool,
    /// `__iter__` is registered.
    pub has_iter: bool,
    /// The type's description, once registered.
    pub doc: Option<String>,
}

/// The runtime context that method lookup goes through.
#[derive(Debug)]
pub struct PyContext {
    pub iter_type: IterType,
}

impl PyContext {
    /// A context on which nothing is registered yet.
    pub fn new() -> (r: PyContext)
        ensures
            !r.iter_type.has_next,
            !r.iter_type.has_iter,
            r.iter_type.doc is None,
    {
        PyContext { iter_type: IterType { has_next: false, has_iter: false, doc: None } }
    }
}

/// Registers the cursor's capabilities and description on the iterator type.
pub fn init(context: &mut PyContext)
    ensures
        final(context).iter_type.has_next,
        final(context).iter_type.has_iter,
        final(context).iter_type.doc is Some,
        final(context).iter_type.doc->Some_0@ == iter_doc(),
{
    let iter_doc = "iter(iterable) -> iterator\n\
                    iter(callable, sentinel) -> iterator\n\n\
                    Get an iterator from an object.  In the first form, the argument must\n\
                    supply its own iterator, or be a sequence.\n\
                    In the second form, the callable is called until it returns the sentinel.";
    context.iter_type.has_next = true;
    context.iter_type.has_iter = true;
    context.iter_type.doc = Some(iter_doc.to_string());
}

/// `obj` is a cursor and `__next__` is registered on the iterator type.
pub open spec fn can_advance(ctx: &PyContext, obj: PyObject) -> bool {
    obj is Iterator && ctx.iter_type.has_next
}

/// Asks `iter_target` for an iterator: a container gives a fresh cursor at its
/// start, and a cursor gives itself.
pub fn get_iter(vm: &PyContext, iter_target: PyObject) -> (r: Result<PyObject, PyError>)
    ensures
        match iter_target {
            PyObject::Container(c) => r == Ok::<PyObject, PyError>(
                PyObject::Iterator(PyIteratorValue { position: 0, iterated_obj: c }),
            ),
            PyObject::Iterator(it) => if vm.iter_type.has_iter {
                r == Ok::<PyObject, PyError>(PyObject::Iterator(it))
            } else {
                r is Err && r->Err_0.is_type_error(not_iterable_message())
            },
            PyObject::Plain(_) => r is Err && r->Err_0.is_type_error(not_iterable_message()),
        },
{
    match iter_target {
        PyObject::Container(c) => Ok(PyObject::Iterator(PyIteratorValue::new(c))),
        PyObject::Iterator(it) => {
            if vm.iter_type.has_iter {
                Ok(PyObject::Iterator(it.iter()))
            } else {
                Err(new_type_error("object is not iterable"))
            }
        },
        PyObject::Plain(_) => Err(new_type_error("object is not iterable")),
    }
}

/// Advances `iter_obj` by one step through its `__next__` capability.
pub fn call_next(vm: &PyContext, iter_obj: &mut PyObject) -> (r: Result<PyObjectRef, PyError>)
    ensures
        can_advance(vm, *old(iter_obj)) ==> {
            &&& *final(iter_obj) is Iterator
            &&& old(iter_obj)->Iterator_0.step_result(r, final(iter_obj)->Iterator_0)
        },
        !can_advance(vm, *old(iter_obj)) ==> {
            &&& r is Err
            &&& r->Err_0.is_type_error(not_iterator_message())
            &&& *final(iter_obj) == *old(iter_obj)
        },
{
    match iter_obj {
        PyObject::Iterator(it) => {
            if vm.iter_type.has_next {
                it.next()
            } else {
                Err(new_type_error("object is not an iterator"))
            }
        },
        _ => Err(new_type_error("object is not an iterator")),
    }
}

/// Turns the exhaustion signal into "no value"; a value becomes `Some`, and
/// any other error is passed on unchanged.
pub fn exhaustion_to_none(next_obj: Result<PyObjectRef, PyError>) -> (r: Result<
    Option<PyObjectRef>,
    PyError,
>)
    ensures
        r == match next_obj {
            Ok(value) => Ok::<Option<PyObjectRef>, PyError>(Some(value)),
            Err(e) => if e.kind == ErrorKind::StopIteration {
                Ok::<Option<PyObjectRef>, PyError>(None)
            } else {
                Err::<Option<PyObjectRef>, PyError>(e)
            },
        },
{
    match next_obj {
        Ok(value) => Ok(Some(value)),
        Err(next_error) => {
            if next_error.kind == ErrorKind::StopIteration {
                Ok(None)
            } else {
                Err(next_error)
            }
        },
    }
}

/// The next element of `iter_obj`, or `None` once it is exhausted.
pub fn get_next_object(vm: &PyContext, iter_obj: &mut PyObject) -> (r: Result<
    Option<PyObjectRef>,
    PyError,
>)
    ensures
        can_advance(vm, *old(iter_obj)) ==> {
            let it = old(iter_obj)->Iterator_0;
            &&& *final(iter_obj) is Iterator
            &&& if it.has_next() {
                &&& r == Ok::<Option<PyObjectRef>, PyError>(Some(it.current()))
                &&& final(iter_obj)->Iterator_0.position == it.position + 1
                &&& final(iter_obj)->Iterator_0.iterated_obj == it.iterated_obj
            } else {
                &&& r == Ok::<Option<PyObjectRef>, PyError>(None)
                &&& *final(iter_obj) == *old(iter_obj)
            }
        },
        !can_advance(vm, *old(iter_obj)) ==> {
            &&& r is Err
            &&& r->Err_0.is_type_error(not_iterator_message())
            &&& *final(iter_obj) == *old(iter_obj)
        },
{
    let next_obj = call_next(vm, iter_obj);
    exhaustion_to_none(next_obj)
}

/// Elements that are left to a cursor, or none for any other value.
pub open spec fn left_to_produce(obj: PyObject) -> int {
    if obj is Iterator && obj->Iterator_0.has_next() {
        obj->Iterator_0.iterated_obj.len_spec() - obj->Iterator_0.position
    } else {
        0
    }
}

/// Drains `iter_obj`: every element it has left, in order, leaving it exhausted.
pub fn get_all(vm: &PyContext, iter_obj: &mut PyObject) -> (r: Result<Vec<PyObjectRef>, PyError>)
    ensures
        can_advance(vm, *old(iter_obj)) ==> {
            let it = old(iter_obj)->Iterator_0;
            &&& r is Ok
            &&& r->Ok_0@ == it.remaining()
            &&& *final(iter_obj) is Iterator
            &&& final(iter_obj)->Iterator_0.iterated_obj == it.iterated_obj
            &&& !final(iter_obj)->Iterator_0.has_next()
            &&& final(iter_obj)->Iterator_0.position == if it.has_next() {
                it.iterated_obj.len_spec()
            } else {
                it.position as int
            }
        },
        !can_advance(vm, *old(iter_obj)) ==> {
            &&& r is Err
            &&& r->Err_0.is_type_error(not_iterator_message())
            &&& *final(iter_obj) == *old(iter_obj)
        },
{
    let ghost start = *iter_obj;
    let mut elements: Vec<PyObjectRef> = Vec::new();
    loop
        invariant
            start == *old(iter_obj),
            can_advance(vm, start) ==> {
                let it = start->Iterator_0;
                let cur = iter_obj->Iterator_0;
                &&& *iter_obj is Iterator
                &&& cur.iterated_obj == it.iterated_obj
                &&& it.position <= cur.position
                &&& it.has_next() ==> cur.position <= it.iterated_obj.len_spec()
                &&& !it.has_next() ==> cur == it
                &&& elements@ == it.remaining().take(cur.position - it.position)
            },
            !can_advance(vm, start) ==> *iter_obj == start && elements@.len() == 0,
        ensures
            can_advance(vm, start),
            can_advance(vm, start) ==> {
                let it = start->Iterator_0;
                let cur = iter_obj->Iterator_0;
                &&& elements@ == it.remaining()
                &&& *iter_obj is Iterator
                &&& cur.iterated_obj == it.iterated_obj
                &&& !cur.has_next()
                &&& cur.position == if it.has_next() {
                    it.iterated_obj.len_spec()
                } else {
                    it.position as int
                }
            },
        decreases left_to_produce(*iter_obj),
    {
        let ghost before = *iter_obj;
        match get_next_object(vm, iter_obj) {
            Ok(Some(v)) => {
                proof {
                    let it = start->Iterator_0;
                    let k = before->Iterator_0.position - it.position;
                    assert(it.remaining().take(k + 1) =~= it.remaining().take(k).push(v));
                }
                elements.push(v);
            },
            Ok(None) => {
                proof {
                    let it = start->Iterator_0;
                    if can_advance(vm, start) && it.has_next() {
                        assert(it.remaining().take(
                            it.iterated_obj.len_spec() - it.position,
                        ) =~= it.remaining());
                    }
                }
                break ;
            },
            Err(e) => {
                return Err(e);
            },
        }
    }
    Ok(elements)
}

} // verus!
