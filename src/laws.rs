//! Properties of the generic cursor that hold over whole runs of steps.
use crate::container::{Container, PyObjectRef};
use crate::objiter::{PyError, PyIteratorValue};
use vstd::prelude::*;

verus! {

/// `states` and `results` record a run of steps of a cursor: step `k` took
/// `states[k]` to `states[k + 1]` and returned `results[k]`.
pub open spec fn is_run(
    states: Seq<PyIteratorValue>,
    results: Seq<Result<PyObjectRef, PyError>>,
) -> bool {
    &&& states.len() == results.len() + 1
    &&& forall|k: int|
        0 <= k < results.len() ==> states[k].step_result(#[trigger] results[k], states[k + 1])
}

/// A cursor started at the front of a container of `n` elements produces
/// exactly those `n` elements, in the container's order, and signals
/// exhaustion on every step after them.
pub proof fn lemma_walk_in_order(
    states: Seq<PyIteratorValue>,
    results: Seq<Result<PyObjectRef, PyError>>,
)
    requires
        is_run(states, results),
        states[0].position == 0,
    ensures
        forall|k: int|
            0 <= k < results.len() && k < states[0].iterated_obj.len_spec() ==> #[trigger] results[k]
                == Ok::<PyObjectRef, PyError>(states[0].iterated_obj.item_spec(k)),
        forall|k: int|
            0 <= k < results.len() && k >= states[0].iterated_obj.len_spec() ==> {
                &&& #[trigger] results[k] is Err
                &&& results[k]->Err_0.is_exhaustion()
            },
{
    let c = states[0].iterated_obj;
    c.lemma_len_nonneg();
    assert forall|k: int| 0 <= k < states.len() implies {
        &&& #[trigger] states[k].iterated_obj == c
        &&& states[k].position == if k < c.len_spec() {
            k
        } else {
            c.len_spec()
        }
    } by {
        lemma_run_position(states, results, k);
    }
    assert forall|k: int|
        0 <= k < results.len() && k < c.len_spec() implies #[trigger] results[k] == Ok::<
            PyObjectRef,
            PyError,
        >(c.item_spec(k)) by {
        assert(states[k].iterated_obj == c);
        assert(states[k].step_result(results[k], states[k + 1]));
    }
    assert forall|k: int| 0 <= k < results.len() && k >= c.len_spec() implies {
        &&& #[trigger] results[k] is Err
        &&& results[k]->Err_0.is_exhaustion()
    } by {
        assert(states[k].iterated_obj == c);
        assert(states[k].step_result(results[k], states[k + 1]));
    }
}

proof fn lemma_run_position(
    states: Seq<PyIteratorValue>,
    results: Seq<Result<PyObjectRef, PyError>>,
    k: int,
)
    requires
        is_run(states, results),
        states[0].position == 0,
        0 <= k < states.len(),
    ensures
        states[k].iterated_obj == states[0].iterated_obj,
        states[k].position == if k < states[0].iterated_obj.len_spec() {
            k
        } else {
            states[0].iterated_obj.len_spec()
        },
    decreases k,
{
    states[0].iterated_obj.lemma_len_nonneg();
    if k > 0 {
        lemma_run_position(states, results, k - 1);
        assert(states[k - 1].step_result(results[k - 1], states[k]));
    }
}

/// On an empty container the very first step signals exhaustion.
pub proof fn lemma_empty_exhausts(
    it: PyIteratorValue,
    r: Result<PyObjectRef, PyError>,
    after: PyIteratorValue,
)
    requires
        it.iterated_obj.len_spec() == 0,
        it.step_result(r, after),
    ensures
        r is Err,
        r->Err_0.is_exhaustion(),
        after == it,
{
}

/// Once a step has signalled exhaustion, every later step signals it too and
/// leaves the cursor as it was.
pub proof fn lemma_exhaustion_is_final(
    states: Seq<PyIteratorValue>,
    results: Seq<Result<PyObjectRef, PyError>>,
)
    requires
        is_run(states, results),
        results.len() > 0,
        results[0] is Err,
    ensures
        forall|k: int| 0 <= k < states.len() ==> #[trigger] states[k] == states[0],
        forall|k: int|
            0 <= k < results.len() ==> {
                &&& #[trigger] results[k] is Err
                &&& results[k]->Err_0.is_exhaustion()
            },
{
    assert forall|k: int| 0 <= k < states.len() implies #[trigger] states[k] == states[0] by {
        lemma_exhausted_run_stays(states, results, k);
    }
    assert forall|k: int| 0 <= k < results.len() implies {
        &&& #[trigger] results[k] is Err
        &&& results[k]->Err_0.is_exhaustion()
    } by {
        lemma_exhausted_run_stays(states, results, k);
        assert(states[k].step_result(results[k], states[k + 1]));
    }
}

proof fn lemma_exhausted_run_stays(
    states: Seq<PyIteratorValue>,
    results: Seq<Result<PyObjectRef, PyError>>,
    k: int,
)
    requires
        is_run(states, results),
        results.len() > 0,
        results[0] is Err,
        0 <= k < states.len(),
    ensures
        states[k] == states[0],
    decreases k,
{
    assert(states[0].step_result(results[0], states[1]));
    if k > 1 {
        lemma_exhausted_run_stays(states, results, k - 1);
        assert(states[k - 1].step_result(results[k - 1], states[k]));
    }
}

/// The bytes of a byte-buffer cursor's container.
pub open spec fn buffer_bytes(it: PyIteratorValue) -> Seq<u8> {
    match it.iterated_obj {
        Container::ByteArray(b) => b@,
        _ => Seq::empty(),
    }
}

/// A byte appended to a buffer is still ahead of a cursor that has not gone
/// past the buffer's end: the cursor will produce it after what it had left.
pub proof fn lemma_buffer_append_visible(before: PyIteratorValue, after: PyIteratorValue, x: u8)
    requires
        before.iterated_obj is ByteArray,
        after.iterated_obj is ByteArray,
        buffer_bytes(after) == buffer_bytes(before).push(x),
        after.position == before.position,
        before.position <= buffer_bytes(before).len(),
    ensures
        after.has_next(),
        after.remaining() == before.remaining().push(PyObjectRef::Int(x as i64)),
{
    assert(after.remaining() =~= before.remaining().push(PyObjectRef::Int(x as i64)));
}

/// A byte removed ahead of a buffer cursor is skipped: the cursor produces
/// what it had left, without that byte.
pub proof fn lemma_buffer_removal_skips(before: PyIteratorValue, after: PyIteratorValue, i: int)
    requires
        before.iterated_obj is ByteArray,
        after.iterated_obj is ByteArray,
        before.position <= i < buffer_bytes(before).len(),
        buffer_bytes(after) == buffer_bytes(before).remove(i),
        after.position == before.position,
    ensures
        after.remaining() == before.remaining().remove(i - before.position),
{
    assert(after.remaining() =~= before.remaining().remove(i - before.position));
}

/// A buffer cut down to no more bytes than a cursor has passed leaves that
/// cursor exhausted.
pub proof fn lemma_buffer_truncation_exhausts(
    before: PyIteratorValue,
    after: PyIteratorValue,
    n: int,
)
    requires
        before.iterated_obj is ByteArray,
        after.iterated_obj is ByteArray,
        0 <= n <= before.position,
        n <= buffer_bytes(before).len(),
        buffer_bytes(after) == buffer_bytes(before).take(n),
        after.position == before.position,
    ensures
        !after.has_next(),
        after.remaining().len() == 0,
{
}

} // verus!
