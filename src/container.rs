//! The container kinds that the generic cursor knows how to walk.
use vstd::arithmetic::div_mod::{
    lemma_div_is_ordered_by_denominator, lemma_div_pos_is_pos, lemma_fundamental_div_mod,
};
use vstd::arithmetic::mul::lemma_mul_inequality;
use vstd::prelude::*;

verus! {

/// A reference to a runtime value, as the iteration protocol hands it out.
///
/// Integers are produced fresh by the cursor; any other value is named by its
/// identity and shared, never copied.
#[derive(Clone, Copy, Debug, PartialEq, Eq, Structural)]
pub enum PyObjectRef {
    Int(i64),
    Object(u64),
}

/// A numeric range `start, start + step, ...`, stopping before `stop`.
///
/// A range whose `step` is zero holds no element.
#[derive(Clone, Copy, Debug, PartialEq, Eq, Structural)]
pub struct PyRange {
    pub start: i64,
    pub stop: i64,
    pub step: i64,
}

impl PyRange {
    /// Number of elements of the range.
    pub open spec fn len_spec(self) -> int {
        if self.step > 0 && self.start < self.stop {
            (self.stop - self.start - 1) / (self.step as int) + 1
        } else if self.step < 0 && self.start > self.stop {
            (self.start - self.stop - 1) / (-(self.step as int)) + 1
        } else {
            0
        }
    }

    /// The element at logical index `i`.
    pub open spec fn item_spec(self, i: int) -> int {
        self.start + i * self.step
    }

    /// Every element lies between `start` (included) and `stop` (excluded),
    /// and the range holds fewer than `2^64` elements.
    pub proof fn lemma_items_in_bounds(self, i: int)
        requires
            0 <= i < self.len_spec(),
        ensures
            self.step > 0 ==> self.start <= self.item_spec(i) < self.stop,
            self.step < 0 ==> self.stop < self.item_spec(i) <= self.start,
            self.len_spec() <= u64::MAX,
    {
        if self.step > 0 {
            let d: int = self.stop - self.start - 1;
            let s: int = self.step as int;
            lemma_fundamental_div_mod(d, s);
            lemma_mul_inequality(i, d / s, s);
            lemma_div_is_ordered_by_denominator(d, 1, s);
            assert(i * s <= (d / s) * s);
            assert(s * (d / s) == (d / s) * s) by (nonlinear_arith);
            assert(0 <= d % s);
            assert(0 <= i * s) by (nonlinear_arith)
                requires
                    0 <= i,
                    0 < s,
            ;
        } else {
            let d: int = self.start - self.stop - 1;
            let s: int = -self.step;
            lemma_fundamental_div_mod(d, s);
            lemma_mul_inequality(i, d / s, s);
            lemma_div_is_ordered_by_denominator(d, 1, s);
            assert(s * (d / s) == (d / s) * s) by (nonlinear_arith);
            assert(0 <= d % s);
            assert(i * self.step == -(i * s)) by (nonlinear_arith)
                requires
                    s == -self.step,
            ;
            assert(0 <= i * s) by (nonlinear_arith)
                requires
                    0 <= i,
                    0 < s,
            ;
        }
    }

    /// The element at `index`, if the range has one there.
    pub fn get(&self, index: u64) -> (r: Option<i64>)
        ensures
            r == (if index < self.len_spec() {
                Some(self.item_spec(index as int) as i64)
            } else {
                None::<i64>
            }),
    {
        let start = self.start as i128;
        let stop = self.stop as i128;
        let step = self.step as i128;
        let len: u128 = if self.step > 0 && self.start < self.stop {
            ((stop - start - 1) as u128) / (step as u128) + 1
        } else if self.step < 0 && self.start > self.stop {
            ((start - stop - 1) as u128) / ((-step) as u128) + 1
        } else {
            0
        };
        if (index as u128) < len {
            proof {
                self.lemma_items_in_bounds(index as int);
            }
            let v: i128 = start + (index as i128) * step;
            Some(v as i64)
        } else {
            None
        }
    }
}

/// A value that the generic cursor can walk, classified once by kind.
#[derive(Debug)]
pub enum Container {
    /// A numeric range; its elements are produced as integers.
    Range(PyRange),
    /// An immutable byte string; its bytes are produced as integers.
    Bytes(Vec<u8>),
    /// A mutable byte buffer; its bytes are produced as integers, and its
    /// current length is read again on every step.
    ByteArray(Vec<u8>),
    /// Any other ordered sequence; its elements are handed out as they are.
    Sequence(Vec<PyObjectRef>),
}

impl Container {
    /// Number of elements the container holds now.
    pub open spec fn len_spec(&self) -> int {
        match self {
            Container::Range(r) => r.len_spec(),
            Container::Bytes(b) => b@.len() as int,
            Container::ByteArray(b) => b@.len() as int,
            Container::Sequence(s) => s@.len() as int,
        }
    }

    /// The element at index `i`, as the cursor produces it.
    pub open spec fn item_spec(&self, i: int) -> PyObjectRef {
        match self {
            Container::Range(r) => PyObjectRef::Int(r.item_spec(i) as i64),
            Container::Bytes(b) => PyObjectRef::Int(b@[i] as i64),
            Container::ByteArray(b) => PyObjectRef::Int(b@[i] as i64),
            Container::Sequence(s) => s@[i],
        }
    }

    /// The element count is never negative.
    pub proof fn lemma_len_nonneg(&self)
        ensures
            0 <= self.len_spec(),
    {
        if let Container::Range(r) = self {
            if r.step > 0 && r.start < r.stop {
                lemma_div_pos_is_pos(r.stop - r.start - 1, r.step as int);
                r.lemma_items_in_bounds(0);
            } else if r.step < 0 && r.start > r.stop {
                lemma_div_pos_is_pos(r.start - r.stop - 1, -r.step);
                r.lemma_items_in_bounds(0);
            }
        }
    }

    /// The element at `index`, if the container has one there.
    pub fn get(&self, index: u64) -> (r: Option<PyObjectRef>)
        ensures
            self.len_spec() <= u64::MAX,
            r == (if index < self.len_spec() {
                Some(self.item_spec(index as int))
            } else {
                None::<PyObjectRef>
            }),
    {
        proof {
            self.lemma_len_nonneg();
        }
        match self {
            Container::Range(range) => match range.get(index) {
                Some(v) => Some(PyObjectRef::Int(v)),
                None => None,
            },
            Container::Bytes(bytes) => {
                if (index as u128) < (bytes.len() as u128) {
                    Some(PyObjectRef::Int(bytes[index as usize] as i64))
                } else {
                    None
                }
            },
            Container::ByteArray(bytes) => {
                if (index as u128) < (bytes.len() as u128) {
                    Some(PyObjectRef::Int(bytes[index as usize] as i64))
                } else {
                    None
                }
            },
            Container::Sequence(elements) => {
                if (index as u128) < (elements.len() as u128) {
                    Some(elements[index as usize])
                } else {
                    None
                }
            },
        }
    }
}

} // verus!
