use vstd::prelude::*;

verus! {

/// The fixed capacity of a result batch: an indicator or strategy emits at
/// most this many values (and signals) on one step.
pub const RESULT_SIZE: usize = 4;

/// A bounded, allocation-free batch of raw values produced by one indicator
/// step. Holds up to [`RESULT_SIZE`] values in a stack-resident array; the
/// construction truncates silently when more values are supplied.
#[derive(Clone, Copy, Debug)]
pub struct IndicatorResult {
    values: [i64; 4],
    length: u8,
}

impl View for IndicatorResult {
    type V = Seq<i64>;

    /// The batch as a sequence: exactly the first `length` stored values.
    closed spec fn view(&self) -> Seq<i64> {
        self.values@.take(self.length as int)
    }
}

impl IndicatorResult {
    /// The batch never holds more than the fixed capacity.
    pub closed spec fn wf(&self) -> bool {
        self.length as int <= 4
    }

    /// How many values the batch holds.
    pub open spec fn length_spec(&self) -> int {
        self@.len() as int
    }

    /// Creates a batch holding the first values of the given slice, in their
    /// original order, truncated to the fixed capacity. Never fails: excess
    /// values are dropped, not an error.
    pub fn new(values_slice: &[i64]) -> (r: Self)
        ensures
            r.wf(),
            r@ == values_slice@.take(if values_slice@.len() < 4 {
                values_slice@.len() as int
            } else {
                4
            }),
    {
        let n = values_slice.len();
        let len: usize = if n < RESULT_SIZE {
            n
        } else {
            RESULT_SIZE
        };
        let v0: i64 = if len > 0 {
            values_slice[0]
        } else {
            0
        };
        let v1: i64 = if len > 1 {
            values_slice[1]
        } else {
            0
        };
        let v2: i64 = if len > 2 {
            values_slice[2]
        } else {
            0
        };
        let v3: i64 = if len > 3 {
            values_slice[3]
        } else {
            0
        };
        let r = IndicatorResult { values: [v0, v1, v2, v3], length: len as u8 };
        proof {
            assert(r@ =~= values_slice@.take(len as int));
        }
        r
    }

    /// Returns the raw values of this result, in their original order: a
    /// borrowed slice of exactly the first `length` stored slots.
    pub fn values(&self) -> (r: &[i64])
        requires
            self.wf(),
        ensures
            r@ == self@,
    {
        let len = self.length as usize;
        let r = vstd::slice::slice_subrange(
            vstd::array::array_as_slice(&self.values),
            0,
            len,
        );
        proof {
            assert(r@ =~= self@);
        }
        r
    }

    /// Returns the count of raw values.
    pub fn values_length(&self) -> (r: u8)
        requires
            self.wf(),
        ensures
            r as int == self@.len(),
    {
        self.length
    }

    /// Returns the count of raw values.
    pub fn size(&self) -> (r: u8)
        requires
            self.wf(),
        ensures
            r as int == self@.len(),
    {
        self.length
    }

    /// Returns the raw value at the given index. An index at or beyond the
    /// count of values is out of contract.
    pub fn value(&self, index: usize) -> (r: i64)
        requires
            self.wf(),
            index < self@.len(),
        ensures
            r == self@[index as int],
    {
        self.values[index]
    }
}

} // verus!
