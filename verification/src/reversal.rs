use vstd::prelude::*;

use crate::action::Action;
use crate::error::Error;
use crate::method::Method;

verus! {

/// Lag parameters are valid when each side of the window is at least one bar
/// wide and the window length `left + right + 1` still fits the bounded
/// period type.
pub open spec fn valid_lag(left: u8, right: u8) -> bool {
    &&& 1 <= left
    &&& 1 <= right
    &&& left as int + right as int + 1 <= u8::MAX as int
}

/// The window after one more scalar: the new value enters at the newest end
/// and, once the window is at capacity, the oldest value leaves.
pub open spec fn window_push(w: Seq<i64>, v: i64, cap: int) -> Seq<i64> {
    if w.len() < cap {
        w.push(v)
    } else {
        w.skip(1).push(v)
    }
}

/// The entry at `pos` is a confirmed peak of the window: no entry exceeds it
/// and it strictly exceeds at least one neighbor on each side.
pub open spec fn is_peak(w: Seq<i64>, pos: int) -> bool {
    &&& forall|i: int| 0 <= i < w.len() ==> w[i] <= w[pos]
    &&& exists|i: int| 0 <= i < pos && w[i] < w[pos]
    &&& exists|i: int| pos < i < w.len() && w[i] < w[pos]
}

/// The entry at `pos` is a confirmed trough of the window: no entry is below
/// it and it is strictly below at least one neighbor on each side.
pub open spec fn is_trough(w: Seq<i64>, pos: int) -> bool {
    &&& forall|i: int| 0 <= i < w.len() ==> w[i] >= w[pos]
    &&& exists|i: int| 0 <= i < pos && w[i] > w[pos]
    &&& exists|i: int| pos < i < w.len() && w[i] > w[pos]
}

/// The signal a full window yields for the fixed candidate position `pos`: a
/// peak there confirms a downward reversal, a trough an upward one, anything
/// else is neutral. The detector never searches for the extremum's position;
/// it only tests whether the fixed position is one.
pub open spec fn pivot_signal(w: Seq<i64>, pos: int) -> Action {
    if is_peak(w, pos) {
        Action::SellAll
    } else if is_trough(w, pos) {
        Action::BuyAll
    } else {
        Action::Hold
    }
}

/// What one detector step returns once the window `w` has been pushed:
/// neutral through the whole warm-up, the pivot test at position `left` once
/// the window is at capacity.
pub open spec fn detector_signal(w: Seq<i64>, left: int, cap: int) -> Action {
    if w.len() == cap {
        pivot_signal(w, left)
    } else {
        Action::Hold
    }
}

/// Lag-window pivot detection: emits, with a confirmation delay of `right`
/// steps, a one-shot directional signal when the streamed scalar sequence has
/// just passed a local extremum.
///
/// The state is a circular buffer of capacity `left + right + 1` holding the
/// most recent scalars. Once the buffer has been fully populated, the
/// candidate pivot of each step is the entry with exactly `left` older and
/// `right` newer neighbors; before that, every step is neutral. The buffer
/// is allocated once at construction and never grows.
pub struct ReversalSignal {
    left: u8,
    right: u8,
    buf: Vec<i64>,
    cursor: usize,
    filled: usize,
}

impl ReversalSignal {
    /// The left lag: how many older neighbors confirm the candidate.
    pub closed spec fn left_spec(&self) -> int {
        self.left as int
    }

    /// The right lag: how many newer neighbors confirm the candidate.
    pub closed spec fn right_spec(&self) -> int {
        self.right as int
    }

    /// The window capacity `left + right + 1`.
    pub open spec fn capacity(&self) -> int {
        self.left_spec() + self.right_spec() + 1
    }

    /// The detector invariant: valid lags, a buffer of exactly the window
    /// capacity, and a cursor that trails the count until the first wrap.
    pub closed spec fn wf(&self) -> bool {
        &&& valid_lag(self.left, self.right)
        &&& self.buf@.len() == self.capacity()
        &&& self.cursor < self.capacity()
        &&& self.filled <= self.capacity()
        &&& self.filled < self.capacity() ==> self.cursor == self.filled
    }

    /// The scalars observed so far that the detector still holds, oldest
    /// first: at most `capacity` of them.
    pub closed spec fn window(&self) -> Seq<i64> {
        if self.filled < self.capacity() {
            self.buf@.take(self.filled as int)
        } else {
            self.buf@.skip(self.cursor as int) + self.buf@.take(self.cursor as int)
        }
    }

    /// Builds a detector from its lag parameters. Fails with the
    /// invalid-configuration error when either lag is zero or the window
    /// length overflows the bounded period type; there is no runtime failure
    /// thereafter. The seed value only pre-fills the buffer storage; it does
    /// not count toward the warm-up.
    pub fn new(left: u8, right: u8, initial: i64) -> (r: Result<ReversalSignal, Error>)
        ensures
            match r {
                Ok(d) => {
                    &&& valid_lag(left, right)
                    &&& d.wf()
                    &&& d.left_spec() == left as int
                    &&& d.right_spec() == right as int
                    &&& d.window() == Seq::<i64>::empty()
                },
                Err(e) => !valid_lag(left, right) && e is WrongConfig,
            },
    {
        if left < 1 || right < 1 || (left as usize) + (right as usize) + 1 > 255 {
            return Err(Error::WrongConfig);
        }
        let cap: usize = left as usize + right as usize + 1;
        let buf: Vec<i64> = vec![initial; cap];
        let d = ReversalSignal { left, right, buf, cursor: 0, filled: 0 };
        proof {
            assert(d.window() =~= Seq::<i64>::empty());
        }
        Ok(d)
    }

    /// Reads the window entry `i` places after the oldest held scalar.
    fn window_get(&self, i: usize) -> (r: i64)
        requires
            self.wf(),
            self.filled == self.capacity(),
            i < self.capacity(),
        ensures
            r == self.window()[i as int],
    {
        let cap: usize = self.left as usize + self.right as usize + 1;
        let idx: usize = if self.cursor + i >= cap {
            self.cursor + i - cap
        } else {
            self.cursor + i
        };
        proof {
            assert(self.window()[i as int] == self.buf@[idx as int]);
        }
        self.buf[idx]
    }
}

impl Method for ReversalSignal {
    type Input = i64;

    type Output = Action;

    /// The detector is usable whenever its invariant holds.
    open spec fn m_wf(&self) -> bool {
        self.wf()
    }

    /// Pushes one scalar into the window, evicting the oldest once full, and
    /// returns the signal the window now yields: neutral during warm-up, the
    /// pivot test on the fixed candidate position afterwards.
    fn next(&mut self, value: i64) -> (r: Action)
        ensures
            final (self).left_spec() == old(self).left_spec(),
            final (self).right_spec() == old(self).right_spec(),
            final (self).window() == window_push(old(self).window(), value, old(self).capacity()),
            r == detector_signal(
                final (self).window(),
                old(self).left_spec(),
                old(self).capacity(),
            ),
    {
        let cap: usize = self.left as usize + self.right as usize + 1;
        let ghost prev = *self;
        self.buf[self.cursor] = value;
        self.cursor = if self.cursor + 1 == cap {
            0
        } else {
            self.cursor + 1
        };
        if self.filled < cap {
            self.filled = self.filled + 1;
        }
        proof {
            assert(self.window() =~= window_push(prev.window(), value, prev.capacity()));
        }
        if self.filled < cap {
            return Action::Hold;
        }
        let ghost w = self.window();
        let lpos: usize = self.left as usize;
        let cand: i64 = self.window_get(lpos);
        let mut all_le = true;
        let mut all_ge = true;
        let mut less_left = false;
        let mut less_right = false;
        let mut greater_left = false;
        let mut greater_right = false;
        let mut i: usize = 0;
        while i < cap
            invariant
                self.wf(),
                self.filled == self.capacity(),
                cap == self.capacity(),
                lpos < cap,
                w == self.window(),
                cand == w[lpos as int],
                i <= cap,
                all_le <==> forall|j: int| 0 <= j < i ==> w[j] <= cand,
                all_ge <==> forall|j: int| 0 <= j < i ==> w[j] >= cand,
                less_left <==> exists|j: int| 0 <= j < i && j < lpos && w[j] < cand,
                greater_left <==> exists|j: int| 0 <= j < i && j < lpos && w[j] > cand,
                less_right <==> exists|j: int| lpos < j < i && w[j] < cand,
                greater_right <==> exists|j: int| lpos < j < i && w[j] > cand,
            decreases cap - i,
        {
            let v = self.window_get(i);
            if v > cand {
                all_le = false;
            }
            if v < cand {
                all_ge = false;
            }
            if i < lpos {
                if v < cand {
                    less_left = true;
                }
                if v > cand {
                    greater_left = true;
                }
            }
            if i > lpos {
                if v < cand {
                    less_right = true;
                }
                if v > cand {
                    greater_right = true;
                }
            }
            i = i + 1;
        }
        if all_le && less_left && less_right {
            proof {
                assert(is_peak(w, lpos as int));
            }
            Action::SellAll
        } else if all_ge && greater_left && greater_right {
            proof {
                assert(is_trough(w, lpos as int));
                assert(!is_peak(w, lpos as int));
            }
            Action::BuyAll
        } else {
            proof {
                assert(!is_peak(w, lpos as int));
                assert(!is_trough(w, lpos as int));
            }
            Action::Hold
        }
    }
}

} // verus!
