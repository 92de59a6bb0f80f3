use vstd::prelude::*;

use crate::action::Action;
use crate::candle::Candle;
use crate::error::Error;
use crate::result::{IndicatorResult, RESULT_SIZE};

verus! {

/// A bounded batch of raw values and trading signals produced by one
/// strategy step. The value count and the signal count are tracked
/// independently: a strategy may legitimately emit a different number of
/// each. Construction truncates each slice silently to the fixed capacity.
#[derive(Clone, Copy, Debug)]
pub struct StrategyResult {
    indicator_result: IndicatorResult,
    signals: [Action; 4],
    signals_length: u8,
}

impl StrategyResult {
    /// The signal batch never holds more than the fixed capacity, and the
    /// wrapped value batch is itself well formed.
    pub closed spec fn wf(&self) -> bool {
        self.indicator_result.wf() && self.signals_length as int <= 4
    }

    /// The raw values of this result, as a sequence.
    pub closed spec fn values_view(&self) -> Seq<i64> {
        self.indicator_result@
    }

    /// The signals of this result, as a sequence.
    pub closed spec fn signals_view(&self) -> Seq<Action> {
        self.signals@.take(self.signals_length as int)
    }

    /// Creates a batch from the given values and signals, each kept in its
    /// original order and truncated to the fixed capacity. Never fails:
    /// excess entries are dropped, not an error.
    pub fn new(values_slice: &[i64], signals_slice: &[Action]) -> (r: Self)
        ensures
            r.wf(),
            r.values_view() == values_slice@.take(
                if values_slice@.len() < 4 {
                    values_slice@.len() as int
                } else {
                    4
                },
            ),
            r.signals_view() == signals_slice@.take(
                if signals_slice@.len() < 4 {
                    signals_slice@.len() as int
                } else {
                    4
                },
            ),
    {
        let indicator_result = IndicatorResult::new(values_slice);
        let n = signals_slice.len();
        let len: usize = if n < RESULT_SIZE {
            n
        } else {
            RESULT_SIZE
        };
        let s0: Action = if len > 0 {
            signals_slice[0]
        } else {
            Action::Hold
        };
        let s1: Action = if len > 1 {
            signals_slice[1]
        } else {
            Action::Hold
        };
        let s2: Action = if len > 2 {
            signals_slice[2]
        } else {
            Action::Hold
        };
        let s3: Action = if len > 3 {
            signals_slice[3]
        } else {
            Action::Hold
        };
        let r = StrategyResult {
            indicator_result,
            signals: [s0, s1, s2, s3],
            signals_length: len as u8,
        };
        proof {
            assert(r.signals_view() =~= signals_slice@.take(len as int));
        }
        r
    }

    /// Returns the signals of this result, in their original order: a
    /// borrowed slice of exactly the first `signals_length` stored slots.
    pub fn signals(&self) -> (r: &[Action])
        requires
            self.wf(),
        ensures
            r@ == self.signals_view(),
    {
        let len = self.signals_length as usize;
        let r = vstd::slice::slice_subrange(
            vstd::array::array_as_slice(&self.signals),
            0,
            len,
        );
        proof {
            assert(r@ =~= self.signals_view());
        }
        r
    }

    /// Returns the raw values of this result, in their original order.
    pub fn values(&self) -> (r: &[i64])
        requires
            self.wf(),
        ensures
            r@ == self.values_view(),
    {
        self.indicator_result.values()
    }

    /// Returns the count of signals.
    pub fn signals_length(&self) -> (r: u8)
        requires
            self.wf(),
        ensures
            r as int == self.signals_view().len(),
    {
        self.signals_length
    }

    /// Returns the count of raw values.
    pub fn values_length(&self) -> (r: u8)
        requires
            self.wf(),
        ensures
            r as int == self.values_view().len(),
    {
        self.indicator_result.values_length()
    }

    /// Returns the count of raw values and the count of signals as a pair.
    pub fn size(&self) -> (r: (u8, u8))
        requires
            self.wf(),
        ensures
            r.0 as int == self.values_view().len(),
            r.1 as int == self.signals_view().len(),
    {
        (self.indicator_result.values_length(), self.signals_length)
    }

    /// Returns the raw value at the given index. An index at or beyond the
    /// count of values is out of contract.
    pub fn value(&self, index: usize) -> (r: i64)
        requires
            self.wf(),
            index < self.values_view().len(),
        ensures
            r == self.values_view()[index as int],
    {
        self.indicator_result.value(index)
    }

    /// Returns the signal at the given index. An index at or beyond the
    /// count of signals is out of contract.
    pub fn signal(&self, index: usize) -> (r: Action)
        requires
            self.wf(),
            index < self.signals_view().len(),
        ensures
            r == self.signals_view()[index as int],
    {
        self.signals[index]
    }
}

/// The configuration half of a strategy: validated parameters and a factory
/// that binds the strategy's sub-components to a first bar, producing the
/// streaming instance that owns them.
pub trait StrategyConfig: Sized + Clone {
    /// The streaming state this configuration builds.
    type Instance: StrategyInstance;

    /// The strategy's display name.
    fn name(&self) -> &'static str;

    /// Validates the parameters and, on success, builds and seeds every
    /// owned sub-component from the first bar. The first failing
    /// sub-component aborts construction and its error is returned
    /// unchanged.
    fn init(self, initial_value: &Candle) -> (r: Result<Self::Instance, Error>)
        ensures
            r matches Ok(inst) ==> inst.well_formed(),
    ;
}

/// The streaming half of a strategy: owns its configuration and its live
/// indicator and method states, advanced one bar at a time. A per-step call
/// never fails.
pub trait StrategyInstance: Sized {
    /// The configuration this instance was built from.
    type Config;

    /// Well-formedness of the streaming state: established by `init` and
    /// preserved by every step.
    spec fn well_formed(&self) -> bool;

    /// Returns the owned configuration, for introspection.
    fn config(&self) -> &Self::Config;

    /// Consumes exactly one bar, advances every owned sub-component once,
    /// and fuses their outputs into values and signals.
    fn next(&mut self, candle: &Candle) -> (r: StrategyResult)
        requires
            old(self).well_formed(),
        ensures
            final (self).well_formed(),
            r.wf(),
    ;

    /// The strategy's display name.
    fn name(&self) -> &'static str;
}

} // verus!
