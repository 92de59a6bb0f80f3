use vstd::prelude::*;

use crate::action::Action;
use crate::candle::{Candle, Source};
use crate::error::Error;
use crate::hull_moving_average::{HullMovingAverage, HullMovingAverageInstance};
use crate::indicator::{IndicatorConfig, IndicatorInstance};
use crate::method::Method;
use crate::moving_average::{hma_fresh, hma_stepped};
use crate::reversal::{detector_signal, window_push, ReversalSignal};
use crate::strategy::{StrategyConfig, StrategyInstance, StrategyResult};

verus! {

/// A pass-through strategy: a Hull-style moving average indicator feeds a
/// pivot/reversal detector, and the detector's own signal is forwarded
/// unchanged as the strategy's signal, beside the indicator's value.
#[derive(Clone, Copy, Debug, PartialEq, Eq, Structural)]
pub struct HMAPivotReversalStrategy {
    /// The smoothing period of the wrapped indicator.
    pub period: u8,
    /// The left lag of the reversal detection.
    pub left: u8,
    /// The right lag of the reversal detection.
    pub right: u8,
    /// The source selector that reduces each bar to one scalar.
    pub source: Source,
}

impl HMAPivotReversalStrategy {
    /// The configuration of the wrapped indicator.
    pub open spec fn hull_config(self) -> HullMovingAverage {
        HullMovingAverage {
            period: self.period,
            left: self.left,
            right: self.right,
            source: self.source,
        }
    }
}

impl StrategyConfig for HMAPivotReversalStrategy {
    type Instance = HMAPivotReversal;

    /// The strategy's display name.
    fn name(&self) -> (r: &'static str)
        ensures
            r@ == "HMAPivotReversalStrategy"@,
    {
        "HMAPivotReversalStrategy"
    }

    /// Builds the wrapped indicator and the detector, both seeded from the
    /// first bar. Fails exactly when the wrapped indicator's validation
    /// predicate fails, with that error unchanged.
    fn init(self, initial_value: &Candle) -> (r: Result<HMAPivotReversal, Error>)
        ensures
            match r {
                Ok(inst) => {
                    &&& self.hull_config().valid_spec()
                    &&& inst.config_spec() == self
                    &&& inst.hull_spec().config_spec() == self.hull_config()
                    &&& hma_fresh(
                        inst.hull_spec().hma_spec(),
                        self.period as int,
                        initial_value.source_spec(self.source),
                    )
                    &&& inst.pivot_spec().window() == Seq::<i64>::empty()
                },
                Err(e) => !self.hull_config().valid_spec() && e is WrongConfig,
            },
    {
        let hull = HullMovingAverage {
            period: self.period,
            left: self.left,
            right: self.right,
            source: self.source,
        };
        let src = initial_value.source(self.source);
        let hull_instance = match hull.init(initial_value) {
            Ok(inst) => inst,
            Err(e) => {
                return Err(e);
            },
        };
        let pivot = match ReversalSignal::new(self.left, self.right, src) {
            Ok(p) => p,
            // A validated configuration has valid lags and a positive
            // period, so this construction cannot fail here.
            Err(_) => vstd::pervasive::unreached(),
        };
        Ok(HMAPivotReversal { hma_indicator: hull_instance, config: self, pivot })
    }
}

/// The streaming state of the pass-through strategy: the wrapped indicator
/// instance, the owned configuration, and the live detector.
pub struct HMAPivotReversal {
    hma_indicator: HullMovingAverageInstance,
    config: HMAPivotReversalStrategy,
    pivot: ReversalSignal,
}

/// One step of the pass-through strategy, as a relation between the
/// observable state before, the state after, the consumed bar and the
/// emitted result: the wrapped average is smoothed once on the bar's derived
/// scalar, its value is pushed into the detector's window, and the result
/// carries that value beside the detector's own signal, forwarded unchanged.
pub open spec fn pivot_step(
    pre: HMAPivotReversal,
    post: HMAPivotReversal,
    c: Candle,
    r: StrategyResult,
) -> bool {
    &&& post.config_spec() == pre.config_spec()
    &&& post.hull_spec().config_spec() == pre.hull_spec().config_spec()
    &&& post.pivot_spec().left_spec() == pre.pivot_spec().left_spec()
    &&& post.pivot_spec().right_spec() == pre.pivot_spec().right_spec()
    &&& hma_stepped(
        pre.hull_spec().hma_spec(),
        post.hull_spec().hma_spec(),
        pre.config_spec().hull_config().candle_scalar(c),
    )
    &&& post.pivot_spec().window() == window_push(
        pre.pivot_spec().window(),
        pre.hull_spec().next_value_spec(c) as i64,
        pre.pivot_spec().capacity(),
    )
    &&& r.values_view() == seq![pre.hull_spec().next_value_spec(c) as i64]
    &&& r.signals_view() == seq![
        detector_signal(
            post.pivot_spec().window(),
            pre.config_spec().left as int,
            pre.pivot_spec().capacity(),
        ),
    ]
}

impl HMAPivotReversal {
    /// The owned configuration.
    pub closed spec fn config_spec(&self) -> HMAPivotReversalStrategy {
        self.config
    }

    /// The wrapped indicator instance.
    pub closed spec fn hull_spec(&self) -> HullMovingAverageInstance {
        self.hma_indicator
    }

    /// The live detector state.
    pub closed spec fn pivot_spec(&self) -> ReversalSignal {
        self.pivot
    }
}

impl StrategyInstance for HMAPivotReversal {
    type Config = HMAPivotReversalStrategy;

    /// The wrapped indicator and the detector are usable and the detector
    /// carries the configured lags.
    open spec fn well_formed(&self) -> bool {
        &&& self.hull_spec().well_formed()
        &&& self.hull_spec().config_spec() == self.config_spec().hull_config()
        &&& self.pivot_spec().wf()
        &&& self.pivot_spec().left_spec() == self.config_spec().left as int
        &&& self.pivot_spec().right_spec() == self.config_spec().right as int
    }

    /// Returns the owned configuration.
    fn config(&self) -> (r: &HMAPivotReversalStrategy)
        ensures
            *r == self.config_spec(),
    {
        &self.config
    }

    /// Advances the wrapped indicator one bar, feeds its value to the
    /// detector, and forwards the detector's signal unchanged beside the
    /// indicator's value.
    fn next(&mut self, candle: &Candle) -> (r: StrategyResult)
        ensures
            pivot_step(*old(self), *final (self), *candle, r),
    {
        let ind_result = self.hma_indicator.next(candle);
        let value = ind_result.value(0);
        let signal: Action = self.pivot.next(value);
        let r = StrategyResult::new(
            ind_result.values(),
            vstd::array::array_as_slice(&[signal]),
        );
        proof {
            assert(r.values_view() =~= seq![value]);
            assert(r.signals_view() =~= seq![signal]);
        }
        r
    }

    /// The strategy's display name.
    fn name(&self) -> (r: &'static str)
        ensures
            r@ == "HMAPivotReversalStrategy"@,
    {
        "HMAPivotReversalStrategy"
    }
}

} // verus!
