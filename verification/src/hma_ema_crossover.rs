use vstd::prelude::*;

use crate::action::Action;
use crate::candle::{Candle, Source};
use crate::error::Error;
use crate::hull_moving_average::{HullMovingAverage, HullMovingAverageInstance};
use crate::indicator::{IndicatorConfig, IndicatorInstance};
use crate::method::Method;
use crate::moving_average::{ema_step, hma_fresh, hma_stepped, Ema};
use crate::strategy::{StrategyConfig, StrategyInstance, StrategyResult};

verus! {

/// The crossover fusion rule, in its level-comparison form: a full buy
/// whenever the exponential average stands above the Hull-style average on
/// this step, a full sell otherwise. The comparison is of current levels,
/// not of a change in their relation.
pub open spec fn crossover_signal(ema_value: int, hull_value: int) -> Action {
    if ema_value > hull_value {
        Action::BuyAll
    } else {
        Action::SellAll
    }
}

/// A two-series crossover strategy: a Hull-style moving average indicator
/// and an exponential moving average over the same source, fused by
/// comparing their current values.
#[derive(Clone, Copy, Debug, PartialEq, Eq, Structural)]
pub struct HmaEmaCrossOver {
    /// The smoothing period, shared by both averages.
    pub period: u8,
    /// The left lag carried by the wrapped indicator.
    pub left: u8,
    /// The right lag carried by the wrapped indicator.
    pub right: u8,
    /// The source selector that reduces each bar to one scalar.
    pub source: Source,
}

impl HmaEmaCrossOver {
    /// The configuration of the wrapped indicator.
    pub open spec fn hull_config(self) -> HullMovingAverage {
        HullMovingAverage {
            period: self.period,
            left: self.left,
            right: self.right,
            source: self.source,
        }
    }
}

impl StrategyConfig for HmaEmaCrossOver {
    type Instance = HmaEmaCrossOverInstance;

    /// The strategy's display name.
    fn name(&self) -> (r: &'static str)
        ensures
            r@ == "HmaEmaCrossOver"@,
    {
        "HmaEmaCrossOver"
    }

    /// Builds the wrapped indicator and the exponential average, both seeded
    /// from the first bar. Fails exactly when the wrapped indicator's
    /// validation predicate fails, with that error unchanged.
    fn init(self, initial_value: &Candle) -> (r: Result<HmaEmaCrossOverInstance, Error>)
        ensures
            match r {
                Ok(inst) => {
                    &&& self.hull_config().valid_spec()
                    &&& inst.config_spec() == self
                    &&& inst.hull_spec().config_spec() == self.hull_config()
                    &&& hma_fresh(
                        inst.hull_spec().hma_spec(),
                        self.period as int,
                        initial_value.source_spec(self.source),
                    )
                    &&& inst.ema_spec().period_spec() == self.period as int
                    &&& inst.ema_spec().value_spec() == initial_value.source_spec(self.source)
                },
                Err(e) => !self.hull_config().valid_spec() && e is WrongConfig,
            },
    {
        let hull = HullMovingAverage {
            period: self.period,
            left: self.left,
            right: self.right,
            source: self.source,
        };
        let src = initial_value.source(self.source);
        let hull_instance = match hull.init(initial_value) {
            Ok(inst) => inst,
            Err(e) => {
                return Err(e);
            },
        };
        let ema = match Ema::new(self.period, src) {
            Ok(m) => m,
            // A validated configuration has a positive period, so this
            // construction cannot fail here.
            Err(_) => vstd::pervasive::unreached(),
        };
        Ok(HmaEmaCrossOverInstance { hma_indicator: hull_instance, ema_indicator: ema, config: self })
    }
}

/// The streaming state of the crossover strategy: the wrapped indicator
/// instance, the live exponential average, and the owned configuration.
pub struct HmaEmaCrossOverInstance {
    hma_indicator: HullMovingAverageInstance,
    ema_indicator: Ema,
    config: HmaEmaCrossOver,
}

/// One step of the crossover strategy, as a relation between the observable
/// state before, the state after, the consumed bar and the emitted result:
/// both averages are smoothed once on the bar's derived scalar, and the
/// result carries the indicator's value beside the level-comparison signal.
pub open spec fn crossover_step(
    pre: HmaEmaCrossOverInstance,
    post: HmaEmaCrossOverInstance,
    c: Candle,
    r: StrategyResult,
) -> bool {
    &&& post.config_spec() == pre.config_spec()
    &&& post.hull_spec().config_spec() == pre.hull_spec().config_spec()
    &&& hma_stepped(
        pre.hull_spec().hma_spec(),
        post.hull_spec().hma_spec(),
        pre.config_spec().hull_config().candle_scalar(c),
    )
    &&& post.ema_spec().period_spec() == pre.ema_spec().period_spec()
    &&& post.ema_spec().value_spec() == ema_step(
        pre.ema_spec().period_spec(),
        pre.ema_spec().value_spec(),
        pre.config_spec().hull_config().candle_scalar(c),
    )
    &&& r.values_view() == seq![pre.hull_spec().next_value_spec(c) as i64]
    &&& r.signals_view() == seq![
        crossover_signal(post.ema_spec().value_spec(), pre.hull_spec().next_value_spec(c)),
    ]
}

impl HmaEmaCrossOverInstance {
    /// The owned configuration.
    pub closed spec fn config_spec(&self) -> HmaEmaCrossOver {
        self.config
    }

    /// The wrapped indicator instance.
    pub closed spec fn hull_spec(&self) -> HullMovingAverageInstance {
        self.hma_indicator
    }

    /// The live exponential average.
    pub closed spec fn ema_spec(&self) -> Ema {
        self.ema_indicator
    }
}

impl StrategyInstance for HmaEmaCrossOverInstance {
    type Config = HmaEmaCrossOver;

    /// Both averages are usable.
    open spec fn well_formed(&self) -> bool {
        &&& self.hull_spec().well_formed()
        &&& self.hull_spec().config_spec() == self.config_spec().hull_config()
        &&& self.ema_spec().wf()
    }

    /// Returns the owned configuration.
    fn config(&self) -> (r: &HmaEmaCrossOver)
        ensures
            *r == self.config_spec(),
    {
        &self.config
    }

    /// Advances both averages one bar and fuses their current values with
    /// the level-comparison crossover rule: the indicator's value beside one
    /// signal.
    fn next(&mut self, candle: &Candle) -> (r: StrategyResult)
        ensures
            crossover_step(*old(self), *final (self), *candle, r),
    {
        let ind_result = self.hma_indicator.next(candle);
        let ema_value = self.ema_indicator.next(candle.source(self.config.source));
        let value = ind_result.value(0);
        let signal: Action = if ema_value > value {
            Action::BuyAll
        } else {
            Action::SellAll
        };
        let r = StrategyResult::new(
            ind_result.values(),
            vstd::array::array_as_slice(&[signal]),
        );
        proof {
            assert(r.values_view() =~= seq![value]);
            assert(r.signals_view() =~= seq![signal]);
        }
        r
    }

    /// The strategy's display name.
    fn name(&self) -> (r: &'static str)
        ensures
            r@ == "HmaEmaCrossOver"@,
    {
        "HmaEmaCrossOver"
    }
}

} // verus!
