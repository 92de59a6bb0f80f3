use vstd::prelude::*;

use crate::action::Action;
use crate::candle::Candle;
use crate::hma_ema_crossover::{crossover_step, HmaEmaCrossOverInstance};
use crate::hma_pivot_reversal::{pivot_step, HMAPivotReversal};
use crate::moving_average::hma_obs;
use crate::reversal::{detector_signal, valid_lag, window_push};
use crate::strategy::StrategyResult;

verus! {

/// The window a detector holds after replaying `inputs`, oldest first, from
/// a fresh state with the given capacity.
pub open spec fn replay_window(inputs: Seq<i64>, cap: int) -> Seq<i64>
    decreases inputs.len(),
{
    if inputs.len() == 0 {
        Seq::empty()
    } else {
        window_push(replay_window(inputs.drop_last(), cap), inputs.last(), cap)
    }
}

/// The signal the detector emits on each step of a replay of `inputs` from a
/// fresh state with the given lags.
pub open spec fn detector_signals(inputs: Seq<i64>, left: int, right: int) -> Seq<Action> {
    Seq::new(
        inputs.len(),
        |k: int|
            detector_signal(
                replay_window(inputs.take(k + 1), left + right + 1),
                left,
                left + right + 1,
            ),
    )
}

/// The signal a pass-through strategy emits on each step of a replay: its
/// wrapped detector's window is pushed one derived value and the detector's
/// own signal on that window is forwarded unchanged.
pub open spec fn pass_through_signals(inputs: Seq<i64>, left: int, right: int) -> Seq<Action> {
    Seq::new(
        inputs.len(),
        |k: int|
            detector_signal(
                window_push(
                    replay_window(inputs.take(k), left + right + 1),
                    inputs[k],
                    left + right + 1,
                ),
                left,
                left + right + 1,
            ),
    )
}

/// After a replay the window holds the most recent inputs: as many as have
/// been seen, at most the capacity.
pub proof fn lemma_replay_window_len(inputs: Seq<i64>, cap: int)
    requires
        cap >= 1,
    ensures
        replay_window(inputs, cap).len() == if inputs.len() < cap {
            inputs.len() as int
        } else {
            cap
        },
    decreases inputs.len(),
{
    if inputs.len() > 0 {
        lemma_replay_window_len(inputs.drop_last(), cap);
    }
}

/// Warm-up invariant: for every valid pair of lags and every input sequence
/// shorter than the window length `left + right + 1`, a replay of that
/// sequence into a fresh detector emits only the neutral signal.
pub proof fn lemma_warm_up_neutral(inputs: Seq<i64>, left: u8, right: u8)
    requires
        valid_lag(left, right),
        inputs.len() < left as int + right as int + 1,
    ensures
        forall|k: int|
            0 <= k < inputs.len() ==> detector_signals(inputs, left as int, right as int)[k]
                == Action::Hold,
{
    let cap = left as int + right as int + 1;
    assert forall|k: int| 0 <= k < inputs.len() implies detector_signals(
        inputs,
        left as int,
        right as int,
    )[k] == Action::Hold by {
        lemma_replay_window_len(inputs.take(k + 1), cap);
    }
}

/// Round trip: a strategy that wraps the detector and forwards its signal
/// unchanged reproduces, for any input sequence, exactly the signal sequence
/// the bare detector produces standalone on the same derived values.
pub proof fn lemma_pass_through_round_trip(inputs: Seq<i64>, left: int, right: int)
    ensures
        pass_through_signals(inputs, left, right) =~= detector_signals(inputs, left, right),
{
    assert forall|k: int| 0 <= k < inputs.len() implies pass_through_signals(
        inputs,
        left,
        right,
    )[k] == detector_signals(inputs, left, right)[k] by {
        assert(inputs.take(k + 1).drop_last() =~= inputs.take(k));
        assert(inputs.take(k + 1).last() == inputs[k]);
    }
}

/// Determinism: a replay is a function of the inputs alone — two replays of
/// identical input sequences through detectors of the same lags agree on
/// every signal.
pub proof fn lemma_replay_deterministic(a: Seq<i64>, b: Seq<i64>, left: int, right: int)
    requires
        a == b,
    ensures
        detector_signals(a, left, right) == detector_signals(b, left, right),
{
}

/// Everything of a pass-through strategy state that its step relation reads
/// or pins: the configurations, the wrapped average's observables, and the
/// detector's lags and window.
pub open spec fn pivot_observable(s: HMAPivotReversal) -> (
    crate::hma_pivot_reversal::HMAPivotReversalStrategy,
    crate::hull_moving_average::HullMovingAverage,
    (int, int, int, int, int, int),
    int,
    int,
    Seq<i64>,
) {
    (
        s.config_spec(),
        s.hull_spec().config_spec(),
        hma_obs(s.hull_spec().hma_spec()),
        s.pivot_spec().left_spec(),
        s.pivot_spec().right_spec(),
        s.pivot_spec().window(),
    )
}

/// Determinism of the pass-through strategy: two steps taken from observably
/// equal states on the same bar emit equal values and equal signals and land
/// in observably equal states again. Since `init` pins the observable state
/// from the configuration and the first bar alone, replaying one bar
/// sequence into two freshly constructed instances of one configuration
/// yields identical result sequences, element for element.
pub proof fn lemma_pivot_step_deterministic(
    pre1: HMAPivotReversal,
    post1: HMAPivotReversal,
    r1: StrategyResult,
    pre2: HMAPivotReversal,
    post2: HMAPivotReversal,
    r2: StrategyResult,
    c: Candle,
)
    requires
        pivot_observable(pre1) == pivot_observable(pre2),
        pivot_step(pre1, post1, c, r1),
        pivot_step(pre2, post2, c, r2),
    ensures
        pivot_observable(post1) == pivot_observable(post2),
        r1.values_view() == r2.values_view(),
        r1.signals_view() == r2.signals_view(),
{
}

/// Everything of a crossover strategy state that its step relation reads or
/// pins: the configurations, the wrapped average's observables, and the
/// exponential average's period and value.
pub open spec fn crossover_observable(s: HmaEmaCrossOverInstance) -> (
    crate::hma_ema_crossover::HmaEmaCrossOver,
    crate::hull_moving_average::HullMovingAverage,
    (int, int, int, int, int, int),
    int,
    int,
) {
    (
        s.config_spec(),
        s.hull_spec().config_spec(),
        hma_obs(s.hull_spec().hma_spec()),
        s.ema_spec().period_spec(),
        s.ema_spec().value_spec(),
    )
}

/// Determinism of the crossover strategy, step for step, as for the
/// pass-through strategy.
pub proof fn lemma_crossover_step_deterministic(
    pre1: HmaEmaCrossOverInstance,
    post1: HmaEmaCrossOverInstance,
    r1: StrategyResult,
    pre2: HmaEmaCrossOverInstance,
    post2: HmaEmaCrossOverInstance,
    r2: StrategyResult,
    c: Candle,
)
    requires
        crossover_observable(pre1) == crossover_observable(pre2),
        crossover_step(pre1, post1, c, r1),
        crossover_step(pre2, post2, c, r2),
    ensures
        crossover_observable(post1) == crossover_observable(post2),
        r1.values_view() == r2.values_view(),
        r1.signals_view() == r2.signals_view(),
{
}

} // verus!
