use vstd::prelude::*;

verus! {

/// A discrete trading signal: a small closed set of conviction values with a
/// neutral default. `BuyAll` expects an upward move, `SellAll` a downward
/// move, and `Hold` is the neutral, no-signal state.
#[derive(Clone, Copy, Debug, PartialEq, Eq, Structural)]
pub enum Action {
    /// Full positive conviction: an upward reversal or bullish condition.
    BuyAll,
    /// Neutral state: nothing to report on this step.
    Hold,
    /// Full negative conviction: a downward reversal or bearish condition.
    SellAll,
}

impl Default for Action {
    /// The default signal is the neutral one.
    fn default() -> (r: Self)
        ensures
            r == Action::Hold,
    {
        Action::Hold
    }
}

} // verus!
