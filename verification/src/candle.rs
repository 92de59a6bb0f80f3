use vstd::prelude::*;

use crate::math::tdiv_clamped;

verus! {

/// The rule that reduces a bar to the one scalar a single-input method
/// consumes on each step.
#[derive(Clone, Copy, Debug, PartialEq, Eq, Structural)]
pub enum Source {
    /// The opening price.
    Open,
    /// The highest price.
    High,
    /// The lowest price.
    Low,
    /// The closing price.
    Close,
    /// The traded volume.
    Volume,
    /// The midpoint of the highest and the lowest price, rounded toward zero.
    Hl2,
}

/// One time-ordered price bar: an open/high/low/close/volume observation,
/// immutable for the duration of one step. Prices and volume are plain
/// scalars; out-of-order or duplicate delivery is the caller's concern.
#[derive(Clone, Copy, Debug, PartialEq, Eq, Structural)]
pub struct Candle {
    /// The opening price of the period.
    pub open: i64,
    /// The highest price of the period.
    pub high: i64,
    /// The lowest price of the period.
    pub low: i64,
    /// The closing price of the period.
    pub close: i64,
    /// The traded volume of the period.
    pub volume: i64,
}

impl Candle {
    /// The scalar a given source selector derives from this bar.
    pub open spec fn source_spec(&self, source: Source) -> int {
        match source {
            Source::Open => self.open as int,
            Source::High => self.high as int,
            Source::Low => self.low as int,
            Source::Close => self.close as int,
            Source::Volume => self.volume as int,
            Source::Hl2 => tdiv_clamped(self.high as int + self.low as int, 2),
        }
    }

    /// Reduces this bar to one scalar under the given source selector.
    pub fn source(&self, source: Source) -> (r: i64)
        ensures
            r as int == self.source_spec(source),
    {
        match source {
            Source::Open => self.open,
            Source::High => self.high,
            Source::Low => self.low,
            Source::Close => self.close,
            Source::Volume => self.volume,
            Source::Hl2 => crate::math::div_clamp(self.high as i128 + self.low as i128, 2),
        }
    }
}

} // verus!
