use vstd::prelude::*;

use crate::error::Error;
use crate::math::{clamp_i64, tdiv_clamped};
use crate::method::Method;

verus! {

/// One exponential smoothing step over a period `p`: the new average moves
/// from `prev` toward `v` with weight `2 / (p + 1)`, computed on integers
/// with truncating division and clamped into the scalar range.
pub open spec fn ema_step(p: int, prev: int, v: int) -> int
    recommends
        p >= 1,
{
    tdiv_clamped(2 * v + (p - 1) * prev, p + 1)
}

/// `r` is the integer square root of `p`: the greatest value whose square
/// does not exceed `p`.
pub open spec fn is_sqrt_floor(r: int, p: int) -> bool {
    &&& 0 <= r
    &&& r * r <= p
    &&& p < (r + 1) * (r + 1)
}

/// Exponentially weighted moving average: a streaming method whose state is
/// one smoothed value, seeded at construction and advanced one scalar per
/// step.
#[derive(Clone, Copy, Debug)]
pub struct Ema {
    period: u8,
    value: i64,
}

impl Ema {
    /// The smoothing period.
    pub closed spec fn period_spec(&self) -> int {
        self.period as int
    }

    /// The current smoothed value.
    pub closed spec fn value_spec(&self) -> int {
        self.value as int
    }

    /// A usable average has a period of at least one bar.
    pub closed spec fn wf(&self) -> bool {
        self.period >= 1
    }

    /// Builds an average of the given period, seeded with an initial scalar.
    /// A zero period is an invalid configuration.
    pub fn new(period: u8, initial: i64) -> (r: Result<Ema, Error>)
        ensures
            match r {
                Ok(m) => {
                    &&& period >= 1
                    &&& m.wf()
                    &&& m.period_spec() == period as int
                    &&& m.value_spec() == initial as int
                },
                Err(e) => period < 1 && e is WrongConfig,
            },
    {
        if period < 1 {
            return Err(Error::WrongConfig);
        }
        Ok(Ema { period, value: initial })
    }
}

impl Method for Ema {
    type Input = i64;

    type Output = i64;

    /// The average is usable whenever its invariant holds.
    open spec fn m_wf(&self) -> bool {
        self.wf()
    }

    /// Advances the smoothed value by one step and returns it.
    fn next(&mut self, value: i64) -> (r: i64)
        ensures
            final (self).period_spec() == old(self).period_spec(),
            final (self).value_spec() == ema_step(
                old(self).period_spec(),
                old(self).value_spec(),
                value as int,
            ),
            r as int == final (self).value_spec(),
    {
        proof {
            assert(self.m_wf());
            assert(self.wf());
        }
        let p: i128 = self.period as i128;
        proof {
            assert((p - 1) * (self.value as i128) <= 254 * (i64::MAX as i128)
                && (p - 1) * (self.value as i128) >= 254 * (i64::MIN as i128))
                by (nonlinear_arith)
                requires
                    0 <= p - 1 <= 254,
                    i64::MIN as i128 <= self.value as i128 <= i64::MAX as i128,
            ;
        }
        let num: i128 = 2 * (value as i128) + (p - 1) * (self.value as i128);
        let next_value = crate::math::div_clamp(num, p + 1);
        self.value = next_value;
        next_value
    }
}

/// The integer square root is unique: construction contracts that pin a
/// period through [`is_sqrt_floor`] pin it to one value.
pub proof fn lemma_sqrt_floor_unique(a: int, b: int, p: int)
    requires
        is_sqrt_floor(a, p),
        is_sqrt_floor(b, p),
    ensures
        a == b,
{
    assert(a == b) by (nonlinear_arith)
        requires
            0 <= a,
            0 <= b,
            a * a <= p,
            p < (a + 1) * (a + 1),
            b * b <= p,
            p < (b + 1) * (b + 1),
    ;
}

/// Computes the integer square root of a bounded period.
pub fn sqrt_period(p: u8) -> (r: u8)
    ensures
        is_sqrt_floor(r as int, p as int),
{
    let mut r: u8 = 0;
    loop
        invariant
            r <= 15,
            (r as int) * (r as int) <= p as int,
        ensures
            (r as int) * (r as int) <= p as int,
            (p as int) < ((r as int) + 1) * ((r as int) + 1),
        decreases 16 - r,
    {
        proof {
            assert(((r as int) + 1) * ((r as int) + 1) <= 256) by (nonlinear_arith)
                requires
                    0 <= r as int <= 15,
            ;
        }
        let next: u32 = (r as u32 + 1) * (r as u32 + 1);
        if next > p as u32 {
            break;
        }
        proof {
            assert(((r as int) + 1) * ((r as int) + 1) <= 255 ==> r as int + 1 <= 15)
                by (nonlinear_arith);
        }
        r = r + 1;
    }
    r
}

/// Hull-style moving average: a responsive smoothing built from three
/// exponential averages — a short one of half the period, a long one of the
/// full period, and a final smoothing of `2 * short - long` over the integer
/// square root of the period.
#[derive(Clone, Copy, Debug)]
pub struct Hma {
    short: Ema,
    long: Ema,
    smooth: Ema,
}

/// The detrended difference `2 * a - b` handed to the final smoothing,
/// clamped into the scalar range.
pub open spec fn hma_diff(a: int, b: int) -> int {
    clamp_i64(2 * a - b)
}

/// `m` is a freshly built Hull-style average of the given period, every
/// sub-average seeded with `seed`.
pub open spec fn hma_fresh(m: Hma, period: int, seed: int) -> bool {
    &&& m.short_spec().period_spec() == period / 2
    &&& m.long_spec().period_spec() == period
    &&& is_sqrt_floor(m.smooth_spec().period_spec(), period)
    &&& m.short_spec().value_spec() == seed
    &&& m.long_spec().value_spec() == seed
    &&& m.smooth_spec().value_spec() == seed
}

/// Everything a Hull-style average state determines: the period and the
/// current value of each of its three sub-averages.
pub open spec fn hma_obs(m: Hma) -> (int, int, int, int, int, int) {
    (
        m.short_spec().period_spec(),
        m.short_spec().value_spec(),
        m.long_spec().period_spec(),
        m.long_spec().value_spec(),
        m.smooth_spec().period_spec(),
        m.smooth_spec().value_spec(),
    )
}

/// `post` is `pre` advanced by one step on input `v`: the periods are kept
/// and every sub-average is smoothed once.
pub open spec fn hma_stepped(pre: Hma, post: Hma, v: int) -> bool {
    &&& post.short_spec().period_spec() == pre.short_spec().period_spec()
    &&& post.long_spec().period_spec() == pre.long_spec().period_spec()
    &&& post.smooth_spec().period_spec() == pre.smooth_spec().period_spec()
    &&& post.short_spec().value_spec() == ema_step(
        pre.short_spec().period_spec(),
        pre.short_spec().value_spec(),
        v,
    )
    &&& post.long_spec().value_spec() == ema_step(
        pre.long_spec().period_spec(),
        pre.long_spec().value_spec(),
        v,
    )
    &&& post.smooth_spec().value_spec() == Hma::next_value_spec(pre, v)
}

impl Hma {
    /// The short sub-average, over half the period.
    pub closed spec fn short_spec(&self) -> Ema {
        self.short
    }

    /// The long sub-average, over the full period.
    pub closed spec fn long_spec(&self) -> Ema {
        self.long
    }

    /// The final smoothing, over the square root of the period.
    pub closed spec fn smooth_spec(&self) -> Ema {
        self.smooth
    }

    /// All three sub-averages are usable.
    pub closed spec fn wf(&self) -> bool {
        self.short.wf() && self.long.wf() && self.smooth.wf()
    }

    /// The value one step from state `s` would produce on input `v`.
    pub open spec fn next_value_spec(s: Hma, v: int) -> int {
        ema_step(
            s.smooth_spec().period_spec(),
            s.smooth_spec().value_spec(),
            hma_diff(
                ema_step(s.short_spec().period_spec(), s.short_spec().value_spec(), v),
                ema_step(s.long_spec().period_spec(), s.long_spec().value_spec(), v),
            ),
        )
    }

    /// Builds the average from its period, seeding every sub-average with an
    /// initial scalar. A period below two is an invalid configuration: half
    /// of it would not make a period.
    pub fn new(period: u8, initial: i64) -> (r: Result<Hma, Error>)
        ensures
            match r {
                Ok(m) => {
                    &&& period >= 2
                    &&& m.wf()
                    &&& hma_fresh(m, period as int, initial as int)
                },
                Err(e) => period < 2 && e is WrongConfig,
            },
    {
        if period < 2 {
            return Err(Error::WrongConfig);
        }
        let half: u8 = period / 2;
        let root: u8 = sqrt_period(period);
        proof {
            assert(root >= 1) by {
                if root == 0 {
                    assert((period as int) < 1);
                }
            }
        }
        // Each sub-period is at least one here, so none of these
        // constructions can fail.
        let short = match Ema::new(half, initial) {
            Ok(m) => m,
            Err(_) => vstd::pervasive::unreached(),
        };
        let long = match Ema::new(period, initial) {
            Ok(m) => m,
            Err(_) => vstd::pervasive::unreached(),
        };
        let smooth = match Ema::new(root, initial) {
            Ok(m) => m,
            Err(_) => vstd::pervasive::unreached(),
        };
        Ok(Hma { short, long, smooth })
    }
}

impl Method for Hma {
    type Input = i64;

    type Output = i64;

    /// The average is usable whenever its invariant holds.
    open spec fn m_wf(&self) -> bool {
        self.wf()
    }

    /// Advances all three sub-averages by one step and returns the smoothed
    /// detrended value.
    fn next(&mut self, value: i64) -> (r: i64)
        ensures
            hma_stepped(*old(self), *final (self), value as int),
            r as int == Hma::next_value_spec(*old(self), value as int),
    {
        proof {
            assert(self.m_wf());
            assert(self.wf());
            assert(self.short.m_wf() && self.long.m_wf() && self.smooth.m_wf());
        }
        let a = self.short.next(value);
        let b = self.long.next(value);
        let d = crate::math::clamp_wide(2 * (a as i128) - (b as i128));
        self.smooth.next(d)
    }
}

} // verus!
