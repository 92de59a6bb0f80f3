use vstd::prelude::*;

use crate::candle::{Candle, Source};
use crate::error::Error;
use crate::indicator::{IndicatorConfig, IndicatorInstance};
use crate::method::Method;
use crate::moving_average::{hma_fresh, hma_stepped, Hma};
use crate::result::IndicatorResult;
use crate::text::{dec_value, parse_period, parse_source, parses_to_period, source_of_name, str_eq};

verus! {

/// Hull-style moving average indicator: one smoothed value per step, derived
/// from the configured source of each bar.
///
/// Produces one value per step; the lag parameters are carried for reversal
/// detection built on top of this indicator.
#[derive(Clone, Copy, Debug, PartialEq, Eq, Structural)]
pub struct HullMovingAverage {
    /// The smoothing period. Must exceed two.
    pub period: u8,
    /// The left lag for reversal detection built on this indicator. At least
    /// one.
    pub left: u8,
    /// The right lag for reversal detection built on this indicator. At
    /// least one.
    pub right: u8,
    /// The source selector that reduces each bar to one scalar.
    pub source: Source,
}

impl Default for HullMovingAverage {
    /// The stock parameters: a period of nine bars over closing prices, with
    /// a three-bar left and a two-bar right lag.
    fn default() -> (r: Self)
        ensures
            r == (HullMovingAverage { period: 9u8, left: 3u8, right: 2u8, source: Source::Close }),
    {
        HullMovingAverage { period: 9, left: 3, right: 2, source: Source::Close }
    }
}

impl HullMovingAverage {
    /// The validation predicate: the period exceeds two, each lag is at
    /// least one, and the window length `left + right + 1` fits the bounded
    /// period type.
    pub open spec fn valid_spec(&self) -> bool {
        &&& self.period > 2
        &&& self.left >= 1
        &&& self.right >= 1
        &&& self.left as int + self.right as int + 1 <= u8::MAX as int
    }

    /// What setting the parameter `name` to the raw text `value` yields:
    /// the updated configuration, or nothing when the name is unknown or the
    /// value does not parse.
    pub open spec fn set_spec(self, name: Seq<char>, value: Seq<char>) -> Option<HullMovingAverage> {
        if name == "period"@ {
            if parses_to_period(value) {
                Some(HullMovingAverage { period: dec_value(value) as u8, ..self })
            } else {
                None
            }
        } else if name == "left"@ {
            if parses_to_period(value) {
                Some(HullMovingAverage { left: dec_value(value) as u8, ..self })
            } else {
                None
            }
        } else if name == "right"@ {
            if parses_to_period(value) {
                Some(HullMovingAverage { right: dec_value(value) as u8, ..self })
            } else {
                None
            }
        } else if name == "source"@ {
            match source_of_name(value) {
                Some(src) => Some(HullMovingAverage { source: src, ..self }),
                None => None,
            }
        } else {
            None
        }
    }
}

impl IndicatorConfig for HullMovingAverage {
    type Instance = HullMovingAverageInstance;

    /// The indicator's display name.
    fn name(&self) -> (r: &'static str)
        ensures
            r@ == "HullMovingAverage"@,
    {
        "HullMovingAverage"
    }

    /// Decides the validation predicate.
    fn validate(&self) -> (r: bool)
        ensures
            r == self.valid_spec(),
    {
        self.period > 2 && self.left >= 1 && self.right >= 1 && (self.left as u16) + (
        self.right as u16) + 1 <= 255
    }

    /// Sets one parameter by name from raw text. Exactly the names `period`,
    /// `left`, `right` and `source` are recognized; on an unknown name or an
    /// unparsable value the configuration is left unchanged and the error
    /// carries the offending name and value.
    fn set(&mut self, name: &str, value: String) -> (r: Result<(), Error>)
        ensures
            match r {
                Ok(()) => old(self).set_spec(name@, value@) == Some(*final (self)),
                Err(e) => {
                    &&& old(self).set_spec(name@, value@) is None
                    &&& *final (self) == *old(self)
                    &&& e matches Error::ParameterParse(n, v) && n@ == name@ && v@ == value@
                },
            },
    {
        if str_eq(name, "period") {
            match parse_period(value.as_str()) {
                Some(v) => {
                    self.period = v;
                    Ok(())
                },
                None => Err(Error::ParameterParse(name.to_owned(), value)),
            }
        } else if str_eq(name, "left") {
            match parse_period(value.as_str()) {
                Some(v) => {
                    self.left = v;
                    Ok(())
                },
                None => Err(Error::ParameterParse(name.to_owned(), value)),
            }
        } else if str_eq(name, "right") {
            match parse_period(value.as_str()) {
                Some(v) => {
                    self.right = v;
                    Ok(())
                },
                None => Err(Error::ParameterParse(name.to_owned(), value)),
            }
        } else if str_eq(name, "source") {
            match parse_source(value.as_str()) {
                Some(src) => {
                    self.source = src;
                    Ok(())
                },
                None => Err(Error::ParameterParse(name.to_owned(), value)),
            }
        } else {
            Err(Error::ParameterParse(name.to_owned(), value))
        }
    }

    /// One value and one signal per step, statically.
    fn size(&self) -> (r: (u8, u8))
        ensures
            r == (1u8, 1u8),
    {
        (1, 1)
    }

    /// Validates the parameters; on success builds the streaming instance,
    /// its smoothing state seeded with the first bar's derived scalar. On
    /// failure returns the invalid-configuration error and builds nothing.
    fn init(self, candle: &Candle) -> (r: Result<HullMovingAverageInstance, Error>)
        ensures
            match r {
                Ok(inst) => {
                    &&& self.valid_spec()
                    &&& inst.config_spec() == self
                    &&& hma_fresh(
                        inst.hma_spec(),
                        self.period as int,
                        self.candle_scalar(*candle),
                    )
                },
                Err(e) => !self.valid_spec() && e is WrongConfig,
            },
    {
        if !self.validate() {
            return Err(Error::WrongConfig);
        }
        let src = candle.source(self.source);
        match Hma::new(self.period, src) {
            Ok(hma) => Ok(HullMovingAverageInstance { cfg: self, hma }),
            // A validated configuration has a period above two, so the
            // sub-average construction cannot fail here.
            Err(_) => vstd::pervasive::unreached(),
        }
    }
}

impl HullMovingAverage {
    /// The scalar this configuration's source selector derives from a bar.
    pub open spec fn candle_scalar(self, candle: Candle) -> int {
        candle.source_spec(self.source)
    }
}

/// The streaming state of the Hull-style moving average indicator: the owned
/// configuration and one live smoothing method.
#[derive(Clone, Copy, Debug)]
pub struct HullMovingAverageInstance {
    cfg: HullMovingAverage,
    hma: Hma,
}

impl HullMovingAverageInstance {
    /// The owned configuration.
    pub closed spec fn config_spec(&self) -> HullMovingAverage {
        self.cfg
    }

    /// The live smoothing state.
    pub closed spec fn hma_spec(&self) -> Hma {
        self.hma
    }

    /// The one value a step from this state on `candle` yields.
    pub open spec fn next_value_spec(&self, candle: Candle) -> int {
        Hma::next_value_spec(self.hma_spec(), self.config_spec().candle_scalar(candle))
    }
}

impl IndicatorInstance for HullMovingAverageInstance {
    type Config = HullMovingAverage;

    /// The configuration was validated and the smoothing state is usable.
    open spec fn well_formed(&self) -> bool {
        self.config_spec().valid_spec() && self.hma_spec().wf()
    }

    /// Returns the owned configuration.
    fn config(&self) -> (r: &HullMovingAverage)
        ensures
            *r == self.config_spec(),
    {
        &self.cfg
    }

    /// Derives the configured scalar from the bar, advances the smoothing
    /// method once, and returns its value as a one-element batch.
    fn next(&mut self, candle: &Candle) -> (r: IndicatorResult)
        ensures
            final (self).config_spec() == old(self).config_spec(),
            hma_stepped(
                old(self).hma_spec(),
                final (self).hma_spec(),
                old(self).config_spec().candle_scalar(*candle),
            ),
            r@.len() == 1,
            r@[0] as int == old(self).next_value_spec(*candle),
    {
        let value = self.hma.next(candle.source(self.cfg.source));
        let r = IndicatorResult::new(vstd::array::array_as_slice(&[value]));
        proof {
            assert(r@ =~= seq![value]);
        }
        r
    }

    /// The indicator's display name.
    fn name(&self) -> (r: &'static str)
        ensures
            r@ == "HullMovingAverage"@,
    {
        "HullMovingAverage"
    }
}

} // verus!
