use vstd::prelude::*;

use crate::candle::Candle;
use crate::error::Error;
use crate::result::IndicatorResult;

verus! {

/// The configuration half of an indicator: a plain record of named
/// parameters with a validation predicate. It is freely mutable through
/// [`IndicatorConfig::set`] until [`IndicatorConfig::init`] consumes it and
/// hands exclusive ownership of it to the instance it produces.
pub trait IndicatorConfig: Sized {
    /// The streaming state this configuration builds.
    type Instance: IndicatorInstance;

    /// The indicator's display name.
    fn name(&self) -> &'static str;

    /// The validation predicate: whether the parameters are jointly valid.
    fn validate(&self) -> bool;

    /// Sets a parameter by name from raw text, before initialization. On an
    /// unknown name or an unparsable value it reports a parameter-parse
    /// error carrying the offending name and value, and changes nothing.
    fn set(&mut self, name: &str, value: String) -> Result<(), Error>;

    /// How many values and how many signals one step of this indicator will
    /// ever produce, independent of runtime data.
    fn size(&self) -> (u8, u8);

    /// Validates the parameters and, on success, builds the streaming
    /// instance, seeding its method states from the first bar.
    fn init(self, candle: &Candle) -> (r: Result<Self::Instance, Error>)
        ensures
            r matches Ok(inst) ==> inst.well_formed(),
    ;
}

/// The streaming half of an indicator: owns its configuration and its live
/// method states, and is advanced one bar at a time. Never reset, never
/// shared; a per-step call never fails.
pub trait IndicatorInstance: Sized {
    /// The configuration this instance was built from.
    type Config;

    /// Well-formedness of the streaming state: established by `init` and
    /// preserved by every step.
    spec fn well_formed(&self) -> bool;

    /// Returns the owned configuration, for introspection.
    fn config(&self) -> &Self::Config;

    /// Consumes exactly one bar, advances every owned method once, and packs
    /// their outputs into a bounded result batch.
    fn next(&mut self, candle: &Candle) -> (r: IndicatorResult)
        requires
            old(self).well_formed(),
        ensures
            final (self).well_formed(),
            r.wf(),
    ;

    /// The indicator's display name.
    fn name(&self) -> &'static str;
}

} // verus!
