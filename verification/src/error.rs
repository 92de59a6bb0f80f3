use vstd::prelude::*;

verus! {

/// A construction-time failure. Per-step evaluation never fails: every error
/// of this engine is reported when a configuration is validated or mutated,
/// and an instance whose construction succeeded never returns an error.
#[derive(Debug)]
pub enum Error {
    /// The configuration's validation predicate failed at `init` time: the
    /// parameters are individually well-typed but jointly invalid.
    WrongConfig,
    /// A named parameter could not be set: the name is unrecognized or the
    /// raw value could not be parsed into the parameter's type. Carries the
    /// offending name and raw value for diagnostics.
    ParameterParse(String, String),
}

} // verus!
