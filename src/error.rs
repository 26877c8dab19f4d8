use vstd::prelude::*;

verus! {

/// Why a pipeline run stopped.
#[derive(Debug, Clone, Copy, PartialEq, Eq, Structural)]
pub enum WeatherError {
    /// A network or HTTP failure, at any step.
    Transport,
    /// The geocoding service returned no result.
    NotFound,
    /// A required field of a response was missing or unparseable.
    MalformedResponse,
    /// The completion service credential is not configured.
    Configuration,
}

} // verus!
