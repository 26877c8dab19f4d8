use vstd::prelude::*;

verus! {

/// Point lookup response: `GET /points/{lat},{lon}`.
#[derive(Debug, Clone)]
pub struct LocationResponse {
    pub properties: LocationProperties,
}

/// The fields of a point lookup that the pipeline reads.
#[derive(Debug, Clone)]
pub struct LocationProperties {
    /// URL of the forecast document; opaque, passed through unchanged.
    pub forecast: String,
    /// Identifier of the forecast office.
    pub forecast_office: String,
    pub relative_location: RelativeLocationWrapper,
}

#[derive(Debug, Clone)]
pub struct RelativeLocationWrapper {
    pub properties: RelativeLocation,
}

/// The locality nearest to the station; may differ from the one asked for.
#[derive(Debug, Clone)]
pub struct RelativeLocation {
    pub city: String,
    pub state: String,
}

/// Forecast document.
#[derive(Debug, Clone)]
pub struct ForecastResponse {
    pub properties: ForecastProperties,
}

#[derive(Debug, Clone)]
pub struct ForecastProperties {
    /// Forecast periods, soonest first; may be empty.
    pub periods: Vec<ForecastPeriod>,
}

/// One named time segment of a forecast.
#[derive(Debug, Clone)]
pub struct ForecastPeriod {
    /// For example "Tonight".
    pub name: String,
    pub detailed_forecast: String,
}

/// Active alerts for a point. A response without `features` decodes as none.
#[derive(Debug, Clone)]
pub struct AlertResponse {
    pub features: Vec<AlertFeature>,
}

#[derive(Debug, Clone)]
pub struct AlertFeature {
    pub properties: AlertProperties,
}

#[derive(Debug, Clone)]
pub struct AlertProperties {
    pub headline: String,
}

} // verus!
