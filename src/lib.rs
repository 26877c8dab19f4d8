//! Weather briefing pipeline: turns a city and state into two language-model
//! prompts built from National Weather Service data.
//!
//! Everything here is pure logic over plain values. Network requests, JSON
//! decoding and the completion service itself are driven by the caller, which
//! hands each response to the pipeline state machine in `pipeline`.

mod error;
mod api_call;
mod forecast;
mod prompt;
mod geocode;
mod pipeline;
mod laws;

pub use error::WeatherError;
pub use api_call::{
    AlertFeature, AlertProperties, AlertResponse, ForecastPeriod, ForecastProperties,
    ForecastResponse, LocationProperties, LocationResponse, RelativeLocation,
    RelativeLocationWrapper,
};
pub use forecast::{period_text, window_to_text, NO_DATA, WINDOW_SIZE};
pub use prompt::{alert_text, build_context, impact_prompt, NO_ALERTS, SUMMARY_PROMPT};
pub use geocode::{
    alert_url, geocode_url, location_url, resolve_coordinates, station_info, Coordinates, GeoEntry,
    StationInfo,
};
pub use pipeline::{Action, Event, Pipeline, Stage};
pub use laws::{lemma_done_is_final, lemma_failure_is_final, lemma_same_data_same_prompts};
