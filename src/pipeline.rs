use vstd::prelude::*;
use crate::api_call::{AlertResponse, ForecastResponse, LocationResponse};
use crate::error::WeatherError;
use crate::forecast::{window_spec, window_to_text};
use crate::geocode::{
    alert_url, alert_url_spec, geocode_url, geocode_url_spec, location_url, location_url_spec,
    resolve_coordinates, station_info, station_of, Coordinates, GeoEntry, StationInfo,
};
use crate::prompt::{
    alert_text, alert_text_spec, build_context, context_spec, impact_prompt, impact_prompt_spec,
    push_text, texts, SUMMARY_PROMPT,
};

verus! {

/// How far a run has come. Each step moves one stage forward, or to `Failed`.
#[derive(Debug, Clone, Copy, PartialEq, Eq, Structural)]
pub enum Stage {
    Start,
    Geocoded,
    StationResolved,
    ForecastFetched,
    Summarized,
    AlertsFetched,
    Done,
    Failed(WeatherError),
}

/// The outcome of the request that the last action asked for.
#[derive(Debug)]
pub enum Event {
    Geocode(Result<Vec<GeoEntry>, WeatherError>),
    Station(Result<LocationResponse, WeatherError>),
    Forecast(Result<ForecastResponse, WeatherError>),
    Completion(Result<String, WeatherError>),
    Alerts(Result<AlertResponse, WeatherError>),
}

/// What the caller must do next.
#[derive(Debug)]
pub enum Action {
    /// GET the geocoding search URL.
    Geocode(String),
    /// GET the point lookup URL.
    LookupStation(String),
    /// GET the forecast URL.
    FetchForecast(String),
    /// Ask the completion service for `prompt`, under `context`.
    Complete { context: Vec<String>, prompt: String },
    /// GET the active alerts URL.
    FetchAlerts(String),
    /// The run succeeded.
    Finish { summary: String, analysis: String },
    /// The run failed; nothing more is to be done.
    Abort(WeatherError),
}

/// The state of one run. Every run builds its own.
pub struct Pipeline {
    pub stage: Stage,
    pub city: String,
    pub state: String,
    pub coordinates: Option<Coordinates>,
    pub station: Option<StationInfo>,
    pub context: Vec<String>,
    pub summary: String,
    pub alert: String,
}

/// Position of a stage along the run; `Failed` has none.
pub open spec fn rank(s: Stage) -> int {
    match s {
        Stage::Start => 0,
        Stage::Geocoded => 1,
        Stage::StationResolved => 2,
        Stage::ForecastFetched => 3,
        Stage::Summarized => 4,
        Stage::AlertsFetched => 5,
        Stage::Done => 6,
        Stage::Failed(_) => -1,
    }
}

/// The event that a stage waits for. `Done` and `Failed` wait for none.
pub open spec fn expects(s: Stage, e: Event) -> bool {
    match s {
        Stage::Start => e is Geocode,
        Stage::Geocoded => e is Station,
        Stage::StationResolved => e is Forecast,
        Stage::ForecastFetched => e is Completion,
        Stage::Summarized => e is Alerts,
        Stage::AlertsFetched => e is Completion,
        _ => false,
    }
}

/// The error that an event carries, if any.
pub open spec fn event_error(e: Event) -> Option<WeatherError> {
    match e {
        Event::Geocode(Err(x)) => Some(x),
        Event::Station(Err(x)) => Some(x),
        Event::Forecast(Err(x)) => Some(x),
        Event::Completion(Err(x)) => Some(x),
        Event::Alerts(Err(x)) => Some(x),
        _ => None,
    }
}

/// Why a geocoding result is refused, if it is.
pub open spec fn geocode_error(entries: Seq<GeoEntry>) -> Option<WeatherError> {
    if entries.len() == 0 {
        Some(WeatherError::NotFound)
    } else if entries[0].latitude is None || entries[0].longitude is None {
        Some(WeatherError::MalformedResponse)
    } else {
        None
    }
}

pub open spec fn is_abort(a: Action, e: WeatherError) -> bool {
    a matches Action::Abort(x) && x == e
}

impl Pipeline {
    /// Coordinates are known from `Geocoded` on, the station from
    /// `StationResolved` on.
    pub open spec fn wf(&self) -> bool {
        &&& rank(self.stage) >= 1 ==> self.coordinates is Some
        &&& rank(self.stage) >= 2 ==> self.station is Some
    }

    /// A fresh run for a city and state, and its first action.
    pub fn start(city: String, state: String) -> (r: (Pipeline, Action))
        ensures
            r.0.wf(),
            r.0.stage == Stage::Start,
            r.0.city@ == city@,
            r.0.state@ == state@,
            r.1 matches Action::Geocode(u) && u@ == geocode_url_spec(city@, state@),
    {
        let url = geocode_url(&city, &state);
        let p = Pipeline {
            stage: Stage::Start,
            city,
            state,
            coordinates: None,
            station: None,
            context: Vec::new(),
            summary: String::new(),
            alert: String::new(),
        };
        (p, Action::Geocode(url))
    }

    /// Whether the run waits for this event.
    pub fn accepts(&self, e: &Event) -> (r: bool)
        ensures
            r == expects(self.stage, *e),
    {
        match self.stage {
            Stage::Start => matches!(e, Event::Geocode(_)),
            Stage::Geocoded => matches!(e, Event::Station(_)),
            Stage::StationResolved => matches!(e, Event::Forecast(_)),
            Stage::ForecastFetched => matches!(e, Event::Completion(_)),
            Stage::Summarized => matches!(e, Event::Alerts(_)),
            Stage::AlertsFetched => matches!(e, Event::Completion(_)),
            _ => false,
        }
    }

    /// Takes the outcome of the pending request and returns the next action.
    /// An error from any request ends the run in `Failed` with that error,
    /// before any further request. Both completions run under the same
    /// context, built once from the station and the forecast; the second does
    /// not see the first exchange except through the summary in its prompt.
    pub fn advance(&mut self, event: Event) -> (a: Action)
        requires
            old(self).wf(),
            expects(old(self).stage, event),
        ensures
            final(self).wf(),
            final(self).city == old(self).city,
            final(self).state == old(self).state,
            event_error(event) matches Some(e) ==> final(self).stage == Stage::Failed(e)
                && is_abort(a, e),
            event matches Event::Geocode(Ok(entries)) ==> match geocode_error(entries@) {
                Some(e) => final(self).stage == Stage::Failed(e) && is_abort(a, e),
                None => {
                    &&& final(self).stage == Stage::Geocoded
                    &&& final(self).coordinates matches Some(c)
                    &&& c.latitude@ == entries@[0].latitude->Some_0@
                    &&& c.longitude@ == entries@[0].longitude->Some_0@
                    &&& a matches Action::LookupStation(u) && u@ == location_url_spec(c)
                },
            },
            event matches Event::Station(Ok(resp)) ==> {
                &&& final(self).stage == Stage::StationResolved
                &&& final(self).coordinates == old(self).coordinates
                &&& final(self).station matches Some(st) && station_of(resp, st)
                &&& a matches Action::FetchForecast(u) && u@ == resp.properties.forecast@
            },
            event matches Event::Forecast(Ok(resp)) ==> {
                let st = old(self).station->Some_0;
                &&& final(self).stage == Stage::ForecastFetched
                &&& final(self).coordinates == old(self).coordinates
                &&& final(self).station == old(self).station
                &&& texts(final(self).context@) == context_spec(
                    st.relative_city@,
                    st.relative_state@,
                    st.forecast_office_id@,
                    window_spec(resp.properties.periods@),
                )
                &&& a matches Action::Complete { context, prompt } && texts(context@) == texts(
                    final(self).context@,
                ) && prompt@ == SUMMARY_PROMPT@
            },
            old(self).stage == Stage::ForecastFetched ==> (event matches Event::Completion(Ok(text))
                ==> {
                &&& final(self).stage == Stage::Summarized
                &&& final(self).coordinates == old(self).coordinates
                &&& final(self).station == old(self).station
                &&& texts(final(self).context@) == texts(old(self).context@)
                &&& final(self).summary@ == text@
                &&& a matches Action::FetchAlerts(u) && u@ == alert_url_spec(
                    old(self).coordinates->Some_0,
                )
            }),
            event matches Event::Alerts(Ok(resp)) ==> {
                &&& final(self).stage == Stage::AlertsFetched
                &&& final(self).coordinates == old(self).coordinates
                &&& final(self).station == old(self).station
                &&& texts(final(self).context@) == texts(old(self).context@)
                &&& final(self).summary@ == old(self).summary@
                &&& final(self).alert@ == alert_text_spec(resp)
                &&& a matches Action::Complete { context, prompt } && texts(context@) == texts(
                    old(self).context@,
                ) && prompt@ == impact_prompt_spec(old(self).summary@, alert_text_spec(resp))
            },
            old(self).stage == Stage::AlertsFetched ==> (event matches Event::Completion(Ok(text))
                ==> {
                &&& final(self).stage == Stage::Done
                &&& a matches Action::Finish { summary, analysis } && summary@ == old(
                    self,
                ).summary@ && analysis@ == text@
            }),
    {
        match event {
            Event::Geocode(Ok(entries)) => match resolve_coordinates(&entries) {
                Ok(c) => {
                    let url = location_url(&c);
                    self.coordinates = Some(c);
                    self.stage = Stage::Geocoded;
                    Action::LookupStation(url)
                },
                Err(e) => self.fail(e),
            },
            Event::Station(Ok(resp)) => {
                let st = station_info(&resp);
                let url = st.forecast_url.clone();
                self.station = Some(st);
                self.stage = Stage::StationResolved;
                Action::FetchForecast(url)
            },
            Event::Forecast(Ok(resp)) => {
                let window = window_to_text(&resp.properties.periods);
                proof {
                    assert(texts(window@) =~= window_spec(resp.properties.periods@));
                }
                let context = match &self.station {
                    Some(st) => build_context(
                        &st.relative_city,
                        &st.relative_state,
                        &st.forecast_office_id,
                        &window,
                    ),
                    None => Vec::new(),
                };
                let handed = copy_texts(&context);
                self.context = context;
                self.stage = Stage::ForecastFetched;
                Action::Complete { context: handed, prompt: String::from_str(SUMMARY_PROMPT) }
            },
            Event::Completion(Ok(text)) => {
                if self.stage == Stage::ForecastFetched {
                    let url = match &self.coordinates {
                        Some(c) => alert_url(c),
                        None => String::new(),
                    };
                    self.summary = text;
                    self.stage = Stage::Summarized;
                    Action::FetchAlerts(url)
                } else {
                    let summary = self.summary.clone();
                    self.stage = Stage::Done;
                    Action::Finish { summary, analysis: text }
                }
            },
            Event::Alerts(Ok(resp)) => {
                let alert = alert_text(&resp);
                let prompt = impact_prompt(&self.summary, &alert);
                let handed = copy_texts(&self.context);
                self.alert = alert;
                self.stage = Stage::AlertsFetched;
                Action::Complete { context: handed, prompt }
            },
            Event::Geocode(Err(e)) => self.fail(e),
            Event::Station(Err(e)) => self.fail(e),
            Event::Forecast(Err(e)) => self.fail(e),
            Event::Completion(Err(e)) => self.fail(e),
            Event::Alerts(Err(e)) => self.fail(e),
        }
    }

    fn fail(&mut self, e: WeatherError) -> (a: Action)
        ensures
            final(self).stage == Stage::Failed(e),
            final(self).city == old(self).city,
            final(self).state == old(self).state,
            is_abort(a, e),
    {
        self.stage = Stage::Failed(e);
        Action::Abort(e)
    }
}

fn copy_texts(v: &Vec<String>) -> (r: Vec<String>)
    ensures
        texts(r@) == texts(v@),
{
    let mut r: Vec<String> = Vec::new();
    let mut i: usize = 0;
    while i < v.len()
        invariant
            i <= v@.len(),
            texts(r@) == texts(v@).subrange(0, i as int),
        decreases v@.len() - i,
    {
        push_text(&mut r, v[i].clone());
        assert(texts(v@)[i as int] == v@[i as int]@);
        i = i + 1;
        assert(texts(r@) =~= texts(v@).subrange(0, i as int));
    }
    assert(texts(v@).subrange(0, i as int) =~= texts(v@));
    r
}

} // verus!
