use weather_agent::{
    Action, AlertFeature, AlertProperties, AlertResponse, Event, ForecastPeriod,
    ForecastProperties, ForecastResponse, GeoEntry, LocationProperties, LocationResponse,
    Pipeline, RelativeLocation, RelativeLocationWrapper, Stage, WeatherError,
};

const FORECAST_URL: &str = "https://api.weather.gov/gridpoints/OKX/33,35/forecast";

fn geo() -> Event {
    Event::Geocode(Ok(vec![GeoEntry {
        latitude: Some("40.7".to_string()),
        longitude: Some("-74".to_string()),
    }]))
}

fn station() -> Event {
    Event::Station(Ok(LocationResponse {
        properties: LocationProperties {
            forecast: FORECAST_URL.to_string(),
            forecast_office: "OKX".to_string(),
            relative_location: RelativeLocationWrapper {
                properties: RelativeLocation { city: "Hoboken".to_string(), state: "NJ".to_string() },
            },
        },
    }))
}

fn forecast() -> Event {
    let p = |n: &str, d: &str| ForecastPeriod { name: n.to_string(), detailed_forecast: d.to_string() };
    Event::Forecast(Ok(ForecastResponse {
        properties: ForecastProperties {
            periods: vec![p("Tonight", "Partly cloudy, low around 57."), p("Monday", "Sunny, high near 70.")],
        },
    }))
}

fn alerts(headlines: &[&str]) -> Event {
    Event::Alerts(Ok(AlertResponse {
        features: headlines
            .iter()
            .map(|h| AlertFeature { properties: AlertProperties { headline: h.to_string() } })
            .collect(),
    }))
}

fn step(p: &mut Pipeline, e: Event) -> Action {
    assert!(p.accepts(&e), "event {:?} not expected at {:?}", e, p.stage);
    p.advance(e)
}

fn complete(a: Action) -> (Vec<String>, String) {
    match a {
        Action::Complete { context, prompt } => (context, prompt),
        other => panic!("expected a completion, got {:?}", other),
    }
}

/// Runs a whole pipeline and returns the two completion requests.
fn full_run(headlines: &[&str]) -> ((Vec<String>, String), (Vec<String>, String), Action) {
    let (mut p, _) = Pipeline::start("Hoboken".to_string(), "NJ".to_string());
    step(&mut p, geo());
    step(&mut p, station());
    let first = complete(step(&mut p, forecast()));
    step(&mut p, Event::Completion(Ok("SUMMARY".to_string())));
    let second = complete(step(&mut p, alerts(headlines)));
    let done = step(&mut p, Event::Completion(Ok("IMPACT".to_string())));
    (first, second, done)
}

#[test]
fn scenario_station_and_short_forecast() {
    let (mut p, a) = Pipeline::start("Hoboken".to_string(), "NJ".to_string());
    match a {
        Action::Geocode(u) => assert!(u.contains("city=Hoboken&state=NJ")),
        other => panic!("{:?}", other),
    }
    match step(&mut p, geo()) {
        Action::LookupStation(u) => assert_eq!(u, "https://api.weather.gov/points/40.7,-74"),
        other => panic!("{:?}", other),
    }
    match step(&mut p, station()) {
        Action::FetchForecast(u) => assert_eq!(u, FORECAST_URL),
        other => panic!("{:?}", other),
    }
    let (context, prompt) = complete(step(&mut p, forecast()));
    assert_eq!(p.stage, Stage::ForecastFetched);
    assert_eq!(prompt, "Give me a summary of the weather data you just received.");
    assert_eq!(context[10], "This is a weather report for Hoboken, NJ.");
    assert_eq!(context[11], "The nearest National Weather Service weather station is OKX.");
    assert_eq!(
        context[12],
        "Here is today's data from the National Weather Service API: Tonight, Partly cloudy, low around 57.."
    );
    assert_eq!(
        context[13],
        "Here is the next entry from the National Weather Serivce API: Monday, Sunny, high near 70.."
    );
    for i in 14..18 {
        assert_eq!(context[i], "Here is the next entry from the National Weather Serivce API: No data found.");
    }
    match step(&mut p, Event::Completion(Ok("SUMMARY".to_string()))) {
        Action::FetchAlerts(u) => assert_eq!(u, "https://api.weather.gov/alerts/active?point=40.7,-74"),
        other => panic!("{:?}", other),
    }
}

#[test]
fn scenario_no_alerts_uses_sentinel() {
    let (first, second, done) = full_run(&[]);
    assert_eq!(first.0, second.0);
    assert!(second.1.ends_with("Weather report: SUMMARY, Headline: No Active Alerts or Headlines"));
    match done {
        Action::Finish { summary, analysis } => {
            assert_eq!(summary, "SUMMARY");
            assert_eq!(analysis, "IMPACT");
        },
        other => panic!("{:?}", other),
    }
}

#[test]
fn first_headline_goes_into_second_prompt() {
    let (_, second, _) = full_run(&["Flood Watch", "Wind Advisory"]);
    assert!(second.1.ends_with("Headline: Flood Watch"));
}

#[test]
fn scenario_first_completion_fails() {
    let (mut p, _) = Pipeline::start("Hoboken".to_string(), "NJ".to_string());
    step(&mut p, geo());
    step(&mut p, station());
    step(&mut p, forecast());
    match step(&mut p, Event::Completion(Err(WeatherError::Transport))) {
        Action::Abort(e) => assert_eq!(e, WeatherError::Transport),
        other => panic!("{:?}", other),
    }
    assert_eq!(p.stage, Stage::Failed(WeatherError::Transport));
    assert!(!p.accepts(&alerts(&[])));
    assert!(!p.accepts(&Event::Completion(Ok("x".to_string()))));
}

#[test]
fn empty_geocoding_stops_the_run() {
    let (mut p, _) = Pipeline::start("Nowhere".to_string(), "ZZ".to_string());
    match step(&mut p, Event::Geocode(Ok(Vec::new()))) {
        Action::Abort(e) => assert_eq!(e, WeatherError::NotFound),
        other => panic!("{:?}", other),
    }
    assert_eq!(p.stage, Stage::Failed(WeatherError::NotFound));
    assert!(!p.accepts(&station()));
}

#[test]
fn malformed_station_response_fails() {
    let (mut p, _) = Pipeline::start("Hoboken".to_string(), "NJ".to_string());
    step(&mut p, geo());
    match step(&mut p, Event::Station(Err(WeatherError::MalformedResponse))) {
        Action::Abort(e) => assert_eq!(e, WeatherError::MalformedResponse),
        other => panic!("{:?}", other),
    }
    assert_eq!(p.stage, Stage::Failed(WeatherError::MalformedResponse));
}

#[test]
fn forecast_transport_error_fails() {
    let (mut p, _) = Pipeline::start("Hoboken".to_string(), "NJ".to_string());
    step(&mut p, geo());
    step(&mut p, station());
    match step(&mut p, Event::Forecast(Err(WeatherError::Transport))) {
        Action::Abort(e) => assert_eq!(e, WeatherError::Transport),
        other => panic!("{:?}", other),
    }
}

#[test]
fn events_out_of_order_are_not_accepted() {
    let (p, _) = Pipeline::start("Hoboken".to_string(), "NJ".to_string());
    assert!(!p.accepts(&station()));
    assert!(!p.accepts(&Event::Completion(Ok("x".to_string()))));
    assert!(p.accepts(&geo()));
}

#[test]
fn repeated_runs_build_identical_prompts() {
    let (a1, b1, _) = full_run(&["Flood Watch"]);
    let (a2, b2, _) = full_run(&["Flood Watch"]);
    assert_eq!(a1, a2);
    assert_eq!(b1, b2);
}
