use weather_agent::{
    alert_text, alert_url, build_context, geocode_url, impact_prompt, location_url,
    resolve_coordinates, station_info, AlertFeature, AlertProperties, AlertResponse, Coordinates,
    GeoEntry, LocationProperties, LocationResponse, RelativeLocation, RelativeLocationWrapper,
    WeatherError, NO_ALERTS, SUMMARY_PROMPT,
};

fn coords() -> Coordinates {
    Coordinates { latitude: "40.7".to_string(), longitude: "-74".to_string() }
}

#[test]
fn urls_are_built_from_their_parts() {
    assert_eq!(
        geocode_url(&"Hoboken".to_string(), &"NJ".to_string()),
        "https://nominatim.openstreetmap.org/search?city=Hoboken&state=NJ&country=USA&format=json&limit=1"
    );
    assert_eq!(location_url(&coords()), "https://api.weather.gov/points/40.7,-74");
    assert_eq!(alert_url(&coords()), "https://api.weather.gov/alerts/active?point=40.7,-74");
}

#[test]
fn no_geocoding_result_is_not_found() {
    assert_eq!(resolve_coordinates(&Vec::new()).unwrap_err(), WeatherError::NotFound);
}

#[test]
fn missing_coordinate_is_malformed() {
    let e = GeoEntry { latitude: Some("40.7".to_string()), longitude: None };
    assert_eq!(resolve_coordinates(&vec![e]).unwrap_err(), WeatherError::MalformedResponse);
    let e = GeoEntry { latitude: None, longitude: Some("-74".to_string()) };
    assert_eq!(resolve_coordinates(&vec![e]).unwrap_err(), WeatherError::MalformedResponse);
}

#[test]
fn first_geocoding_result_wins() {
    let a = GeoEntry { latitude: Some("1.5".to_string()), longitude: Some("2.5".to_string()) };
    let b = GeoEntry { latitude: Some("3".to_string()), longitude: Some("4".to_string()) };
    let c = resolve_coordinates(&vec![a, b]).unwrap();
    assert_eq!(c.latitude, "1.5");
    assert_eq!(c.longitude, "2.5");
}

#[test]
fn station_info_keeps_the_fields() {
    let resp = LocationResponse {
        properties: LocationProperties {
            forecast: "https://api.weather.gov/gridpoints/OKX/33,35/forecast".to_string(),
            forecast_office: "OKX".to_string(),
            relative_location: RelativeLocationWrapper {
                properties: RelativeLocation { city: "Hoboken".to_string(), state: "NJ".to_string() },
            },
        },
    };
    let s = station_info(&resp);
    assert_eq!(s.forecast_url, "https://api.weather.gov/gridpoints/OKX/33,35/forecast");
    assert_eq!(s.forecast_office_id, "OKX");
    assert_eq!(s.relative_city, "Hoboken");
    assert_eq!(s.relative_state, "NJ");
}

#[test]
fn no_alert_gives_sentinel() {
    let a = AlertResponse { features: Vec::new() };
    assert_eq!(alert_text(&a), "No Active Alerts or Headlines");
    assert_eq!(NO_ALERTS, "No Active Alerts or Headlines");
}

#[test]
fn first_alert_headline_is_used() {
    let f = |h: &str| AlertFeature { properties: AlertProperties { headline: h.to_string() } };
    let a = AlertResponse { features: vec![f("Flood Watch"), f("Heat Advisory")] };
    assert_eq!(alert_text(&a), "Flood Watch");
}

#[test]
fn impact_prompt_embeds_summary_and_headline() {
    let p = impact_prompt(&"Mild week".to_string(), &"Flood Watch".to_string());
    assert_eq!(
        p,
        "Given the following weather report and NWS headline, what are the implications of this weather event for the public? Weather report: Mild week, Headline: Flood Watch"
    );
}

#[test]
fn context_layout() {
    let window: Vec<String> = (0..6).map(|i| format!("entry {}", i)).collect();
    let c = build_context(&"Hoboken".to_string(), &"NJ".to_string(), &"OKX".to_string(), &window);
    assert_eq!(c.len(), 22);
    assert_eq!(c[0], "Don't ask follow up questions.");
    assert_eq!(c[10], "This is a weather report for Hoboken, NJ.");
    assert_eq!(c[11], "The nearest National Weather Service weather station is OKX.");
    assert_eq!(c[12], "Here is today's data from the National Weather Service API: entry 0.");
    assert_eq!(c[17], "Here is the next entry from the National Weather Serivce API: entry 5.");
    assert!(c[18].starts_with("here is an example header to your output:"));
    assert_eq!(c[21], "Ensure all weather forecasts are included in the table.");
    assert_eq!(SUMMARY_PROMPT, "Give me a summary of the weather data you just received.");
}
