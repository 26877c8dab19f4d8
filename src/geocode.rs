use vstd::prelude::*;
use crate::api_call::LocationResponse;
use crate::error::WeatherError;

verus! {

/// A point, each coordinate as the decimal text that the weather service is
/// queried with.
#[derive(Debug, Clone)]
pub struct Coordinates {
    pub latitude: String,
    pub longitude: String,
}

/// One geocoding result: each coordinate is present only where the service
/// gave it as a parseable decimal (rendered back as text).
#[derive(Debug, Clone)]
pub struct GeoEntry {
    pub latitude: Option<String>,
    pub longitude: Option<String>,
}

/// The station facts that the rest of the run needs.
#[derive(Debug, Clone)]
pub struct StationInfo {
    pub forecast_url: String,
    pub forecast_office_id: String,
    pub relative_city: String,
    pub relative_state: String,
}

pub const GEOCODE_BASE: &'static str = "https://nominatim.openstreetmap.org/search?city=";
pub const GEOCODE_STATE: &'static str = "&state=";
pub const GEOCODE_TAIL: &'static str = "&country=USA&format=json&limit=1";
pub const POINTS_BASE: &'static str = "https://api.weather.gov/points/";
pub const ALERTS_BASE: &'static str = "https://api.weather.gov/alerts/active?point=";

pub open spec fn geocode_url_spec(city: Seq<char>, state: Seq<char>) -> Seq<char> {
    GEOCODE_BASE@ + city + GEOCODE_STATE@ + state + GEOCODE_TAIL@
}

pub open spec fn point_text(c: Coordinates) -> Seq<char> {
    c.latitude@ + ","@ + c.longitude@
}

pub open spec fn location_url_spec(c: Coordinates) -> Seq<char> {
    POINTS_BASE@ + point_text(c)
}

pub open spec fn alert_url_spec(c: Coordinates) -> Seq<char> {
    ALERTS_BASE@ + point_text(c)
}

/// Search URL for a city and state in the USA, asking for one result.
pub fn geocode_url(city: &String, state: &String) -> (r: String)
    ensures
        r@ == geocode_url_spec(city@, state@),
{
    String::from_str(GEOCODE_BASE).concat(city.as_str()).concat(GEOCODE_STATE).concat(state.as_str()).concat(
        GEOCODE_TAIL,
    )
}

fn point(c: &Coordinates) -> (r: String)
    ensures
        r@ == point_text(*c),
{
    c.latitude.clone().concat(",").concat(c.longitude.as_str())
}

/// Point lookup URL of the weather service.
pub fn location_url(c: &Coordinates) -> (r: String)
    ensures
        r@ == location_url_spec(*c),
{
    String::from_str(POINTS_BASE).concat(point(c).as_str())
}

/// Active alerts URL of the weather service.
pub fn alert_url(c: &Coordinates) -> (r: String)
    ensures
        r@ == alert_url_spec(*c),
{
    String::from_str(ALERTS_BASE).concat(point(c).as_str())
}

/// The coordinates of the first geocoding result. No result is `NotFound`;
/// a first result without both coordinates is `MalformedResponse`.
pub fn resolve_coordinates(entries: &Vec<GeoEntry>) -> (r: Result<Coordinates, WeatherError>)
    ensures
        entries@.len() == 0 ==> r == Err::<Coordinates, WeatherError>(WeatherError::NotFound),
        entries@.len() > 0 && (entries@[0].latitude is None || entries@[0].longitude is None) ==> r
            == Err::<Coordinates, WeatherError>(WeatherError::MalformedResponse),
        entries@.len() > 0 && entries@[0].latitude is Some && entries@[0].longitude is Some ==> (r
            matches Ok(c) && c.latitude@ == entries@[0].latitude->Some_0@ && c.longitude@
            == entries@[0].longitude->Some_0@),
{
    if entries.len() == 0 {
        return Err(WeatherError::NotFound);
    }
    match (&entries[0].latitude, &entries[0].longitude) {
        (Some(lat), Some(lon)) => Ok(Coordinates { latitude: lat.clone(), longitude: lon.clone() }),
        _ => Err(WeatherError::MalformedResponse),
    }
}

pub open spec fn station_of(resp: LocationResponse, s: StationInfo) -> bool {
    &&& s.forecast_url@ == resp.properties.forecast@
    &&& s.forecast_office_id@ == resp.properties.forecast_office@
    &&& s.relative_city@ == resp.properties.relative_location.properties.city@
    &&& s.relative_state@ == resp.properties.relative_location.properties.state@
}

/// The station facts of a point lookup; the forecast URL is kept as given.
pub fn station_info(resp: &LocationResponse) -> (r: StationInfo)
    ensures
        station_of(*resp, r),
{
    StationInfo {
        forecast_url: resp.properties.forecast.clone(),
        forecast_office_id: resp.properties.forecast_office.clone(),
        relative_city: resp.properties.relative_location.properties.city.clone(),
        relative_state: resp.properties.relative_location.properties.state.clone(),
    }
}

} // verus!
