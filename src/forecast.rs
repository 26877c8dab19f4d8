use vstd::prelude::*;
use crate::api_call::ForecastPeriod;

verus! {

/// Number of forecast periods injected into the prompt.
pub const WINDOW_SIZE: usize = 6;

/// Text standing for a forecast period that the service did not return.
pub const NO_DATA: &'static str = "No data found";

/// `"{name}, {detailed_forecast}"`.
pub open spec fn period_text_spec(p: ForecastPeriod) -> Seq<char> {
    p.name@ + ", "@ + p.detailed_forecast@
}

/// Entry `i` of the forecast window: the period's text, or the sentinel.
pub open spec fn window_entry(periods: Seq<ForecastPeriod>, i: int) -> Seq<char> {
    if i < periods.len() {
        period_text_spec(periods[i])
    } else {
        NO_DATA@
    }
}

/// The whole window, as text.
pub open spec fn window_spec(periods: Seq<ForecastPeriod>) -> Seq<Seq<char>> {
    Seq::new(WINDOW_SIZE as nat, |i: int| window_entry(periods, i))
}

/// Renders one forecast period as `"{name}, {detailed_forecast}"`.
pub fn period_text(p: &ForecastPeriod) -> (r: String)
    ensures
        r@ == period_text_spec(*p),
{
    let r = p.name.clone().concat(", ");
    r.concat(p.detailed_forecast.as_str())
}

/// The first `WINDOW_SIZE` periods as text, padded with `NO_DATA`.
/// The result always has exactly `WINDOW_SIZE` entries.
pub fn window_to_text(periods: &Vec<ForecastPeriod>) -> (r: Vec<String>)
    ensures
        r@.len() == WINDOW_SIZE,
        forall|i: int| 0 <= i < WINDOW_SIZE ==> #[trigger] r@[i]@ == window_entry(periods@, i),
{
    let mut r: Vec<String> = Vec::new();
    let mut i: usize = 0;
    while i < WINDOW_SIZE
        invariant
            i <= WINDOW_SIZE,
            r@.len() == i,
            forall|j: int| 0 <= j < i ==> #[trigger] r@[j]@ == window_entry(periods@, j),
        decreases WINDOW_SIZE - i,
    {
        if i < periods.len() {
            r.push(period_text(&periods[i]));
        } else {
            r.push(String::from_str(NO_DATA));
        }
        i = i + 1;
    }
    r
}

} // verus!
