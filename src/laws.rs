use vstd::prelude::*;
use crate::api_call::{AlertResponse, ForecastPeriod};
use crate::error::WeatherError;
use crate::forecast::{window_spec, WINDOW_SIZE};
use crate::pipeline::{expects, Event, Stage};
use crate::prompt::{alert_text_spec, context_spec, impact_prompt_spec};

verus! {

/// Two forecasts agree in text when their periods agree in name and
/// description, one for one.
pub open spec fn same_periods(p1: Seq<ForecastPeriod>, p2: Seq<ForecastPeriod>) -> bool {
    &&& p1.len() == p2.len()
    &&& forall|i: int|
        0 <= i < p1.len() ==> #[trigger] p1[i].name@ == p2[i].name@ && p1[i].detailed_forecast@
            == p2[i].detailed_forecast@
}

/// Two alert responses agree in their first headline, or both have none.
pub open spec fn same_first_alert(a1: AlertResponse, a2: AlertResponse) -> bool {
    &&& (a1.features@.len() > 0 <==> a2.features@.len() > 0)
    &&& a1.features@.len() > 0 ==> a1.features@[0].properties.headline@
        == a2.features@[0].properties.headline@
}

/// Runs on the same data build the same forecast window, the same context
/// and the same impact prompt: nothing but the text of the responses goes
/// into them.
pub proof fn lemma_same_data_same_prompts(
    p1: Seq<ForecastPeriod>,
    p2: Seq<ForecastPeriod>,
    city: Seq<char>,
    state: Seq<char>,
    office: Seq<char>,
    summary: Seq<char>,
    a1: AlertResponse,
    a2: AlertResponse,
)
    requires
        same_periods(p1, p2),
        same_first_alert(a1, a2),
    ensures
        window_spec(p1) == window_spec(p2),
        window_spec(p1).len() == WINDOW_SIZE,
        context_spec(city, state, office, window_spec(p1)) == context_spec(
            city,
            state,
            office,
            window_spec(p2),
        ),
        impact_prompt_spec(summary, alert_text_spec(a1)) == impact_prompt_spec(
            summary,
            alert_text_spec(a2),
        ),
{
    assert(window_spec(p1) =~= window_spec(p2));
}

/// A failed run waits for no event: after a failure no request is made.
pub proof fn lemma_failure_is_final(e: WeatherError, ev: Event)
    ensures
        !expects(Stage::Failed(e), ev),
{
}

/// A finished run waits for no event.
pub proof fn lemma_done_is_final(ev: Event)
    ensures
        !expects(Stage::Done, ev),
{
}

} // verus!
