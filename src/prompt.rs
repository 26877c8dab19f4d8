use vstd::prelude::*;
use crate::api_call::AlertResponse;
use crate::forecast::WINDOW_SIZE;

verus! {

// Standing instructions, in the order they open every context.
pub const RULE_NO_FOLLOW_UP: &'static str = "Don't ask follow up questions.";
pub const RULE_ROLE: &'static str = "You are an insightful weather analyst, tasked with giving multiple days of forecast.";
pub const RULE_SOURCE: &'static str = "You receive data being injected from the National Weather Service API.";
pub const RULE_FOCUS: &'static str = "You have a focus on being as functional and analytical as possible with the data you are given.";
pub const RULE_TABLES: &'static str = "You ues ASCII formatting to make labeled data tables of the data you are given.";
pub const RULE_ENTRY_COUNT: &'static str = "You will receive 5 total entries. The data is divided by new line characters. The first entry is the current forecast.";
pub const RULE_ALL_ENTRIES: &'static str = "IMPORTANT: Ensure that all 5 entries are included in the table";
pub const RULE_NO_ALERTS: &'static str = "When you are asked about weather alerts, please be sure to inform the user if there are none.";
pub const RULE_ALERTS_FIRST: &'static str = "If there are weather alerts, they should be the main focus of your response.";
pub const RULE_PATTERNS: &'static str = "You have a focus on taking the next forecasted days to give the user an analysis of what weather patterns around this time of year are like.";

// Worked examples of the expected tabular output.
pub const EXAMPLE_HOBOKEN: &'static str = "here is an example header to your output:
            Weather Report for Hoboken, NJ:
            ------------------------------------------------
            | Time                | Conditions             |
            ------------------------------------------------
            | Overnight           |                         |
            | Current Forecast    | Partly cloudy           |
            | Temperature         | Low around 57°F         |
            | Wind                | West wind around 3 mph  |
            ------------------------------------------------
            | Tomorrow Morning    |                         |
            | Conditions          | Partly cloudy           |
            | Temperature         | Expected rise to 59°F   |
            | Wind                | West wind around 3 mph  |
            ------------------------------------------------
            | Tomorrow Evening    |                         |
            | Conditions          | Partly cloudy           |
            | Temperature         | Low around 57°F         |
            | Wind                | West wind around 3 mph  |
            ------------------------------------------------
            | Following Day       |                         |
            | Conditions          | Partly cloudy           |
            | Temperature         | High near 70°F, Low 55°F|
            | Wind                | Variable winds          |
            ------------------------------------------------
            | Following Evening   |                         |
            | Conditions          | Mostly clear            |
            | Temperature         | High near 68°F, Low 54°F|
            | Wind                | Calm wind prevailing    |
            ------------------------------------------------
            ";
pub const EXAMPLE_CHICAGO: &'static str = "Here is another example:
            Weather Report for Chicago, IL:
            ------------------------------------------------
            | Time                | Conditions              |
            ------------------------------------------------
            | Tonight             |                         |
            | Conditions          | Cloudy                  |
            | Temperature         | Low around 50°F         |
            | Wind                | East northeast 5-10 mph |
            ------------------------------------------------
            | Tomorrow            |                         |
            | Conditions          | Mostly sunny            |
            | Temperature         | High near 70°F, Low 52°F|
            | Wind                | east wind 5-10 mph      |
            ------------------------------------------------
            | Tomorrow Evening    |                         |
            | Conditions          | Partly cloudy           |
            | Temperature         | Low 54°F                |
            | Wind                | Southeast 5 mph         |
            ------------------------------------------------
            | Following Day       |                         |
            | Conditions          | Sunny                   |
            | Temperature         | High near 72°F, Low 53°F|
            | Wind                | South southeast 5-10 mph|
            ------------------------------------------------
            | Following Evening   |                         |
            | Conditions          | Clear                   |
            | Temperature         | Low 55°F                |
            | Wind                | Calm wind               |
            ------------------------------------------------
            | Third Day           |                         |
            | Conditions          | Sunny                   |
            | Temperature         | High near 74°F, Low 56°F|
            | Wind                | Southwest 5-10 mph      |
            ------------------------------------------------
            | Third Evening       |                         |
            | Conditions          | Mostly clear            |
            | Temperature         | Low 57°F                |
            | Wind                | West wind around 5 mph  |
            ------------------------------------------------
            | Fourth Day          |                         |
            | Conditions          | Partly cloudy           |
            | Temperature         | High near 75°F, Low 58°F|
            | Wind                | North northwest 5 mph   |
            ------------------------------------------------
            | Fourth Evening      |                         |
            | Conditions          | Partly cloudy           |
            | Temperature         | Low 59°F                |
            | Wind                | East northeast 5 mph    |
            ------------------------------------------------
            | Fifth Day           |                         |
            | Conditions          | Mostly sunny            |
            | Temperature         | High near 76°F, Low 60°F|
            | Wind                | East 5-10 mph           |
            ------------------------------------------------
            ";
pub const EXAMPLE_FRASER: &'static str = "Here is another example:
            Weather Report for Fraser, CO:
            ```
            ----------------------------------------------------
            | Time                | Conditions                  |
            ----------------------------------------------------
            | Overnight           |                             |
            | Conditions          | Mostly clear                |
            | Temperature         | Low around 37°F             |
            | Wind                | South southwest 5 mph       |
            ----------------------------------------------------
            | Current Forecast    |                             |
            | Conditions          | Mostly clear                |
            | Temperature         | Low around 37°F             |
            | Wind                | South southwest 5 mph       |
            ----------------------------------------------------
            | Following Morning   |                             |
            | Conditions          | Clear                       |
            | Temperature         | High near 55°F              |
            | Wind                | South 5 to 10 mph           |
            ----------------------------------------------------
            | Following Evening   |                             |
            | Conditions          | Partly cloudy               |
            | Temperature         | Low around 34°F             |
            | Wind                | Southeast wind around 5 mph |
            ----------------------------------------------------
            | Third Day           |                             |
            | Conditions          | Sunny                       |
            | Temperature         | High near 60°F, Low 35°F    |
            | Wind                | West southwest wind 5-10 mph|
            ----------------------------------------------------
            | Third Evening       |                             |
            | Conditions          | Partly cloudy               |
            | Temperature         | Low around 32°F             |
            | Wind                | Calm wind                   |
            ----------------------------------------------------
            | Fourth Day          |                             |
            | Conditions          | Mostly sunny                |
            | Temperature         | High near 63°F, Low 36°F    |
            | Wind                | South wind 5-10 mph         |
            ----------------------------------------------------
            | Fourth Evening      |                             |
            | Conditions          | Partly cloudy               |
            | Temperature         | Low around 33°F             |
            | Wind                | West wind around 5 mph      |
            ----------------------------------------------------
            | Fifth Day           |                             |
            | Conditions          | Sunny                       |
            | Temperature         | High near 65°F, Low 37°F    |
            | Wind                | East wind 5-10 mph          |
            ----------------------------------------------------
            ";

pub const RULE_COMPLETE_TABLE: &'static str = "Ensure all weather forecasts are included in the table.";

/// Text that stands for the headline when no alert is active.
pub const NO_ALERTS: &'static str = "No Active Alerts or Headlines";

/// Prompt of the first completion.
pub const SUMMARY_PROMPT: &'static str = "Give me a summary of the weather data you just received.";

pub const IMPACT_PREFIX: &'static str = "Given the following weather report and NWS headline, what are the implications of this weather event for the public? Weather report: ";

pub const HEADLINE_LABEL: &'static str = ", Headline: ";

/// The text of each string of a sequence.
pub open spec fn texts(v: Seq<String>) -> Seq<Seq<char>> {
    v.map_values(|s: String| s@)
}

pub open spec fn report_line(city: Seq<char>, state: Seq<char>) -> Seq<char> {
    "This is a weather report for "@ + city + ", "@ + state + "."@
}

pub open spec fn station_line(office: Seq<char>) -> Seq<char> {
    "The nearest National Weather Service weather station is "@ + office + "."@
}

pub open spec fn today_line(entry: Seq<char>) -> Seq<char> {
    "Here is today's data from the National Weather Service API: "@ + entry + "."@
}

pub open spec fn next_line(entry: Seq<char>) -> Seq<char> {
    "Here is the next entry from the National Weather Serivce API: "@ + entry + "."@
}

pub open spec fn instructions() -> Seq<Seq<char>> {
    seq![
        RULE_NO_FOLLOW_UP@, RULE_ROLE@, RULE_SOURCE@, RULE_FOCUS@, RULE_TABLES@,
        RULE_ENTRY_COUNT@, RULE_ALL_ENTRIES@, RULE_NO_ALERTS@, RULE_ALERTS_FIRST@, RULE_PATTERNS@,
    ]
}

pub open spec fn examples() -> Seq<Seq<char>> {
    seq![EXAMPLE_HOBOKEN@, EXAMPLE_CHICAGO@, EXAMPLE_FRASER@, RULE_COMPLETE_TABLE@]
}

/// The facts of one run: the station's locality, its office, and the
/// forecast window, each entry on a line of its own.
pub open spec fn facts(
    city: Seq<char>,
    state: Seq<char>,
    office: Seq<char>,
    window: Seq<Seq<char>>,
) -> Seq<Seq<char>> {
    seq![
        report_line(city, state), station_line(office), today_line(window[0]),
        next_line(window[1]), next_line(window[2]), next_line(window[3]),
        next_line(window[4]), next_line(window[5]),
    ]
}

/// The whole context: instructions, then the facts, then the examples.
pub open spec fn context_spec(
    city: Seq<char>,
    state: Seq<char>,
    office: Seq<char>,
    window: Seq<Seq<char>>,
) -> Seq<Seq<char>> {
    instructions() + facts(city, state, office, window) + examples()
}

pub open spec fn impact_prompt_spec(summary: Seq<char>, headline: Seq<char>) -> Seq<char> {
    IMPACT_PREFIX@ + summary + HEADLINE_LABEL@ + headline
}

/// The first headline of the response, or the sentinel when there is none.
pub open spec fn alert_text_spec(resp: AlertResponse) -> Seq<char> {
    if resp.features@.len() > 0 {
        resp.features@[0].properties.headline@
    } else {
        NO_ALERTS@
    }
}

pub(crate) fn push_text(v: &mut Vec<String>, s: String)
    ensures
        texts(final(v)@) == texts(old(v)@).push(s@),
{
    v.push(s);
    assert(texts(v@) =~= texts(old(v)@).push(s@));
}

fn framed(prefix: &str, body: &str, suffix: &str) -> (r: String)
    ensures
        r@ == prefix@ + body@ + suffix@,
{
    String::from_str(prefix).concat(body).concat(suffix)
}

/// Builds the ordered context handed to both completions: the standing
/// instructions, the locality and office of the station, the forecast window,
/// and the worked examples.
pub fn build_context(city: &String, state: &String, office: &String, window: &Vec<String>) -> (r: Vec<String>)
    requires
        window@.len() == WINDOW_SIZE,
    ensures
        texts(r@) == context_spec(city@, state@, office@, texts(window@)),
{
    let mut r: Vec<String> = Vec::new();
    push_text(&mut r, String::from_str(RULE_NO_FOLLOW_UP));
    push_text(&mut r, String::from_str(RULE_ROLE));
    push_text(&mut r, String::from_str(RULE_SOURCE));
    push_text(&mut r, String::from_str(RULE_FOCUS));
    push_text(&mut r, String::from_str(RULE_TABLES));
    push_text(&mut r, String::from_str(RULE_ENTRY_COUNT));
    push_text(&mut r, String::from_str(RULE_ALL_ENTRIES));
    push_text(&mut r, String::from_str(RULE_NO_ALERTS));
    push_text(&mut r, String::from_str(RULE_ALERTS_FIRST));
    push_text(&mut r, String::from_str(RULE_PATTERNS));
    assert(texts(r@) =~= instructions());
    let ghost head = texts(r@);

    let place = String::from_str("This is a weather report for ").concat(city.as_str()).concat(", ");
    push_text(&mut r, place.concat(state.as_str()).concat("."));
    push_text(&mut r, framed("The nearest National Weather Service weather station is ", office.as_str(), "."));
    push_text(&mut r, framed("Here is today's data from the National Weather Service API: ", window[0].as_str(), "."));
    let mut i: usize = 1;
    while i < 6
        invariant
            1 <= i <= 6,
            window@.len() == WINDOW_SIZE,
            texts(r@).len() == 12 + i,
            texts(r@) =~= head + facts(city@, state@, office@, texts(window@)).subrange(0, 2 + i as int),
        decreases 6 - i,
    {
        push_text(&mut r, framed("Here is the next entry from the National Weather Serivce API: ", window[i].as_str(), "."));
        i = i + 1;
    }
    assert(texts(r@) =~= head + facts(city@, state@, office@, texts(window@)));
    let ghost middle = texts(r@);

    push_text(&mut r, String::from_str(EXAMPLE_HOBOKEN));
    push_text(&mut r, String::from_str(EXAMPLE_CHICAGO));
    push_text(&mut r, String::from_str(EXAMPLE_FRASER));
    push_text(&mut r, String::from_str(RULE_COMPLETE_TABLE));
    assert(texts(r@) =~= middle + examples());
    r
}

/// The prompt of the second completion: the first completion's text and the
/// alert headline, set into a fixed question about the public impact.
pub fn impact_prompt(summary: &String, headline: &String) -> (r: String)
    ensures
        r@ == impact_prompt_spec(summary@, headline@),
{
    String::from_str(IMPACT_PREFIX).concat(summary.as_str()).concat(HEADLINE_LABEL).concat(headline.as_str())
}

/// The headline of the first alert feature, or `NO_ALERTS` when there is none.
pub fn alert_text(resp: &AlertResponse) -> (r: String)
    ensures
        r@ == alert_text_spec(*resp),
{
    if resp.features.len() > 0 {
        resp.features[0].properties.headline.clone()
    } else {
        String::from_str(NO_ALERTS)
    }
}

} // verus!
