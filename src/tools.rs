//! The demonstration tools: a weather report, a clock and a calculator, each
//! a pure function of its string arguments.

use vstd::prelude::*;

verus! {

/// The name of the weather tool.
pub const WEATHER_TOOL: &'static str = "get_weather";

/// The name of the clock tool.
pub const TIME_TOOL: &'static str = "get_time";

/// The name of the calculator tool.
pub const CALCULATE_TOOL: &'static str = "calculate";

/// The weather report for `location` in `unit`.
pub open spec fn weather_text(location: Seq<char>, unit: Seq<char>) -> Seq<char> {
    "Weather in "@ + location + ": 15 degrees "@ + unit + ", sunny"@
}

/// Reports the weather at `location`, in `unit` (Celsius when none is
/// given). Without a location it fails.
pub fn weather_report(location: Option<String>, unit: Option<String>) -> (r: Result<String, String>)
    ensures
        location is None ==> (r matches Err(m) && m@ == "Missing location parameter"@),
        location matches Some(l) ==> (r matches Ok(t) && t@ == weather_text(
            l@,
            match unit {
                Some(u) => u@,
                None => "celsius"@,
            },
        )),
{
    match location {
        None => Err("Missing location parameter".to_string()),
        Some(l) => {
            let u = match unit {
                Some(u) => u,
                None => "celsius".to_string(),
            };
            Ok(
                "Weather in ".to_string().concat(l.as_str()).concat(": 15 degrees ").concat(
                    u.as_str(),
                ).concat(", sunny"),
            )
        },
    }
}

/// Reports the time in `timezone`. Without a time zone it fails.
pub fn time_report(timezone: Option<String>) -> (r: Result<String, String>)
    ensures
        timezone is None ==> (r matches Err(m) && m@ == "Missing timezone parameter"@),
        timezone matches Some(z) ==> (r matches Ok(t) && t@ == "Current time in "@ + z@
            + ": 14:30"@),
{
    match timezone {
        None => Err("Missing timezone parameter".to_string()),
        Some(z) => Ok("Current time in ".to_string().concat(z.as_str()).concat(": 14:30")),
    }
}

/// Reports the result of `expression`; the demonstration calculator answers
/// 42 to everything. Without an expression it fails.
pub fn calculation_report(expression: Option<String>) -> (r: Result<String, String>)
    ensures
        expression is None ==> (r matches Err(m) && m@ == "Missing expression parameter"@),
        expression matches Some(x) ==> (r matches Ok(t) && t@ == "Result of '"@ + x@
            + "': 42"@),
{
    match expression {
        None => Err("Missing expression parameter".to_string()),
        Some(x) => Ok("Result of '".to_string().concat(x.as_str()).concat("': 42")),
    }
}

} // verus!
