//! Building requests for the upstream weather API and deciding what an
//! exchange's outcome means.
//!
//! The HTTP transport itself lives outside the library. It hands back
//! plain values — whether the status was OK, the status text, and the
//! decode attempt's outcome — and the functions here turn them into
//! either a decoded payload or a tagged [`FetchError`], and into the
//! text the tool caller finally sees.

use vstd::prelude::*;
use vstd::string::StringExecFns;

verus! {

use crate::present::{format_alerts, format_forecast, format_forecast_spec, format_live_spec};
use crate::report::{AlertResponse, Forecast, Live, PointsResponse};

/// The fixed base endpoint of the upstream weather API.
pub open spec fn api_base() -> Seq<char> {
    "https://restapi.amap.com/v3/weather/weatherInfo?parameters"@
}

/// The current-weather request URL for an API key and a location code.
pub open spec fn live_url_spec(key: Seq<char>, city: Seq<char>) -> Seq<char> {
    api_base() + "&key="@ + key + "&city="@ + city + "&output=json"@
}

/// The forecast request URL: the current-weather URL with the
/// full-detail extensions flag appended.
pub open spec fn forecast_url_spec(key: Seq<char>, city: Seq<char>) -> Seq<char> {
    live_url_spec(key, city) + "&extensions=all"@
}

/// Builds the current-weather request URL. The API key is injected by
/// the caller; it is configuration, not part of the library.
pub fn live_weather_url(key: &str, city: &str) -> (url: String)
    ensures
        url@ == live_url_spec(key@, city@),
{
    let mut url = String::from_str("https://restapi.amap.com/v3/weather/weatherInfo?parameters");
    url.append("&key=");
    url.append(key);
    url.append("&city=");
    url.append(city);
    url.append("&output=json");
    assert(url@ =~= live_url_spec(key@, city@));
    url
}

/// Builds the forecast request URL for an API key and a location code.
pub fn forecast_url(key: &str, city: &str) -> (url: String)
    ensures
        url@ == forecast_url_spec(key@, city@),
{
    let mut url = live_weather_url(key, city);
    url.append("&extensions=all");
    assert(url@ =~= forecast_url_spec(key@, city@));
    url
}

/// Why a fetch failed. The variants keep the causes apart for
/// diagnostics; the tool caller never sees them, only the fallback
/// sentinel text.
#[derive(Debug, PartialEq)]
pub enum FetchError {
    /// The request never produced a response (connect or send failure).
    Transport { url: String, detail: String },
    /// The response carried a non-OK HTTP status.
    Status { url: String, status: String },
    /// The body did not decode as the expected JSON shape.
    Decode { url: String, detail: String },
}

/// The diagnostic message text of a failure.
pub open spec fn describe_spec(e: FetchError) -> Seq<char> {
    match e {
        FetchError::Transport { url, detail } => "Failed to make request to "@ + url@ + ": "@
            + detail@,
        FetchError::Status { url, status } => "Failed to make request to "@ + url@ + ": "@
            + status@,
        FetchError::Decode { url, detail } => "Failed to parse request to "@ + url@ + ": "@
            + detail@,
    }
}

impl FetchError {
    /// The message a log line carries for this failure.
    pub fn describe(&self) -> (msg: String)
        ensures
            msg@ == describe_spec(*self),
    {
        let mut msg = match self {
            FetchError::Transport { .. } => String::from_str("Failed to make request to "),
            FetchError::Status { .. } => String::from_str("Failed to make request to "),
            FetchError::Decode { .. } => String::from_str("Failed to parse request to "),
        };
        match self {
            FetchError::Transport { url, detail } => {
                msg.append(url.as_str());
                msg.append(": ");
                msg.append(detail.as_str());
            },
            FetchError::Status { url, status } => {
                msg.append(url.as_str());
                msg.append(": ");
                msg.append(status.as_str());
            },
            FetchError::Decode { url, detail } => {
                msg.append(url.as_str());
                msg.append(": ");
                msg.append(detail.as_str());
            },
        }
        assert(msg@ =~= describe_spec(*self));
        msg
    }
}

/// Decides the outcome of one HTTP exchange. A non-OK status is a
/// `Status` failure whatever the body held; under an OK status the
/// decoded payload is the result and a failed decode (its error text in
/// `body`) is a `Decode` failure. These are the only outcomes.
pub fn interpret_response<T>(
    url: &str,
    status_ok: bool,
    status: &str,
    body: Result<T, String>,
) -> (outcome: Result<T, FetchError>)
    ensures
        outcome is Ok <==> (status_ok && body is Ok),
        !status_ok ==> (outcome matches Err(e) && e matches FetchError::Status {
            url: u,
            status: s,
        } && u@ == url@ && s@ == status@),
        status_ok && body is Ok ==> (outcome matches Ok(v) && v == body->Ok_0),
        status_ok && body is Err ==> (outcome matches Err(e) && e matches FetchError::Decode {
            url: u,
            detail: d,
        } && u@ == url@ && d == body->Err_0),
{
    if !status_ok {
        Err(
            FetchError::Status {
                url: String::from_str(url),
                status: String::from_str(status),
            },
        )
    } else {
        match body {
            Ok(v) => Ok(v),
            Err(detail) => Err(FetchError::Decode { url: String::from_str(url), detail }),
        }
    }
}

/// The fallback sentinel the current-weather tool returns on any fetch
/// failure.
pub open spec fn live_fallback() -> Seq<char> {
    "No alerts found or an error occurred."@
}

/// The fallback sentinel the forecast tool returns on any fetch
/// failure.
pub open spec fn forecast_fallback() -> Seq<char> {
    "No forecast found or an error occurred."@
}

/// The text the current-weather tool returns: the formatted live
/// reports on success, the fixed fallback sentinel on any failure. The
/// caller always receives displayable text, never an error value.
pub fn render_live_outcome(outcome: Result<AlertResponse, FetchError>) -> (text: String)
    ensures
        outcome matches Ok(env) ==> text@ == format_live_spec(
            env.lives@.map_values(|l: Live| l@),
        ),
        outcome is Err ==> text@ == live_fallback(),
{
    match outcome {
        Ok(env) => format_alerts(env.lives.as_slice()),
        Err(_) => String::from_str("No alerts found or an error occurred."),
    }
}

/// The text the forecast tool returns: the formatted forecasts on
/// success, the fixed fallback sentinel on any failure.
pub fn render_forecast_outcome(outcome: Result<PointsResponse, FetchError>) -> (text: String)
    ensures
        outcome matches Ok(env) ==> text@ == format_forecast_spec(
            env.forecasts@.map_values(|f: Forecast| f@),
        ),
        outcome is Err ==> text@ == forecast_fallback(),
{
    match outcome {
        Ok(env) => format_forecast(env.forecasts.as_slice()),
        Err(_) => String::from_str("No forecast found or an error occurred."),
    }
}

} // verus!
