use weather_report::report::{AlertResponse, Live, PointsResponse};
use weather_report::request::{
    forecast_url, interpret_response, live_weather_url, render_forecast_outcome,
    render_live_outcome, FetchError,
};

fn empty_alerts() -> AlertResponse {
    AlertResponse {
        status: "1".to_string(),
        count: "0".to_string(),
        info: "OK".to_string(),
        infocode: "10000".to_string(),
        lives: vec![],
    }
}

#[test]
fn live_url_is_exact() {
    let url = live_weather_url("KEY", "110000");
    assert_eq!(
        url,
        "https://restapi.amap.com/v3/weather/weatherInfo?parameters&key=KEY&city=110000&output=json"
    );
}

#[test]
fn forecast_url_adds_extensions_flag() {
    let url = forecast_url("KEY", "110000");
    assert_eq!(
        url,
        "https://restapi.amap.com/v3/weather/weatherInfo?parameters&key=KEY&city=110000&output=json&extensions=all"
    );
}

#[test]
fn non_ok_status_is_status_failure() {
    let out: Result<AlertResponse, FetchError> =
        interpret_response("http://u", false, "404 Not Found", Ok(empty_alerts()));
    match out {
        Err(FetchError::Status { url, status }) => {
            assert_eq!(url, "http://u");
            assert_eq!(status, "404 Not Found");
        }
        other => panic!("expected a status failure, got {:?}", other),
    }
}

#[test]
fn failed_decode_is_decode_failure() {
    let out: Result<AlertResponse, FetchError> =
        interpret_response("http://u", true, "200 OK", Err("missing field".to_string()));
    match out {
        Err(FetchError::Decode { url, detail }) => {
            assert_eq!(url, "http://u");
            assert_eq!(detail, "missing field");
        }
        other => panic!("expected a decode failure, got {:?}", other),
    }
}

#[test]
fn ok_status_and_decode_is_success() {
    let out: Result<AlertResponse, FetchError> =
        interpret_response("http://u", true, "200 OK", Ok(empty_alerts()));
    let env = out.expect("an OK status with a decoded body must succeed");
    assert_eq!(env.infocode, "10000");
    assert!(env.lives.is_empty());
}

#[test]
fn status_failure_renders_exact_live_fallback() {
    let e = FetchError::Status {
        url: "http://u".to_string(),
        status: "500 Internal Server Error".to_string(),
    };
    assert_eq!(render_live_outcome(Err(e)), "No alerts found or an error occurred.");
}

#[test]
fn decode_failure_renders_same_fallback_as_status_failure() {
    let decode = FetchError::Decode {
        url: "http://u".to_string(),
        detail: "missing field `lives`".to_string(),
    };
    let status = FetchError::Status {
        url: "http://u".to_string(),
        status: "502 Bad Gateway".to_string(),
    };
    let from_decode = render_live_outcome(Err(decode));
    let from_status = render_live_outcome(Err(status));
    assert_eq!(from_decode, from_status);
    assert_eq!(from_decode, "No alerts found or an error occurred.");
}

#[test]
fn transport_failure_renders_live_fallback() {
    let e = FetchError::Transport {
        url: "http://u".to_string(),
        detail: "connection refused".to_string(),
    };
    assert_eq!(render_live_outcome(Err(e)), "No alerts found or an error occurred.");
}

#[test]
fn forecast_failure_renders_exact_forecast_fallback() {
    let e = FetchError::Status { url: "http://u".to_string(), status: "404".to_string() };
    assert_eq!(render_forecast_outcome(Err(e)), "No forecast found or an error occurred.");
}

#[test]
fn live_success_renders_formatted_reports() {
    let env = AlertResponse {
        status: "1".to_string(),
        count: "1".to_string(),
        info: "OK".to_string(),
        infocode: "10000".to_string(),
        lives: vec![Live {
            province: "北京".to_string(),
            city: "北京市".to_string(),
            adcode: "110000".to_string(),
            weather: "晴".to_string(),
            temperature: "20".to_string(),
            winddirection: "西北".to_string(),
            windpower: "3".to_string(),
            humidity: "40".to_string(),
            reporttime: "2024-01-01 12:00:00".to_string(),
            temperature_float: "20.0".to_string(),
            humidity_float: "40.0".to_string(),
        }],
    };
    let out = render_live_outcome(Ok(env));
    assert_eq!(out, "省份: 北京\n城市: 北京市\n天气: 晴\n温度: 20°\n风向: 西北(3)\n---\n");
}

#[test]
fn live_success_with_no_reports_renders_empty_sentinel() {
    assert_eq!(render_live_outcome(Ok(empty_alerts())), "No active alerts found.");
}

#[test]
fn forecast_success_with_no_envelopes_renders_empty_sentinel() {
    let env = PointsResponse {
        status: "1".to_string(),
        count: "0".to_string(),
        info: "OK".to_string(),
        infocode: "10000".to_string(),
        forecasts: vec![],
    };
    assert_eq!(render_forecast_outcome(Ok(env)), "No forecast data available.");
}

#[test]
fn describe_names_each_failure_cause() {
    let transport = FetchError::Transport {
        url: "http://u".to_string(),
        detail: "connection refused".to_string(),
    };
    assert_eq!(
        transport.describe(),
        "Failed to make request to http://u: connection refused"
    );
    let status = FetchError::Status { url: "http://u".to_string(), status: "404".to_string() };
    assert_eq!(status.describe(), "Failed to make request to http://u: 404");
    let decode = FetchError::Decode {
        url: "http://u".to_string(),
        detail: "missing field `lives`".to_string(),
    };
    assert_eq!(decode.describe(), "Failed to parse request to http://u: missing field `lives`");
}
