use serde_json::Value;
use weather_report::report::{AlertResponse, Live};
use weather_report::request::{interpret_response, render_live_outcome, FetchError};

fn field(obj: &Value, name: &str) -> Result<String, String> {
    match obj.get(name).and_then(Value::as_str) {
        Some(s) => Ok(s.to_string()),
        None => Err(format!("missing field `{}`", name)),
    }
}

fn decode_live(obj: &Value) -> Result<Live, String> {
    Ok(Live {
        province: field(obj, "province")?,
        city: field(obj, "city")?,
        adcode: field(obj, "adcode")?,
        weather: field(obj, "weather")?,
        temperature: field(obj, "temperature")?,
        winddirection: field(obj, "winddirection")?,
        windpower: field(obj, "windpower")?,
        humidity: field(obj, "humidity")?,
        reporttime: field(obj, "reporttime")?,
        temperature_float: field(obj, "temperature_float")?,
        humidity_float: field(obj, "humidity_float")?,
    })
}

fn decode_alert_body(body: &str) -> Result<AlertResponse, String> {
    let root: Value = serde_json::from_str(body).map_err(|e| e.to_string())?;
    let lives = match root.get("lives").and_then(Value::as_array) {
        Some(entries) => {
            let mut decoded = Vec::new();
            for entry in entries {
                decoded.push(decode_live(entry)?);
            }
            decoded
        }
        None => return Err("missing field `lives`".to_string()),
    };
    Ok(AlertResponse {
        status: field(&root, "status")?,
        count: field(&root, "count")?,
        info: field(&root, "info")?,
        infocode: field(&root, "infocode")?,
        lives,
    })
}

fn live_body() -> &'static str {
    "{\"status\":\"1\",\"count\":\"1\",\"info\":\"OK\",\"infocode\":\"10000\",\"lives\":[{\"province\":\"北京\",\"city\":\"北京市\",\"adcode\":\"110000\",\"weather\":\"晴\",\"temperature\":\"20\",\"winddirection\":\"西北\",\"windpower\":\"3\",\"humidity\":\"40\",\"reporttime\":\"2024-01-01 12:00:00\",\"temperature_float\":\"20.0\",\"humidity_float\":\"40.0\"}]}"
}

#[test]
fn decoded_live_body_formats_expected_lines() {
    let env = decode_alert_body(live_body()).expect("the body decodes");
    let out = render_live_outcome(Ok(env));
    assert!(out.contains("省份: 北京"));
    assert!(out.contains("城市: 北京市"));
    assert!(out.contains("天气: 晴"));
    assert!(out.contains("温度: 20°"));
    assert!(out.contains("风向: 西北(3)"));
}

#[test]
fn malformed_body_falls_back_like_bad_status() {
    let body = live_body().replace("\"temperature\":\"20\",", "");
    let decoded = decode_alert_body(&body);
    assert!(decoded.is_err());
    let via_decode: Result<AlertResponse, FetchError> =
        interpret_response("http://u", true, "200 OK", decoded);
    let via_status: Result<AlertResponse, FetchError> =
        interpret_response("http://u", false, "503 Service Unavailable", Err("ignored".to_string()));
    let decode_text = render_live_outcome(via_decode);
    let status_text = render_live_outcome(via_status);
    assert_eq!(decode_text, status_text);
    assert_eq!(decode_text, "No alerts found or an error occurred.");
}
