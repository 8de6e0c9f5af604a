use weather_proxy::upstream::{
    append_percent_encoded, build_upstream_url, extract_weather, FetchError, UpstreamReport,
    WeatherResult,
};

#[test]
fn upstream_url_for_plain_city() {
    assert_eq!(
        build_upstream_url("abc123", "London"),
        "http://api.openweathermap.org/data/2.5/weather?q=London&appid=abc123&units=metric"
    );
}

#[test]
fn upstream_url_encodes_space_and_non_ascii() {
    assert_eq!(
        build_upstream_url("k", "New York"),
        "http://api.openweathermap.org/data/2.5/weather?q=New%20York&appid=k&units=metric"
    );
    assert_eq!(
        build_upstream_url("k", "Zürich"),
        "http://api.openweathermap.org/data/2.5/weather?q=Z%C3%BCrich&appid=k&units=metric"
    );
}

#[test]
fn percent_encoding_keeps_unreserved_and_escapes_the_rest() {
    let mut out = String::from("x=");
    append_percent_encoded(&mut out, "a-b._~Z9&?=/");
    assert_eq!(out, "x=a-b._~Z9%26%3F%3D%2F");
}

#[test]
fn extract_takes_temperature_and_first_description() {
    let report = UpstreamReport {
        temp_bits: 21.5f32.to_bits(),
        descriptions: vec!["clear sky".to_string(), "haze".to_string()],
    };
    let w = extract_weather(&report).ok().unwrap();
    assert_eq!(f32::from_bits(w.temperature_bits), 21.5);
    assert_eq!(w.description, "clear sky");
}

#[test]
fn extract_of_empty_descriptions_is_empty_result() {
    let report = UpstreamReport { temp_bits: 0, descriptions: vec![] };
    assert!(matches!(extract_weather(&report), Err(FetchError::EmptyResult)));
}

#[test]
fn weather_result_survives_json_round_trip() {
    let w = WeatherResult { temperature_bits: (-3.25f32).to_bits(), description: "light \"snow\"".to_string() };
    let mut object = serde_json::Map::new();
    object.insert(
        "temperature".to_string(),
        serde_json::Value::from(f32::from_bits(w.temperature_bits)),
    );
    object.insert("description".to_string(), serde_json::Value::from(w.description.clone()));
    let text = serde_json::to_string(&serde_json::Value::Object(object)).unwrap();
    let back: serde_json::Value = serde_json::from_str(&text).unwrap();
    let temperature = back["temperature"].as_f64().unwrap() as f32;
    assert_eq!(temperature.to_bits(), w.temperature_bits);
    assert_eq!(back["description"].as_str().unwrap(), w.description);
}
