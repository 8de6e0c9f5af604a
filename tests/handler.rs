use weather_proxy::handler::{starts_with, Dispatch, HttpMethod, Reply, WeatherProxy};
use weather_proxy::upstream::{FetchError, UpstreamReport};

fn proxy() -> WeatherProxy {
    WeatherProxy::new("key1".to_string())
}

#[test]
fn starts_with_compares_prefix() {
    assert!(starts_with("/weather?city=x", "/weather"));
    assert!(!starts_with("/weath", "/weather"));
    assert!(!starts_with("/Weather", "/weather"));
}

#[test]
fn served_request_with_city_is_fetched() {
    match proxy().dispatch(HttpMethod::Get, "/weather?city=London") {
        Dispatch::Fetch { city, url } => {
            assert_eq!(city, "London");
            assert_eq!(
                url,
                "http://api.openweathermap.org/data/2.5/weather?q=London&appid=key1&units=metric"
            );
        }
        Dispatch::Respond(_) => panic!("expected a fetch"),
    }
}

#[test]
fn missing_city_gives_400() {
    for url in ["/weather", "/weather?town=Paris", "/weather?city="] {
        match proxy().dispatch(HttpMethod::Get, url) {
            Dispatch::Respond(reply) => {
                assert!(matches!(reply, Reply::MissingCity));
                assert_eq!(reply.status(), 400);
                assert_eq!(reply.text(), Some("City not specified"));
                assert_eq!(reply.content_type(), None);
            }
            Dispatch::Fetch { .. } => panic!("expected a reply"),
        }
    }
}

#[test]
fn other_path_or_method_gives_404() {
    let cases = [
        (HttpMethod::Get, "/"),
        (HttpMethod::Get, "/forecast?city=Paris"),
        (HttpMethod::Other, "/weather?city=Paris"),
    ];
    for (method, url) in cases {
        match proxy().dispatch(method, url) {
            Dispatch::Respond(reply) => {
                assert!(matches!(reply, Reply::NotFound));
                assert_eq!(reply.status(), 404);
                assert_eq!(reply.text(), Some("404 Not Found"));
            }
            Dispatch::Fetch { .. } => panic!("expected a reply"),
        }
    }
}

#[test]
fn repeated_requests_each_fetch() {
    let p = proxy();
    let first = p.dispatch(HttpMethod::Get, "/weather?city=Lima");
    let second = p.dispatch(HttpMethod::Get, "/weather?city=Lima");
    assert!(matches!(first, Dispatch::Fetch { .. }));
    assert!(matches!(second, Dispatch::Fetch { .. }));
}

#[test]
fn good_upstream_answer_gives_200() {
    let report = UpstreamReport {
        temp_bits: 12.75f32.to_bits(),
        descriptions: vec!["overcast clouds".to_string()],
    };
    let reply = proxy().finish(&Ok(report));
    assert_eq!(reply.status(), 200);
    assert_eq!(reply.text(), None);
    assert_eq!(reply.content_type(), Some("application/json"));
    match reply {
        Reply::Weather(w) => {
            assert_eq!(f32::from_bits(w.temperature_bits), 12.75);
            assert_eq!(w.description, "overcast clouds");
        }
        _ => panic!("expected weather"),
    }
}

#[test]
fn failed_upstream_call_gives_500() {
    for e in [FetchError::Transport, FetchError::Decode] {
        let reply = proxy().finish(&Err(e));
        assert!(matches!(reply, Reply::UpstreamFailed(f) if f == e));
        assert_eq!(reply.status(), 500);
        assert_eq!(reply.text(), Some("Error fetching weather data"));
    }
}

#[test]
fn empty_upstream_descriptions_give_500() {
    let report = UpstreamReport { temp_bits: 0, descriptions: vec![] };
    let reply = proxy().finish(&Ok(report));
    assert!(matches!(reply, Reply::UpstreamFailed(FetchError::EmptyResult)));
    assert_eq!(reply.status(), 500);
    assert_eq!(reply.text(), Some("Error fetching weather data"));
}
