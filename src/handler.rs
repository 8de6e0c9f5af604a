//! Per-request decisions of the proxy: which requests are served, which city
//! is asked for, and how an upstream outcome becomes a reply.
use vstd::prelude::*;
use crate::query::{parse_query, query_part, query_pairs, pairs_map, query_string};
use crate::upstream::{
    build_upstream_url, extract_weather, reduced, upstream_url, FetchError, UpstreamReport,
    WeatherResult,
};

verus! {

/// The path that the proxy serves.
pub const WEATHER_PATH: &'static str = "/weather";

/// The query key that names the city.
pub const CITY_KEY: &'static str = "city";

/// Body of the reply to a request that names no city.
pub const MISSING_CITY_TEXT: &'static str = "City not specified";

/// Body of the reply to a request for anything but the served path.
pub const NOT_FOUND_TEXT: &'static str = "404 Not Found";

/// Body of the reply when the upstream service gave no usable answer.
pub const UPSTREAM_FAILED_TEXT: &'static str = "Error fetching weather data";

/// Content type of a weather reply.
pub const JSON_CONTENT_TYPE: &'static str = "application/json";

/// The method of an incoming request, as far as the proxy tells methods apart.
#[derive(Clone, Copy, Debug, PartialEq, Eq, Structural)]
pub enum HttpMethod {
    Get,
    Other,
}

/// `s` begins with `p`.
pub open spec fn has_prefix(s: Seq<char>, p: Seq<char>) -> bool {
    p.len() <= s.len() && s.take(p.len() as int) == p
}

/// The proxy serves GET requests whose target begins with the weather path.
pub open spec fn is_weather_route(method: HttpMethod, url: Seq<char>) -> bool {
    method == HttpMethod::Get && has_prefix(url, WEATHER_PATH@)
}

/// The city that a request target names under the city key, if any.
pub open spec fn city_of(url: Seq<char>) -> Option<Seq<char>> {
    let params = pairs_map(query_pairs(query_part(url)));
    if params.contains_key(CITY_KEY@) {
        Some(params[CITY_KEY@])
    } else {
        None
    }
}

/// What a reply is, in the abstract.
pub enum ReplyModel {
    /// The temperature's bit pattern and the description that are returned.
    Weather(u32, Seq<char>),
    MissingCity,
    NotFound,
    UpstreamFailed(FetchError),
}

/// The reply to an incoming request.
pub enum Reply {
    Weather(WeatherResult),
    MissingCity,
    NotFound,
    UpstreamFailed(FetchError),
}

impl View for Reply {
    type V = ReplyModel;

    open spec fn view(&self) -> ReplyModel {
        match self {
            Reply::Weather(w) => ReplyModel::Weather(w.temperature_bits, w.description@),
            Reply::MissingCity => ReplyModel::MissingCity,
            Reply::NotFound => ReplyModel::NotFound,
            Reply::UpstreamFailed(e) => ReplyModel::UpstreamFailed(*e),
        }
    }
}

/// The HTTP status of a reply.
pub open spec fn status_of(r: ReplyModel) -> u16 {
    match r {
        ReplyModel::Weather(..) => 200,
        ReplyModel::MissingCity => 400,
        ReplyModel::NotFound => 404,
        ReplyModel::UpstreamFailed(_) => 500,
    }
}

/// The plain-text body of a reply; a weather reply has a JSON body instead.
pub open spec fn text_of(r: ReplyModel) -> Option<Seq<char>> {
    match r {
        ReplyModel::Weather(..) => None,
        ReplyModel::MissingCity => Some(MISSING_CITY_TEXT@),
        ReplyModel::NotFound => Some(NOT_FOUND_TEXT@),
        ReplyModel::UpstreamFailed(_) => Some(UPSTREAM_FAILED_TEXT@),
    }
}

/// The reply owed for an upstream outcome.
pub open spec fn reply_for(outcome: Result<UpstreamReport, FetchError>) -> ReplyModel {
    match outcome {
        Err(e) => ReplyModel::UpstreamFailed(e),
        Ok(report) => match reduced(report) {
            Ok((t, d)) => ReplyModel::Weather(t, d),
            Err(e) => ReplyModel::UpstreamFailed(e),
        },
    }
}

impl Reply {
    /// The HTTP status code of this reply.
    pub fn status(&self) -> (r: u16)
        ensures
            r == status_of(self@),
    {
        match self {
            Reply::Weather(_) => 200,
            Reply::MissingCity => 400,
            Reply::NotFound => 404,
            Reply::UpstreamFailed(_) => 500,
        }
    }

    /// The plain-text body of this reply; `None` for a weather reply, whose
    /// body is its result written as JSON.
    pub fn text(&self) -> (r: Option<&'static str>)
        ensures
            match (r, text_of(self@)) {
                (Some(t), Some(u)) => t@ == u,
                (None, None) => true,
                _ => false,
            },
    {
        match self {
            Reply::Weather(_) => None,
            Reply::MissingCity => Some(MISSING_CITY_TEXT),
            Reply::NotFound => Some(NOT_FOUND_TEXT),
            Reply::UpstreamFailed(_) => Some(UPSTREAM_FAILED_TEXT),
        }
    }

    /// The content type that this reply declares, if any.
    pub fn content_type(&self) -> (r: Option<&'static str>)
        ensures
            match r {
                Some(t) => self@ is Weather && t@ == JSON_CONTENT_TYPE@,
                None => !(self@ is Weather),
            },
    {
        match self {
            Reply::Weather(_) => Some(JSON_CONTENT_TYPE),
            _ => None,
        }
    }
}

/// What the proxy does next with a request, in the abstract.
pub enum DispatchModel {
    /// Reply at once.
    Respond(ReplyModel),
    /// Ask the upstream service: the city and the upstream request URL.
    Fetch(Seq<char>, Seq<char>),
}

/// What the proxy does next with a request.
pub enum Dispatch {
    Respond(Reply),
    Fetch { city: String, url: String },
}

impl View for Dispatch {
    type V = DispatchModel;

    open spec fn view(&self) -> DispatchModel {
        match self {
            Dispatch::Respond(r) => DispatchModel::Respond(r@),
            Dispatch::Fetch { city, url } => DispatchModel::Fetch(city@, url@),
        }
    }
}

/// The step owed for a request, where `api_key` authorises upstream requests.
pub open spec fn dispatch_of(api_key: Seq<char>, method: HttpMethod, url: Seq<char>) -> DispatchModel {
    if !is_weather_route(method, url) {
        DispatchModel::Respond(ReplyModel::NotFound)
    } else {
        match city_of(url) {
            None => DispatchModel::Respond(ReplyModel::MissingCity),
            Some(city) => DispatchModel::Fetch(city, upstream_url(api_key, city)),
        }
    }
}

/// Tells whether `s` begins with `prefix`.
pub fn starts_with(s: &str, prefix: &str) -> (r: bool)
    ensures
        r == has_prefix(s@, prefix@),
{
    let n = s.unicode_len();
    let m = prefix.unicode_len();
    if m > n {
        return false;
    }
    let mut i: usize = 0;
    while i < m
        invariant
            n == s@.len(),
            m == prefix@.len(),
            m <= n,
            i <= m,
            forall|j: int| 0 <= j < i ==> s@[j] == prefix@[j],
        decreases m - i,
    {
        if s.get_char(i) != prefix.get_char(i) {
            assert(s@.take(m as int)[i as int] != prefix@[i as int]);
            return false;
        }
        i += 1;
    }
    assert(s@.take(m as int) =~= prefix@);
    true
}

/// The proxy: its fixed configuration, read once at startup. It keeps no
/// state between requests.
pub struct WeatherProxy {
    api_key: String,
}

impl WeatherProxy {
    pub fn new(api_key: String) -> (r: WeatherProxy)
        ensures
            r.api_key() == api_key@,
    {
        WeatherProxy { api_key }
    }

    /// The credential handed to the upstream service.
    pub closed spec fn api_key(&self) -> Seq<char> {
        self.api_key@
    }

    /// Decides what to do with a request: reply at once, or ask the upstream
    /// service for the city that the request names.
    pub fn dispatch(&self, method: HttpMethod, url: &str) -> (r: Dispatch)
        ensures
            r@ == dispatch_of(self.api_key(), method, url@),
    {
        let routed = match method {
            HttpMethod::Get => starts_with(url, WEATHER_PATH),
            HttpMethod::Other => false,
        };
        if !routed {
            return Dispatch::Respond(Reply::NotFound);
        }
        let params = parse_query(query_string(url));
        match params.get(CITY_KEY) {
            None => Dispatch::Respond(Reply::MissingCity),
            Some(city) => {
                let upstream = build_upstream_url(self.api_key.as_str(), city.as_str());
                Dispatch::Fetch { city, url: upstream }
            },
        }
    }

    /// The reply to a request whose upstream call ended with `outcome`.
    pub fn finish(&self, outcome: &Result<UpstreamReport, FetchError>) -> (r: Reply)
        ensures
            r@ == reply_for(*outcome),
    {
        match outcome {
            Err(e) => Reply::UpstreamFailed(*e),
            Ok(report) => match extract_weather(report) {
                Ok(w) => Reply::Weather(w),
                Err(e) => Reply::UpstreamFailed(e),
            },
        }
    }
}

} // verus!
