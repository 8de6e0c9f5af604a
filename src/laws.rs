//! Properties of the proxy that hold across its functions.
use vstd::prelude::*;
use crate::handler::{
    city_of, dispatch_of, has_prefix, is_weather_route, reply_for, status_of, text_of,
    DispatchModel, HttpMethod, ReplyModel, CITY_KEY, MISSING_CITY_TEXT, NOT_FOUND_TEXT,
    UPSTREAM_FAILED_TEXT, WEATHER_PATH,
};
use crate::query::{
    first_at, pair_of, pairs_map, pairs_of, query_pairs, query_part, split_all, split_first,
};
use crate::upstream::{upstream_url, FetchError, UpstreamReport};

verus! {

/// The request target that asks for the weather of `city`.
pub open spec fn weather_target(city: Seq<char>) -> Seq<char> {
    WEATHER_PATH@ + seq!['?'] + CITY_KEY@ + seq!['='] + city
}

/// `c` does not occur in `s`.
pub open spec fn lacks(s: Seq<char>, c: char) -> bool {
    forall|j: int| 0 <= j < s.len() ==> s[j] != c
}

proof fn lemma_split_first_at(a: Seq<char>, c: char, b: Seq<char>)
    requires
        lacks(a, c),
    ensures
        split_first(a + seq![c] + b, c) == Some((a, b)),
{
    let s = a + seq![c] + b;
    let k = a.len() as int;
    assert(first_at(s, c, k));
    assert forall|i: int| first_at(s, c, i) implies i == k by {
        if i < k {
            assert(s[i] == a[i]);
        }
    }
    assert(s.take(k) =~= a);
    assert(s.skip(k + 1) =~= b);
}

proof fn lemma_split_first_none(s: Seq<char>, c: char)
    requires
        lacks(s, c),
    ensures
        split_first(s, c) is None,
{
}

proof fn lemma_split_all_single(s: Seq<char>, c: char)
    requires
        lacks(s, c),
    ensures
        split_all(s, c) == seq![s],
    decreases s.len(),
{
    if s.len() > 0 {
        lemma_split_all_single(s.drop_last(), c);
        assert(s.drop_last().push(s.last()) =~= s);
        assert(seq![s.drop_last()].drop_last() =~= Seq::<Seq<char>>::empty());
        assert(Seq::<Seq<char>>::empty().push(s) =~= seq![s]);
    } else {
        assert(s =~= Seq::<char>::empty());
    }
}

/// A `GET /weather?city=<city>` request, for a non-empty city without `&` or
/// `?`, is sent upstream for exactly that city; when the upstream answer holds
/// a description, the reply has status 200, the upstream temperature and the
/// first upstream description.
pub proof fn lemma_weather_served(api_key: Seq<char>, city: Seq<char>, report: UpstreamReport)
    requires
        city.len() > 0,
        lacks(city, '&'),
        lacks(city, '?'),
        report.descriptions@.len() > 0,
    ensures
        dispatch_of(api_key, HttpMethod::Get, weather_target(city)) == DispatchModel::Fetch(
            city,
            upstream_url(api_key, city),
        ),
        reply_for(Ok(report)) == ReplyModel::Weather(report.temp_bits, report.descriptions@[0]@),
        status_of(reply_for(Ok(report))) == 200,
{
    reveal_strlit("/weather");
    reveal_strlit("city");
    let path = WEATHER_PATH@;
    let key = CITY_KEY@;
    let pair = key + seq!['='] + city;
    let url = weather_target(city);
    assert(url.take(path.len() as int) =~= path);
    assert(url =~= path + seq!['?'] + pair);
    lemma_split_first_at(path, '?', pair);
    assert(lacks(pair, '?')) by {
        assert forall|j: int| 0 <= j < pair.len() implies pair[j] != '?' by {
            if j >= key.len() + 1 {
                assert(pair[j] == city[j - key.len() - 1]);
            }
        }
    }
    lemma_split_first_none(pair, '?');
    assert(query_part(url) == pair);
    assert(lacks(pair, '&')) by {
        assert forall|j: int| 0 <= j < pair.len() implies pair[j] != '&' by {
            if j >= key.len() + 1 {
                assert(pair[j] == city[j - key.len() - 1]);
            }
        }
    }
    lemma_split_all_single(pair, '&');
    lemma_split_first_at(key, '=', city);
    assert(pair_of(pair) == Some((key, city)));
    assert(seq![pair].drop_last() =~= Seq::<Seq<char>>::empty());
    assert(seq![pair].last() == pair);
    assert(pairs_of(Seq::<Seq<char>>::empty()) == Seq::<(Seq<char>, Seq<char>)>::empty());
    assert(pairs_of(seq![pair]) =~= Seq::<(Seq<char>, Seq<char>)>::empty().push((key, city)));
    assert(query_pairs(pair) =~= seq![(key, city)]);
    assert(seq![(key, city)].drop_last() =~= Seq::<(Seq<char>, Seq<char>)>::empty());
    assert(pairs_map(query_pairs(pair)).contains_key(key));
    assert(city_of(url) == Some(city));
}

/// A served request that names no city gets status 400 and the text
/// "City not specified".
pub proof fn lemma_missing_city(api_key: Seq<char>, url: Seq<char>)
    requires
        has_prefix(url, WEATHER_PATH@),
        city_of(url) is None,
    ensures
        dispatch_of(api_key, HttpMethod::Get, url) == DispatchModel::Respond(ReplyModel::MissingCity),
        status_of(ReplyModel::MissingCity) == 400,
        text_of(ReplyModel::MissingCity) == Some(MISSING_CITY_TEXT@),
{
}

/// A request with another method than GET, or for a target that does not
/// begin with the weather path, gets status 404 and the text "404 Not Found".
pub proof fn lemma_not_found(api_key: Seq<char>, method: HttpMethod, url: Seq<char>)
    requires
        !is_weather_route(method, url),
    ensures
        dispatch_of(api_key, method, url) == DispatchModel::Respond(ReplyModel::NotFound),
        status_of(ReplyModel::NotFound) == 404,
        text_of(ReplyModel::NotFound) == Some(NOT_FOUND_TEXT@),
{
}

/// A failed upstream call gets status 500 and the text
/// "Error fetching weather data".
pub proof fn lemma_upstream_failure(e: FetchError)
    ensures
        reply_for(Err(e)) == ReplyModel::UpstreamFailed(e),
        status_of(reply_for(Err(e))) == 500,
        text_of(reply_for(Err(e))) == Some(UPSTREAM_FAILED_TEXT@),
{
}

/// An upstream answer without descriptions gets status 500, as an empty result.
pub proof fn lemma_empty_weather(report: UpstreamReport)
    requires
        report.descriptions@.len() == 0,
    ensures
        reply_for(Ok(report)) == ReplyModel::UpstreamFailed(FetchError::EmptyResult),
        status_of(reply_for(Ok(report))) == 500,
        text_of(reply_for(Ok(report))) == Some(UPSTREAM_FAILED_TEXT@),
{
}

/// Every served request that names a city asks the upstream service anew: the
/// step depends on the request alone, never on earlier requests, and it is
/// always a fetch, never a stored reply.
pub proof fn lemma_every_request_fetches(api_key: Seq<char>, url: Seq<char>)
    requires
        has_prefix(url, WEATHER_PATH@),
        city_of(url) is Some,
    ensures
        dispatch_of(api_key, HttpMethod::Get, url) == DispatchModel::Fetch(
            city_of(url)->0,
            upstream_url(api_key, city_of(url)->0),
        ),
{
}

} // verus!
