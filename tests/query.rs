use weather_proxy::query::{parse_query, query_string, split_once};

#[test]
fn query_string_takes_text_after_first_question_mark() {
    assert_eq!(query_string("/weather?city=Paris"), "city=Paris");
}

#[test]
fn query_string_is_empty_without_question_mark() {
    assert_eq!(query_string("/weather"), "");
}

#[test]
fn query_string_stops_at_second_question_mark() {
    assert_eq!(query_string("/weather?city=Oslo?x=1"), "city=Oslo");
}

#[test]
fn split_once_splits_at_first_separator() {
    assert_eq!(split_once("a=b=c", '='), Some(("a", "b=c")));
    assert_eq!(split_once("abc", '='), None);
    assert_eq!(split_once("=", '='), Some(("", "")));
}

#[test]
fn parse_query_reads_pairs() {
    let q = parse_query("city=Paris&units=metric");
    assert_eq!(q.get("city"), Some("Paris".to_string()));
    assert_eq!(q.get("units"), Some("metric".to_string()));
    assert_eq!(q.get("lang"), None);
}

#[test]
fn parse_query_drops_pieces_without_key_or_value() {
    let q = parse_query("city&=x&lang=&&units=metric");
    assert_eq!(q.get("city"), None);
    assert_eq!(q.get(""), None);
    assert_eq!(q.get("lang"), None);
    assert_eq!(q.get("units"), Some("metric".to_string()));
}

#[test]
fn parse_query_last_repeated_key_wins() {
    let q = parse_query("city=Paris&city=Rome");
    assert_eq!(q.get("city"), Some("Rome".to_string()));
}

#[test]
fn parse_query_value_keeps_later_equals_signs() {
    let q = parse_query("city=a=b");
    assert_eq!(q.get("city"), Some("a=b".to_string()));
}

#[test]
fn parse_query_of_empty_text_is_empty() {
    let q = parse_query("");
    assert_eq!(q.get("city"), None);
}
