//! Edge cases of the decoders: optional members left out, empty inputs,
//! re-decoding, error selection, serialization and URL helpers.

use chrono::Datelike;
use rparif::client::{
    episode_to_episode, idxville_to_index, index_day_to_index, index_to_index, join_cities,
    process_response,
};
use rparif::dates::today_utc;
use rparif::error::RParifError;
use rparif::jsonval::JsonNode;
use rparif::objects::{Criteria, Index, Level, Type};
use rparif::CivilDate;

fn jstr(s: &str) -> JsonNode {
    JsonNode::Text(s.to_string())
}

fn jnum(n: u32) -> JsonNode {
    JsonNode::Number(n)
}

fn jarr(items: Vec<JsonNode>) -> JsonNode {
    JsonNode::Array(items)
}

fn jobj(pairs: Vec<(&str, JsonNode)>) -> JsonNode {
    JsonNode::Object(pairs.into_iter().map(|(k, v)| (k.to_string(), v)).collect())
}

#[test]
fn test_index_empty_array() {
    let today = today_utc();
    let result = index_to_index(&jarr(vec![]), today);
    assert_eq!(result.ok(), Some(vec![]));
}

#[test]
fn test_index_without_url() {
    let today = today_utc();
    let data = jarr(vec![jobj(vec![("date", jstr("jour")), ("indice", jnum(80))])]);
    let result = index_to_index(&data, today);
    assert_eq!(
        result.ok(),
        Some(vec![Index::new(today, None, vec!["global".to_string()], 80, None)])
    );
}

#[test]
fn test_index_missing_date_member() {
    let today = today_utc();
    let data = jarr(vec![jobj(vec![("indice", jnum(80))])]);
    let result = index_to_index(&data, today);
    // a missing date member reads as null, which is no relative-day token
    match result.err().unwrap() {
        RParifError::UnexpectedDate(value) => assert_eq!(value, "null".to_string()),
        _ => panic!("Wrong error"),
    }
}

#[test]
fn test_index_day_bad_date() {
    let data = jobj(vec![
        ("date", jstr("décembre")),
        ("global", jobj(vec![("indice", jnum(35))])),
    ]);
    let result = index_day_to_index(&data);
    assert!(matches!(result.err().unwrap(), RParifError::DateParseError(_)));
}

#[test]
fn test_index_day_leap_day() {
    let data = jobj(vec![
        ("date", jstr("29/02/2020")),
        ("global", jobj(vec![("indice", jnum(35))])),
    ]);
    let result = index_day_to_index(&data).unwrap();
    assert_eq!(result[0].date(), CivilDate { year: 2020, month: 2, day: 29 });
}

#[test]
fn test_index_day_impossible_day() {
    let data = jobj(vec![
        ("date", jstr("31/02/2019")),
        ("global", jobj(vec![("indice", jnum(35))])),
    ]);
    let result = index_day_to_index(&data);
    assert!(matches!(result.err().unwrap(), RParifError::DateParseError(_)));
}

#[test]
fn test_idxville_missing_pollutants_is_empty_list() {
    let today = today_utc();
    let data = jarr(vec![jobj(vec![
        ("ninsee", jstr("75101")),
        ("jour", jobj(vec![("indice", jnum(50))])),
    ])]);
    let result = idxville_to_index(&data, today);
    assert_eq!(
        result.ok(),
        Some(vec![Index::new(today, None, vec![], 50, Some("75101".to_string()))])
    );
}

#[test]
fn test_episode_unknown_level() {
    let today = today_utc();
    let data = jarr(vec![jobj(vec![
        ("date", jstr("jour")),
        ("o3", jobj(vec![("type", jstr("constate")), ("niveau", jstr("worse"))])),
    ])]);
    let result = episode_to_episode(&data, today);
    match result.err().unwrap() {
        RParifError::UnknownEnumValue(token) => assert_eq!(token, "worse".to_string()),
        _ => panic!("Wrong error"),
    }
}

#[test]
fn test_episode_unknown_criteria() {
    let today = today_utc();
    let data = jarr(vec![jobj(vec![
        ("date", jstr("jour")),
        ("o3", jobj(vec![
            ("type", jstr("constate")),
            ("niveau", jstr("info")),
            ("criteres", jarr(vec![jstr("area")])),
        ])),
    ])]);
    let result = episode_to_episode(&data, today);
    match result.err().unwrap() {
        RParifError::UnknownEnumValue(token) => assert_eq!(token, "area".to_string()),
        _ => panic!("Wrong error"),
    }
}

#[test]
fn test_decoding_twice_yields_equal_results() {
    let today = today_utc();
    let data = jarr(vec![jobj(vec![
        ("date", jstr("hier")),
        ("indice", jnum(35)),
        ("url_carte", jstr("a")),
    ])]);
    let first = index_to_index(&data, today);
    let second = index_to_index(&data, today);
    assert_eq!(first, second);

    let alerts = jarr(vec![jobj(vec![
        ("date", jstr("demain")),
        ("o3", jobj(vec![("type", jstr("prevu")), ("niveau", jstr("info"))])),
    ])]);
    let first = episode_to_episode(&alerts, today);
    let second = episode_to_episode(&alerts, today);
    assert_eq!(first, second);
}

#[test]
fn test_largest_index_value() {
    let today = today_utc();
    let data = jarr(vec![jobj(vec![("date", jstr("jour")), ("indice", jnum(u32::MAX))])]);
    let result = index_to_index(&data, today);
    assert_eq!(result.unwrap()[0].index(), u32::MAX);
}

#[test]
fn test_dump_escapes() {
    let node = jobj(vec![("text", jstr("a \"quoted\" \\ line\nnext"))]);
    assert_eq!(node.dump(), "{\"text\":\"a \\\"quoted\\\" \\\\ line\\nnext\"}".to_string());
    assert_eq!(jarr(vec![JsonNode::Null, JsonNode::Boolean(true)]).dump(), "[null,true]");
    assert_eq!(jobj(vec![]).dump(), "{}");
    assert_eq!(jarr(vec![]).dump(), "[]");
}

#[test]
fn test_join_cities() {
    assert_eq!(join_cities(&vec!["75101", "94028"]), "75101,94028".to_string());
    assert_eq!(join_cities(&vec!["75101"]), "75101".to_string());
    assert_eq!(join_cities(&vec![]), "".to_string());
}

#[test]
fn test_process_response_status_edges() {
    // 2xx bounds: 200 and 299 succeed, 199 and 300 fail
    assert!(process_response("u", 200, "[]").is_ok());
    assert!(process_response("u", 299, "[]").is_ok());
    assert!(matches!(
        process_response("u", 199, "[]").err().unwrap(),
        RParifError::CallError { status: 199, .. }
    ));
    // a body that is not JSON fails as a JSON error even on a failing status
    assert!(matches!(
        process_response("u", 500, "oops").err().unwrap(),
        RParifError::JsonError(_)
    ));
}

#[test]
fn test_decode_episode_pollutant_order() {
    let today = today_utc();
    let data = jarr(vec![jobj(vec![
        ("date", jstr("jour")),
        ("so2", jobj(vec![("type", jstr("prevu")), ("niveau", jstr("normal"))])),
        ("detail", jstr("watch out")),
        ("no2", jobj(vec![("type", jstr("constate")), ("niveau", jstr("alerte"))])),
    ])]);
    let result = episode_to_episode(&data, today).unwrap();
    assert_eq!(result.len(), 1);
    assert_eq!(result[0].detail(), Some("watch out".to_string()));
    let details = result[0].pollutants();
    assert_eq!(details.len(), 2);
    assert_eq!(details[0].pollutant_name(), "so2".to_string());
    assert_eq!(details[0].kind(), Type::Forecast);
    assert_eq!(details[0].level(), Level::Normal);
    assert_eq!(details[0].criteria(), Vec::<Criteria>::new());
    assert_eq!(details[1].pollutant_name(), "no2".to_string());
    assert_eq!(details[1].kind(), Type::Observed);
    assert_eq!(details[1].level(), Level::Alert);
}

#[test]
fn test_today_utc_is_a_real_day() {
    let today = today_utc();
    assert!(1 <= today.month && today.month <= 12);
    assert!(1 <= today.day && today.day <= 31);
    let check = chrono::Utc::now().date_naive();
    // the clock may tick over midnight between the two reads; both reads
    // must still be within one day of each other
    let as_chrono =
        chrono::NaiveDate::from_ymd_opt(today.year, today.month as u32, today.day as u32).unwrap();
    assert!(as_chrono == check || as_chrono.succ_opt().unwrap() == check);
    assert!(check.year() >= 2020);
}
