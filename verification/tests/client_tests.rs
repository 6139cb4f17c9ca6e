//! Tests of the resolver, the accessors, the response classifier and the
//! four decoders, on the same payloads the service delivers.

use chrono::Datelike;
use rparif::client::{
    convert_json_to_date, convert_string_to_date, episode_to_episode, get_number_value,
    get_string_value, idxville_to_index, index_day_to_index, index_to_index, process_response,
};
use rparif::dates::today_utc;
use rparif::error::RParifError;
use rparif::jsonval::JsonNode;
use rparif::objects::{Criteria, Episode, Index, Level, Type};
use rparif::CivilDate;

fn civil(d: chrono::NaiveDate) -> CivilDate {
    CivilDate { year: d.year(), month: d.month() as u8, day: d.day() as u8 }
}

fn chrono_of(d: CivilDate) -> chrono::NaiveDate {
    chrono::NaiveDate::from_ymd_opt(d.year, d.month as u32, d.day as u32).unwrap()
}

fn yesterday_of(today: CivilDate) -> CivilDate {
    civil(chrono_of(today).pred_opt().unwrap())
}

fn tomorrow_of(today: CivilDate) -> CivilDate {
    civil(chrono_of(today).succ_opt().unwrap())
}

fn jstr(s: &str) -> JsonNode {
    JsonNode::Text(s.to_string())
}

fn jnum(n: u32) -> JsonNode {
    JsonNode::Number(n)
}

fn jarr(items: Vec<JsonNode>) -> JsonNode {
    JsonNode::Array(items)
}

fn jobj(pairs: Vec<(&str, JsonNode)>) -> JsonNode {
    JsonNode::Object(pairs.into_iter().map(|(k, v)| (k.to_string(), v)).collect())
}

#[test]
// Return yesterday
fn test_convert_json_to_date_hier() {
    let today = today_utc();
    let json = jstr("hier");
    let result = convert_json_to_date(&json, today);

    assert!(result.is_ok(), "Convert JSON 'hier' fails");
    assert_eq!(result.ok(), Some(yesterday_of(today)));
}

#[test]
// Return today
fn test_convert_json_to_date_jour() {
    let today = today_utc();
    let json = jstr("jour");
    let result = convert_json_to_date(&json, today);

    assert!(result.is_ok(), "Convert JSON 'jour' fails");
    assert_eq!(result.ok(), Some(today));
}

#[test]
// Return tomorrow
fn test_convert_json_to_date_demain() {
    let today = today_utc();
    let json = jstr("demain");
    let result = convert_json_to_date(&json, today);

    assert!(result.is_ok(), "Convert JSON 'demain' fails");
    assert_eq!(result.ok(), Some(tomorrow_of(today)));
}

#[test]
// Return an error because date isn't 'hier', 'jour' or 'demain'
fn test_convert_json_to_date_wrong() {
    let today = today_utc();
    let json = jstr("wrong string");
    let result = convert_json_to_date(&json, today);

    assert!(result.is_err(), "Convert JSON 'wrong string' should fails");
    match result.err().unwrap() {
        RParifError::UnexpectedDate(s) => assert_eq!(s, "\"wrong string\"".to_string()),
        _ => panic!("Wrong error"),
    }
}

#[test]
// Return yesterday day
fn test_convert_string_to_date_hier() {
    let today = today_utc();
    let result = convert_string_to_date("hier", today);

    assert!(result.is_ok(), "Convert string 'hier' fails");
    assert_eq!(result.ok(), Some(yesterday_of(today)));
}

#[test]
// Return today
fn test_convert_string_to_date_jour() {
    let today = today_utc();
    let result = convert_string_to_date("jour", today);

    assert!(result.is_ok(), "Convert string 'jour' fails");
    assert_eq!(result.ok(), Some(today));
}

#[test]
// Return tomorrow
fn test_convert_string_to_date_demain() {
    let today = today_utc();
    let result = convert_string_to_date("demain", today);

    assert!(result.is_ok(), "Convert string 'demain' fails");
    assert_eq!(result.ok(), Some(tomorrow_of(today)));
}

#[test]
// Return an error because date isn't 'hier', 'jour' or 'demain'
fn test_convert_string_to_date_wrong() {
    let today = today_utc();
    let result = convert_string_to_date("wrong string", today);

    assert!(result.is_err(), "Convert string 'wrong string' should fails");
    match result.err().unwrap() {
        RParifError::UnexpectedDate(s) => assert_eq!(s, "wrong string".to_string()),
        _ => panic!("Wrong error"),
    }
}

#[test]
// Get number value from JSON return an error because
// the JSON key doesn't exists
fn test_get_number_value_no_key() {
    let data = jobj(vec![("wrong_key", jnum(12))]);

    let result = get_number_value("key", &data);

    assert!(result.is_err());
    match result.err().unwrap() {
        RParifError::MissingJsonKey { key, json } => {
            assert_eq!(key, "key".to_string());
            assert_eq!(json, "{\"wrong_key\":12}")
        }
        _ => panic!("Wrong error"),
    }
}

#[test]
// Get number value from JSON return an error because
// the value is not a string
fn test_get_number_value_wrong_type() {
    let data = jobj(vec![("key", jstr("wrong type"))]);

    let result = get_number_value("key", &data);

    assert!(result.is_err());
    match result.err().unwrap() {
        RParifError::WrongJsonType { expected, json } => {
            assert_eq!(expected, "number".to_string());
            assert_eq!(json, "\"wrong type\"")
        }
        _ => panic!("Wrong error"),
    }
}

#[test]
// Get number value from JSON ok
fn test_get_number_value() {
    let data = jobj(vec![("key", jnum(12))]);

    let result = get_number_value("key", &data);
    assert!(result.is_ok());
    assert_eq!(result.ok(), Some(12));
}

#[test]
// Get string value from JSON return an error because
// the JSON key doesn't exists
fn test_get_string_value_no_key() {
    let data = jobj(vec![("wrong_key", jstr("data"))]);

    let result = get_string_value("key", &data);

    assert!(result.is_err());
    match result.err().unwrap() {
        RParifError::MissingJsonKey { key, json } => {
            assert_eq!(key, "key".to_string());
            assert_eq!(json, "{\"wrong_key\":\"data\"}")
        }
        _ => panic!("Wrong error"),
    }
}

#[test]
// Get string value from JSON return an error because
// the value is not a string
fn test_get_string_value_wrong_type() {
    let data = jobj(vec![("key", jnum(12))]);

    let result = get_string_value("key", &data);

    assert!(result.is_err());
    match result.err().unwrap() {
        RParifError::WrongJsonType { expected, json } => {
            assert_eq!(expected, "string".to_string());
            assert_eq!(json, "12")
        }
        _ => panic!("Wrong error"),
    }
}

#[test]
// Get string value from JSON ok
fn test_get_string_value() {
    let data = jobj(vec![("key", jstr("data"))]);

    let result = get_string_value("key", &data);
    assert!(result.is_ok());
    assert_eq!(result.ok(), Some("data"));
}

#[test]
// Call return an error because the result is not a well formed JSON
fn test_execute_query_reqwest_not_json() {
    let result = process_response("http://localhost:5000/path", 200, "this is not a json");

    assert!(result.is_err());
    match result.err().unwrap() {
        RParifError::JsonError(err) => {
            assert_eq!(err, "Unexpected character: h at (1:2)")
        }
        _ => panic!("Wrong error"),
    }
}

#[test]
// Call return an error because status is different from 2xx
fn test_execute_query_reqwest_wrong_status() {
    let result = process_response("http://localhost:5000/path", 300, "{\"data\":0}");

    assert!(result.is_err());
    match result.err().unwrap() {
        RParifError::CallError { url, body, status } => {
            assert_eq!(url, "http://localhost:5000/path".to_string());
            assert_eq!(body, "{\"data\":0}".to_string());
            assert_eq!(status, 300);
        }
        _ => panic!("Wrong error"),
    }
}

#[test]
// Call OK
fn test_execute_query_reqwest() {
    let result = process_response("http://localhost:5000/path", 200, "{\"data\":0}");

    assert_eq!(result.ok(), Some(jobj(vec![("data", jnum(0))])))
}

#[test]
fn test_index_to_index() {
    let today = today_utc();
    let data = jarr(vec![jobj(vec![
        ("date", jstr("jour")),
        ("indice", jnum(35)),
        ("url_carte", jstr("a")),
    ])]);

    let result = index_to_index(&data, today);

    assert!(result.is_ok());
    assert_eq!(
        result.ok(),
        Some(vec![Index::new(
            today,
            Some("a".to_string()),
            vec!["global".to_string()],
            35,
            None,
        )])
    );
}

#[test]
fn test_index_to_index_not_an_array() {
    let today = today_utc();
    let data = jobj(vec![
        ("date", jstr("jour")),
        ("indice", jnum(35)),
        ("url_carte", jstr("a")),
    ]);

    let result = index_to_index(&data, today);
    assert!(result.is_err());
    match result.err().unwrap() {
        RParifError::WrongJsonType { expected, json } => {
            assert_eq!(expected, "array".to_string());
            assert_eq!(json, r#"{"date":"jour","indice":35,"url_carte":"a"}"#.to_string())
        }
        _ => panic!("Wrong error"),
    };
}

#[test]
fn test_index_day_to_index() {
    let data = jobj(vec![
        ("date", jstr("31/12/2019")),
        ("global", jobj(vec![("indice", jnum(35)), ("url_carte", jstr("a"))])),
        ("o3", jobj(vec![("indice", jnum(40)), ("url_carte", jstr("b"))])),
    ]);
    let expected = Some(vec![
        Index::new(
            CivilDate { year: 2019, month: 12, day: 31 },
            Some("a".to_string()),
            vec!["global".to_string()],
            35,
            None,
        ),
        Index::new(
            CivilDate { year: 2019, month: 12, day: 31 },
            Some("b".to_string()),
            vec!["o3".to_string()],
            40,
            None,
        ),
    ]);

    let result = index_day_to_index(&data);
    assert!(result.is_ok());
    assert_eq!(result.ok(), expected);
}

#[test]
fn test_idxville_to_index() {
    let today = today_utc();
    let data = jarr(vec![
        jobj(vec![
            ("ninsee", jstr("75101")),
            ("hier", jobj(vec![
                ("indice", jnum(25)),
                ("polluants", jarr(vec![jstr("no2"), jstr("pm10")])),
            ])),
            ("jour", jobj(vec![
                ("indice", jnum(50)),
                ("polluants", jarr(vec![jstr("pm10")])),
            ])),
            ("demain", jobj(vec![
                ("indice", jnum(36)),
                ("polluants", jarr(vec![jstr("o3")])),
            ])),
        ]),
        jobj(vec![
            ("ninsee", jstr("94028")),
            ("hier", jobj(vec![
                ("indice", jnum(100)),
                ("polluants", jarr(vec![jstr("no2")])),
            ])),
            ("jour", jobj(vec![
                ("indice", jnum(40)),
                ("polluants", jarr(vec![jstr("o3")])),
            ])),
            ("demain", jobj(vec![
                ("indice", jnum(95)),
                ("polluants", jarr(vec![jstr("o3"), jstr("no2"), jstr("pm10")])),
            ])),
        ]),
    ]);

    let result = idxville_to_index(&data, today);

    let yesterday = yesterday_of(today);
    let tomorrow = tomorrow_of(today);
    let expected = vec![
        Index::new(
            yesterday,
            None,
            vec!["no2".to_string(), "pm10".to_string()],
            25,
            Some("75101".to_string()),
        ),
        Index::new(today, None, vec!["pm10".to_string()], 50, Some("75101".to_string())),
        Index::new(tomorrow, None, vec!["o3".to_string()], 36, Some("75101".to_string())),
        Index::new(yesterday, None, vec!["no2".to_string()], 100, Some("94028".to_string())),
        Index::new(today, None, vec!["o3".to_string()], 40, Some("94028".to_string())),
        Index::new(
            tomorrow,
            None,
            vec!["o3".to_string(), "no2".to_string(), "pm10".to_string()],
            95,
            Some("94028".to_string()),
        ),
    ];

    assert!(result.is_ok());
    assert_eq!(result.ok(), Some(expected));
}

#[test]
fn test_idxville_to_index_not_an_array() {
    let today = today_utc();
    let data = jobj(vec![
        ("date", jstr("jour")),
        ("indice", jnum(35)),
        ("url_carte", jstr("a")),
    ]);

    let result = idxville_to_index(&data, today);
    assert!(result.is_err());
    match result.err().unwrap() {
        RParifError::WrongJsonType { expected, json } => {
            assert_eq!(expected, "array".to_string());
            assert_eq!(json, r#"{"date":"jour","indice":35,"url_carte":"a"}"#.to_string())
        }
        _ => panic!("Wrong error"),
    };
}

#[test]
fn test_episode_to_episode() {
    let today = today_utc();
    let data = jarr(vec![
        jobj(vec![
            ("date", jstr("hier")),
            ("detail", jstr("")),
            ("o3", jobj(vec![
                ("type", jstr("constate")),
                ("niveau", jstr("info")),
                ("criteres", jarr(vec![jstr("km"), jstr("pop")])),
            ])),
            ("so2", jobj(vec![
                ("type", jstr("constate")),
                ("niveau", jstr("alerte")),
                ("criteres", jarr(vec![jstr("pop")])),
            ])),
        ]),
        jobj(vec![
            ("date", jstr("jour")),
            ("detail", jstr("Il est conseillé d'éviter les déplacements en Ile de France")),
            ("no2", jobj(vec![
                ("type", jstr("constate")),
                ("niveau", jstr("normal")),
                ("criteres", jarr(vec![jstr("km")])),
            ])),
            ("so2", jobj(vec![
                ("type", jstr("constate")),
                ("niveau", jstr("alerte")),
                ("criteres", jarr(vec![jstr("km")])),
            ])),
        ]),
        jobj(vec![("date", jstr("demain")), ("detail", jstr(""))]),
    ]);

    let result = episode_to_episode(&data, today);

    let yesterday = yesterday_of(today);
    let tomorrow = tomorrow_of(today);
    let mut expected = Vec::new();
    let mut episode = Episode::new(yesterday, None);
    episode.add(
        "o3".to_string(),
        Type::Observed,
        Level::Info,
        vec![Criteria::Area, Criteria::Population],
    );
    episode.add("so2".to_string(), Type::Observed, Level::Alert, vec![Criteria::Population]);
    expected.push(episode);
    let mut episode = Episode::new(
        today,
        Some("Il est conseillé d'éviter les déplacements en Ile de France".to_string()),
    );
    episode.add("no2".to_string(), Type::Observed, Level::Normal, vec![Criteria::Area]);
    episode.add("so2".to_string(), Type::Observed, Level::Alert, vec![Criteria::Area]);
    expected.push(episode);
    let episode = Episode::new(tomorrow, None);
    expected.push(episode);

    assert!(result.is_ok());
    assert_eq!(result.ok(), Some(expected));
}

#[test]
fn test_episode_to_episode_not_an_array() {
    let today = today_utc();
    let data = jobj(vec![
        ("date", jstr("jour")),
        ("indice", jnum(35)),
        ("url_carte", jstr("a")),
    ]);

    let result = episode_to_episode(&data, today);
    assert!(result.is_err());
    match result.err().unwrap() {
        RParifError::WrongJsonType { expected, json } => {
            assert_eq!(expected, "array".to_string());
            assert_eq!(json, r#"{"date":"jour","indice":35,"url_carte":"a"}"#.to_string())
        }
        _ => panic!("Wrong error"),
    };
}
