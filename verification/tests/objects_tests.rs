//! Tests of the domain records, the enumerations, the calendar arithmetic
//! and the error reports.

use rparif::dates::{days_in_month, is_leap_year, next_day, prev_day, today_utc};
use rparif::error::RParifError;
use rparif::objects::{Criteria, Day, Episode, Index, Level, PollutantEpisode, Type};
use rparif::CivilDate;

#[test]
fn test_episode_iterator() {
    let today = today_utc();
    let mut episode = Episode::new(today, None);
    episode.add(
        "o3".to_string(),
        Type::Observed,
        Level::Info,
        vec![Criteria::Area, Criteria::Population],
    );
    episode.add("so2".to_string(), Type::Observed, Level::Alert, vec![Criteria::Population]);
    episode.add("no2".to_string(), Type::Observed, Level::Normal, vec![Criteria::Area]);

    let mut i: usize = 0;
    let mut it = episode.clone().into_iter();
    while let Some(pollution_episode) = it.next() {
        assert_eq!(pollution_episode, episode.pollutants().get(i).unwrap().clone());
        i += 1;
    }
    assert_eq!(i, 3);
}

#[test]
fn test_index_getters() {
    let date = CivilDate { year: 2019, month: 12, day: 31 };
    let index = Index::new(
        date,
        Some("map".to_string()),
        vec!["o3".to_string(), "no2".to_string()],
        42,
        Some("75101".to_string()),
    );
    assert_eq!(index.date(), date);
    assert_eq!(index.map_url(), Some("map".to_string()));
    assert_eq!(index.pollutants(), vec!["o3".to_string(), "no2".to_string()]);
    assert_eq!(index.index(), 42);
    assert_eq!(index.insee(), Some("75101".to_string()));
}

#[test]
fn test_episode_getters() {
    let date = CivilDate { year: 2020, month: 1, day: 15 };
    let mut episode = Episode::new(date, Some("stay inside".to_string()));
    episode.add("pm10".to_string(), Type::Forecast, Level::Alert, vec![Criteria::Population]);
    assert_eq!(episode.date(), date);
    assert_eq!(episode.detail(), Some("stay inside".to_string()));
    let details: Vec<PollutantEpisode> = episode.pollutants();
    assert_eq!(details.len(), 1);
    assert_eq!(details[0].pollutant_name(), "pm10".to_string());
    assert_eq!(details[0].kind(), Type::Forecast);
    assert_eq!(details[0].level(), Level::Alert);
    assert_eq!(details[0].criteria(), vec![Criteria::Population]);
}

#[test]
fn test_level_from_str() {
    assert_eq!(Level::from_str("info").ok(), Some(Level::Info));
    assert_eq!(Level::from_str("alerte").ok(), Some(Level::Alert));
    assert_eq!(Level::from_str("normal").ok(), Some(Level::Normal));
    match Level::from_str("worse").err().unwrap() {
        RParifError::UnknownEnumValue(token) => assert_eq!(token, "worse".to_string()),
        _ => panic!("Wrong error"),
    }
}

#[test]
fn test_type_from_str() {
    assert_eq!(Type::from_str("prevu").ok(), Some(Type::Forecast));
    assert_eq!(Type::from_str("constate").ok(), Some(Type::Observed));
    match Type::from_str("guessed").err().unwrap() {
        RParifError::UnknownEnumValue(token) => assert_eq!(token, "guessed".to_string()),
        _ => panic!("Wrong error"),
    }
}

#[test]
fn test_criteria_from_str() {
    assert_eq!(Criteria::from_str("km").ok(), Some(Criteria::Area));
    assert_eq!(Criteria::from_str("pop").ok(), Some(Criteria::Population));
    match Criteria::from_str("area").err().unwrap() {
        RParifError::UnknownEnumValue(token) => assert_eq!(token, "area".to_string()),
        _ => panic!("Wrong error"),
    }
}

#[test]
fn test_day_token() {
    assert_eq!(Day::Yesterday.token(), "hier");
    assert_eq!(Day::Today.token(), "jour");
    assert_eq!(Day::Tomorrow.token(), "demain");
}

#[test]
fn test_calendar_arithmetic() {
    // a plain day
    assert_eq!(
        next_day(CivilDate { year: 2019, month: 7, day: 14 }),
        CivilDate { year: 2019, month: 7, day: 15 }
    );
    // across a month end
    assert_eq!(
        next_day(CivilDate { year: 2019, month: 4, day: 30 }),
        CivilDate { year: 2019, month: 5, day: 1 }
    );
    // across a year end, both ways
    assert_eq!(
        next_day(CivilDate { year: 2019, month: 12, day: 31 }),
        CivilDate { year: 2020, month: 1, day: 1 }
    );
    assert_eq!(
        prev_day(CivilDate { year: 2020, month: 1, day: 1 }),
        CivilDate { year: 2019, month: 12, day: 31 }
    );
    // leap years: 2020 is one, 1900 is not, 2000 is
    assert!(is_leap_year(2020));
    assert!(!is_leap_year(1900));
    assert!(is_leap_year(2000));
    assert_eq!(days_in_month(2020, 2), 29);
    assert_eq!(days_in_month(2019, 2), 28);
    assert_eq!(
        prev_day(CivilDate { year: 2020, month: 3, day: 1 }),
        CivilDate { year: 2020, month: 2, day: 29 }
    );
}

#[test]
fn test_error_messages() {
    let e = RParifError::MissingJsonKey { key: "key".to_string(), json: "{}".to_string() };
    assert_eq!(e.message(), "Missing key key in {}".to_string());
    assert_eq!(e.description(), "Missing key in json");

    let e = RParifError::CallError {
        url: "http://localhost".to_string(),
        body: "{}".to_string(),
        status: 404,
    };
    assert_eq!(
        e.message(),
        "Unexpected HTTP response : url=http://localhost, status=404, body={}".to_string()
    );
    assert_eq!(e.description(), "Unexpected HTTP response");

    let e = RParifError::UnknownEnumValue("bad".to_string());
    assert_eq!(e.message(), "Error parsing enum value : unexpected value bad".to_string());

    let e = RParifError::RequestError("connection refused".to_string());
    assert_eq!(e.message(), "connection refused".to_string());
    assert_eq!(e.description(), "Error calling HTTP API");
}
