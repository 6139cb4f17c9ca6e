//! The decoding side of the API client: the JSON accessor utilities, the
//! relative-date resolver, the response classifier, and the four response
//! decoders, one per endpoint shape.
//!
//! Everything here works on an already-parsed [`JsonNode`] and plain values;
//! performing the HTTP request is the caller's business. The caller reads its
//! clock once and passes the current date in, so that the relative-day
//! tokens can be resolved.

use crate::dates::{ddmmyyyy_of, next_day, parse_ddmmyyyy, prev_day, CivilDate};
use crate::error::{ErrModel, RParifError};
use crate::jsonval::{
    display_string, entry_models, item_models, lemma_entry_models, lemma_item_models,
    lemma_member_absent, m_has_key, m_member, spec_display, spec_dump, JsonModel, JsonNode,
};
use crate::objects::{
    spec_criteria_of, spec_level_of, spec_type_of, Criteria, Episode, EpisodeModel, Index,
    IndexModel, Level, PollutantModel, Type,
};
use crate::strutil::{push_char, str_eq};
use vstd::prelude::*;

verus! {

/// What reading the number member `k` of `m` yields: the number, or
/// `MissingJsonKey` when `m` has no such member (also when `m` is no
/// object), or `WrongJsonType` when the member is no number.
pub open spec fn spec_get_number(m: JsonModel, k: Seq<char>) -> Result<u32, ErrModel> {
    if !m_has_key(m, k) {
        Err(ErrModel::MissingJsonKey { key: k, json: spec_dump(m) })
    } else {
        match m_member(m, k) {
            JsonModel::Number(n) => Ok(n),
            other => Err(ErrModel::WrongJsonType { expected: "number"@, json: spec_dump(other) }),
        }
    }
}

/// Reads the mandatory number member `key` of `json`.
pub fn get_number_value(key: &str, json: &JsonNode) -> (r: Result<u32, RParifError>)
    ensures
        match r {
            Ok(n) => spec_get_number(json.model(), key@) == Ok::<u32, ErrModel>(n),
            Err(e) => spec_get_number(json.model(), key@) == Err::<u32, ErrModel>(e.model()),
        },
{
    match json.get(key) {
        None => Err(
            RParifError::MissingJsonKey { key: String::from_str(key), json: json.dump() },
        ),
        Some(v) => match v {
            JsonNode::Number(n) => Ok(*n),
            _ => Err(
                RParifError::WrongJsonType {
                    expected: String::from_str("number"),
                    json: v.dump(),
                },
            ),
        },
    }
}

/// What reading the string member `k` of `m` yields, with the same error
/// rules as `spec_get_number`.
pub open spec fn spec_get_string(m: JsonModel, k: Seq<char>) -> Result<Seq<char>, ErrModel> {
    if !m_has_key(m, k) {
        Err(ErrModel::MissingJsonKey { key: k, json: spec_dump(m) })
    } else {
        match m_member(m, k) {
            JsonModel::Text(s) => Ok(s),
            other => Err(ErrModel::WrongJsonType { expected: "string"@, json: spec_dump(other) }),
        }
    }
}

/// Reads the mandatory string member `key` of `json`.
pub fn get_string_value<'a>(key: &str, json: &'a JsonNode) -> (r: Result<&'a str, RParifError>)
    ensures
        match r {
            Ok(s) => spec_get_string(json.model(), key@) == Ok::<Seq<char>, ErrModel>(s@),
            Err(e) => spec_get_string(json.model(), key@) == Err::<Seq<char>, ErrModel>(e.model()),
        },
{
    match json.get(key) {
        None => Err(
            RParifError::MissingJsonKey { key: String::from_str(key), json: json.dump() },
        ),
        Some(v) => match v {
            JsonNode::Text(s) => Ok(s.as_str()),
            _ => Err(
                RParifError::WrongJsonType {
                    expected: String::from_str("string"),
                    json: v.dump(),
                },
            ),
        },
    }
}

/// The date a relative-day token names: the day before `today` for `hier`,
/// `today` for `jour`, the day after for `demain`, nothing for any other
/// string.
pub open spec fn spec_resolve_token(s: Seq<char>, today: CivilDate) -> Option<CivilDate> {
    if s == "hier"@ {
        Some(today.spec_prev_day())
    } else if s == "demain"@ {
        Some(today.spec_next_day())
    } else if s == "jour"@ {
        Some(today)
    } else {
        None
    }
}

/// Resolves a relative-day token given as a plain string. A failure carries
/// the raw string.
pub fn convert_string_to_date(value: &str, today: CivilDate) -> (r: Result<CivilDate, RParifError>)
    requires
        today.interior(),
    ensures
        match r {
            Ok(d) => spec_resolve_token(value@, today) == Some(d) && d.wf(),
            Err(e) => spec_resolve_token(value@, today) is None && e.model()
                == ErrModel::UnexpectedDate(value@),
        },
{
    if str_eq(value, "hier") {
        Ok(prev_day(today))
    } else if str_eq(value, "demain") {
        Ok(next_day(today))
    } else if str_eq(value, "jour") {
        Ok(today)
    } else {
        Err(RParifError::UnexpectedDate(String::from_str(value)))
    }
}

/// The date a relative-day token names when it arrives as a JSON value: only
/// a JSON string can name one.
pub open spec fn spec_resolve_json(m: JsonModel, today: CivilDate) -> Option<CivilDate> {
    match m {
        JsonModel::Text(s) => spec_resolve_token(s, today),
        _ => None,
    }
}

/// Resolves a relative-day token given as a JSON value. A failure carries
/// the offending value written as JSON.
pub fn convert_json_to_date(value: &JsonNode, today: CivilDate) -> (r: Result<
    CivilDate,
    RParifError,
>)
    requires
        today.interior(),
    ensures
        match r {
            Ok(d) => spec_resolve_json(value.model(), today) == Some(d) && d.wf(),
            Err(e) => spec_resolve_json(value.model(), today) is None && e.model()
                == ErrModel::UnexpectedDate(spec_dump(value.model())),
        },
{
    match value {
        JsonNode::Text(s) => {
            if str_eq(s.as_str(), "hier") {
                Ok(prev_day(today))
            } else if str_eq(s.as_str(), "demain") {
                Ok(next_day(today))
            } else if str_eq(s.as_str(), "jour") {
                Ok(today)
            } else {
                Err(RParifError::UnexpectedDate(value.dump()))
            }
        },
        _ => Err(RParifError::UnexpectedDate(value.dump())),
    }
}

/// What `json::parse` returns for the text `s`: the tree, or the text of the
/// parse diagnostic. Stating the JSON grammar is not this library's business,
/// so the result is only named; `parse_json` states what is known of it.
pub uninterp spec fn json_tree_of(s: Seq<char>) -> Result<JsonModel, Seq<char>>;

/// Relies on `json::parse`: the result depends on the characters alone.
/// The parsed tree is carried over variant by variant; a JSON number is read
/// through `as_u32` (the service only delivers small non-negative integers),
/// and a number outside that range is carried as `null`.
#[verifier::external_body]
pub(crate) fn parse_json(s: &str) -> (r: Result<JsonNode, String>)
    ensures
        match r {
            Ok(n) => json_tree_of(s@) == Ok::<JsonModel, Seq<char>>(n.model()),
            Err(e) => json_tree_of(s@) == Err::<JsonModel, Seq<char>>(e@),
        },
{
    match json::parse(s) {
        Ok(v) => Ok(convert_value(&v)),
        Err(e) => Err(format!("{}", e)),
    }
}

#[verifier::external_type_specification]
#[verifier::external_body]
pub struct ExJsonValue(json::JsonValue);

/// Relies on the shape of `json::JsonValue`: one arm per variant, moving the
/// value into the library's tree; object members keep their source order.
#[verifier::external_body]
fn convert_value(v: &json::JsonValue) -> JsonNode {
    match v {
        json::JsonValue::Null => JsonNode::Null,
        json::JsonValue::Boolean(b) => JsonNode::Boolean(*b),
        json::JsonValue::Short(s) => JsonNode::Text(String::from_str(s.as_str())),
        json::JsonValue::String(s) => JsonNode::Text(s.clone()),
        json::JsonValue::Number(_) => match v.as_u32() {
            Option::Some(u) => JsonNode::Number(u),
            Option::None => JsonNode::Null,
        },
        json::JsonValue::Array(items) => JsonNode::Array(items.iter().map(convert_value).collect()),
        json::JsonValue::Object(o) => JsonNode::Object(
            o.iter().map(|(k, val)| (String::from_str(k), convert_value(val))).collect(),
        ),
    }
}

/// What classifying one HTTP outcome yields: a body that is not well-formed
/// JSON fails with `JsonError` whatever the status; then a status outside
/// 2xx fails with `CallError` carrying the URL, the status and the reparsed
/// body; otherwise the tree is handed back.
pub open spec fn spec_process_response(url: Seq<char>, status: u16, body: Seq<char>) -> Result<
    JsonModel,
    ErrModel,
> {
    match json_tree_of(body) {
        Err(d) => Err(ErrModel::JsonError(d)),
        Ok(m) => if 200 <= status < 300 {
            Ok(m)
        } else {
            Err(ErrModel::CallError { url, body: spec_dump(m), status })
        },
    }
}

/// Classifies the outcome of one HTTP exchange: the status code and the body
/// text go in, the parsed tree or the matching error comes out.
pub fn process_response(url: &str, status: u16, body: &str) -> (r: Result<JsonNode, RParifError>)
    ensures
        match r {
            Ok(n) => spec_process_response(url@, status, body@) == Ok::<JsonModel, ErrModel>(
                n.model(),
            ),
            Err(e) => spec_process_response(url@, status, body@) == Err::<JsonModel, ErrModel>(
                e.model(),
            ),
        },
{
    match parse_json(body) {
        Err(e) => Err(RParifError::JsonError(e)),
        Ok(data) => {
            if 200 <= status && status < 300 {
                Ok(data)
            } else {
                Err(
                    RParifError::CallError {
                        url: String::from_str(url),
                        body: data.dump(),
                        status,
                    },
                )
            }
        },
    }
}

/// What decoding one element of the global-index array yields: the `date`
/// member must name a relative day; `url_carte`, when present, is taken as
/// its display writing; the `indice` number is mandatory; the reading is for
/// the sentinel pollutant `global` and no city.
pub open spec fn spec_measurement_a(m: JsonModel, today: CivilDate) -> Result<
    IndexModel,
    ErrModel,
> {
    match spec_resolve_json(m_member(m, "date"@), today) {
        None => Err(ErrModel::UnexpectedDate(spec_dump(m_member(m, "date"@)))),
        Some(d) => {
            let url = if m_has_key(m, "url_carte"@) {
                Some(spec_display(m_member(m, "url_carte"@)))
            } else {
                None
            };
            match spec_get_number(m, "indice"@) {
                Err(e) => Err(e),
                Ok(idx) => Ok(
                    IndexModel {
                        date: d,
                        url,
                        pollutants: seq!["global"@],
                        index: idx,
                        insee: None,
                    },
                ),
            }
        },
    }
}

/// What decoding the elements `items[i..]` of the global-index array yields:
/// the readings in order, or the first error met.
pub open spec fn spec_decode_a_from(items: Seq<JsonModel>, today: CivilDate, i: int) -> Result<
    Seq<IndexModel>,
    ErrModel,
>
    decreases items.len() - i,
{
    if i < 0 || i >= items.len() {
        Ok(Seq::empty())
    } else {
        match spec_measurement_a(items[i], today) {
            Err(e) => Err(e),
            Ok(x) => match spec_decode_a_from(items, today, i + 1) {
                Err(e) => Err(e),
                Ok(rest) => Ok(seq![x] + rest),
            },
        }
    }
}

/// What the global-index decoder yields: the input must be an array; each
/// element becomes one reading.
pub open spec fn spec_index_to_index(m: JsonModel, today: CivilDate) -> Result<
    Seq<IndexModel>,
    ErrModel,
> {
    match m {
        JsonModel::Array(items) => spec_decode_a_from(items, today, 0),
        _ => Err(ErrModel::WrongJsonType { expected: "array"@, json: spec_dump(m) }),
    }
}

/// Decodes one element of the global-index array.
fn decode_measurement_a(item: &JsonNode, today: CivilDate) -> (r: Result<Index, RParifError>)
    requires
        today.interior(),
    ensures
        match r {
            Ok(x) => spec_measurement_a(item.model(), today) == Ok::<IndexModel, ErrModel>(
                x.deep_view(),
            ),
            Err(e) => spec_measurement_a(item.model(), today) == Err::<IndexModel, ErrModel>(
                e.model(),
            ),
        },
{
    let null_node = JsonNode::Null;
    let date_value = match item.get("date") {
        Some(n) => n,
        None => {
            proof {
                lemma_member_absent(item.model(), "date"@);
            }
            &null_node
        },
    };
    let date = match convert_json_to_date(date_value, today) {
        Ok(d) => d,
        Err(e) => {
            return Err(e);
        },
    };
    let url: Option<String> = match item.get("url_carte") {
        Some(n) => Some(display_string(n)),
        None => None,
    };
    let index = match get_number_value("indice", item) {
        Ok(n) => n,
        Err(e) => {
            return Err(e);
        },
    };
    let x = Index::new(date, url, vec![String::from_str("global")], index, None);
    proof {
        assert(x.deep_view().pollutants =~= seq!["global"@]);
    }
    Ok(x)
}

/// Decodes the global-index response: one reading per array element, dated
/// by its relative-day token, for the sentinel pollutant `global`.
pub fn index_to_index(json: &JsonNode, today: CivilDate) -> (r: Result<Vec<Index>, RParifError>)
    requires
        today.interior(),
    ensures
        match r {
            Ok(v) => spec_index_to_index(json.model(), today) == Ok::<Seq<IndexModel>, ErrModel>(
                v.deep_view(),
            ),
            Err(e) => spec_index_to_index(json.model(), today) == Err::<Seq<IndexModel>, ErrModel>(
                e.model(),
            ),
        },
{
    match json {
        JsonNode::Array(items) => {
            proof {
                lemma_item_models(items@, 0);
            }
            let ghost ms = item_models(items@, 0);
            let mut result: Vec<Index> = Vec::new();
            let mut i: usize = 0;
            while i < items.len()
                invariant
                    today.interior(),
                    i <= items@.len(),
                    json.model() == JsonModel::Array(ms),
                    ms == item_models(items@, 0),
                    ms.len() == items@.len(),
                    forall|j: int| 0 <= j < items@.len() ==> #[trigger] ms[j] == items@[j].model(),
                    spec_decode_a_from(ms, today, 0) == (match spec_decode_a_from(
                        ms,
                        today,
                        i as int,
                    ) {
                        Ok(rest) => Ok::<Seq<IndexModel>, ErrModel>(result.deep_view() + rest),
                        Err(e) => Err::<Seq<IndexModel>, ErrModel>(e),
                    }),
                decreases items@.len() - i,
            {
                let ghost prev = result.deep_view();
                match decode_measurement_a(&items[i], today) {
                    Err(e) => {
                        proof {
                            assert(spec_decode_a_from(ms, today, i as int) == Err::<
                                Seq<IndexModel>,
                                ErrModel,
                            >(e.model()));
                        }
                        return Err(e);
                    },
                    Ok(x) => {
                        let ghost xm = x.deep_view();
                        result.push(x);
                        proof {
                            assert(result.deep_view() =~= prev.push(xm));
                            assert(spec_decode_a_from(ms, today, 0) == (match spec_decode_a_from(
                                ms,
                                today,
                                i as int + 1,
                            ) {
                                Ok(rest) => Ok::<Seq<IndexModel>, ErrModel>(
                                    result.deep_view() + rest,
                                ),
                                Err(e) => Err::<Seq<IndexModel>, ErrModel>(e),
                            })) by {
                                let tail = spec_decode_a_from(ms, today, i as int + 1);
                                match tail {
                                    Ok(rest) => {
                                        assert(prev.push(xm) + rest =~= prev + (seq![xm] + rest));
                                    },
                                    Err(_) => {},
                                }
                            }
                        }
                    },
                }
                i = i + 1;
            }
            proof {
                assert(result.deep_view() + Seq::<IndexModel>::empty() =~= result.deep_view());
            }
            Ok(result)
        },
        _ => Err(
            RParifError::WrongJsonType { expected: String::from_str("array"), json: json.dump() },
        ),
    }
}

/// What decoding one pollutant member of the day-index object yields: the
/// member's key names the pollutant, its value must hold the mandatory
/// `indice` number, and `url_carte` is kept when it is a string.
pub open spec fn spec_measurement_b(key: Seq<char>, sub: JsonModel, date: CivilDate) -> Result<
    IndexModel,
    ErrModel,
> {
    match spec_get_number(sub, "indice"@) {
        Err(e) => Err(e),
        Ok(idx) => {
            let url = match spec_get_string(sub, "url_carte"@) {
                Ok(s) => Some(s),
                Err(_) => None,
            };
            Ok(IndexModel { date, url, pollutants: seq![key], index: idx, insee: None })
        },
    }
}

/// What decoding the members `es[i..]` of the day-index object yields: one
/// reading per member other than `date`, in order, or the first error met.
pub open spec fn spec_decode_b_from(
    es: Seq<(Seq<char>, JsonModel)>,
    date: CivilDate,
    i: int,
) -> Result<Seq<IndexModel>, ErrModel>
    decreases es.len() - i,
{
    if i < 0 || i >= es.len() {
        Ok(Seq::empty())
    } else if es[i].0 == "date"@ {
        spec_decode_b_from(es, date, i + 1)
    } else {
        match spec_measurement_b(es[i].0, es[i].1, date) {
            Err(e) => Err(e),
            Ok(x) => match spec_decode_b_from(es, date, i + 1) {
                Err(e) => Err(e),
                Ok(rest) => Ok(seq![x] + rest),
            },
        }
    }
}

/// What the day-index decoder yields: the mandatory `date` member is parsed
/// as an absolute `dd/mm/yyyy` date; every other member becomes one reading
/// whose key names the pollutant.
pub open spec fn spec_index_day_to_index(m: JsonModel) -> Result<Seq<IndexModel>, ErrModel> {
    match m {
        JsonModel::Object(es) => match spec_get_string(m, "date"@) {
            Err(e) => Err(e),
            Ok(ds) => match ddmmyyyy_of(ds) {
                Err(pe) => Err(ErrModel::DateParseError(pe)),
                Ok(d) => spec_decode_b_from(es, d, 0),
            },
        },
        _ => Err(ErrModel::MissingJsonKey { key: "date"@, json: spec_dump(m) }),
    }
}

/// Decodes one pollutant member of the day-index object.
fn decode_measurement_b(key: &String, sub: &JsonNode, date: CivilDate) -> (r: Result<
    Index,
    RParifError,
>)
    ensures
        match r {
            Ok(x) => spec_measurement_b(key@, sub.model(), date) == Ok::<IndexModel, ErrModel>(
                x.deep_view(),
            ),
            Err(e) => spec_measurement_b(key@, sub.model(), date) == Err::<IndexModel, ErrModel>(
                e.model(),
            ),
        },
{
    let index = match get_number_value("indice", sub) {
        Ok(n) => n,
        Err(e) => {
            return Err(e);
        },
    };
    let url: Option<String> = match get_string_value("url_carte", sub) {
        Ok(s) => Some(String::from_str(s)),
        Err(_) => None,
    };
    let x = Index::new(date, url, vec![key.clone()], index, None);
    proof {
        assert(x.deep_view().pollutants =~= seq![key@]);
    }
    Ok(x)
}

/// Decodes the day-index response: readings for one absolute date, one per
/// pollutant named by an object key.
pub fn index_day_to_index(json: &JsonNode) -> (r: Result<Vec<Index>, RParifError>)
    ensures
        match r {
            Ok(v) => spec_index_day_to_index(json.model()) == Ok::<Seq<IndexModel>, ErrModel>(
                v.deep_view(),
            ),
            Err(e) => spec_index_day_to_index(json.model()) == Err::<Seq<IndexModel>, ErrModel>(
                e.model(),
            ),
        },
{
    match json {
        JsonNode::Object(entries) => {
            proof {
                lemma_entry_models(entries@, 0);
            }
            let ghost ms = entry_models(entries@, 0);
            let ds = match get_string_value("date", json) {
                Ok(s) => s,
                Err(e) => {
                    return Err(e);
                },
            };
            let date = match parse_ddmmyyyy(ds) {
                Ok(d) => d,
                Err(e) => {
                    return Err(RParifError::DateParseError(e));
                },
            };
            let mut result: Vec<Index> = Vec::new();
            let mut i: usize = 0;
            while i < entries.len()
                invariant
                    i <= entries@.len(),
                    json.model() == JsonModel::Object(ms),
                    spec_get_string(json.model(), "date"@) == Ok::<Seq<char>, ErrModel>(ds@),
                    ddmmyyyy_of(ds@) == Ok::<CivilDate, Seq<char>>(date),
                    ms == entry_models(entries@, 0),
                    ms.len() == entries@.len(),
                    forall|j: int|
                        0 <= j < entries@.len() ==> #[trigger] ms[j] == (
                        entries@[j].0@,
                        entries@[j].1.model(),
                        ),
                    spec_decode_b_from(ms, date, 0) == (match spec_decode_b_from(
                        ms,
                        date,
                        i as int,
                    ) {
                        Ok(rest) => Ok::<Seq<IndexModel>, ErrModel>(result.deep_view() + rest),
                        Err(e) => Err::<Seq<IndexModel>, ErrModel>(e),
                    }),
                decreases entries@.len() - i,
            {
                if str_eq(entries[i].0.as_str(), "date") {
                    proof {
                        assert(spec_decode_b_from(ms, date, i as int) == spec_decode_b_from(
                            ms,
                            date,
                            i as int + 1,
                        ));
                    }
                } else {
                    let ghost prev = result.deep_view();
                    match decode_measurement_b(&entries[i].0, &entries[i].1, date) {
                        Err(e) => {
                            proof {
                                assert(spec_decode_b_from(ms, date, i as int) == Err::<
                                    Seq<IndexModel>,
                                    ErrModel,
                                >(e.model()));
                            }
                            return Err(e);
                        },
                        Ok(x) => {
                            let ghost xm = x.deep_view();
                            result.push(x);
                            proof {
                                assert(result.deep_view() =~= prev.push(xm));
                                assert(spec_decode_b_from(ms, date, 0) == (
                                match spec_decode_b_from(ms, date, i as int + 1) {
                                    Ok(rest) => Ok::<Seq<IndexModel>, ErrModel>(
                                        result.deep_view() + rest,
                                    ),
                                    Err(e) => Err::<Seq<IndexModel>, ErrModel>(e),
                                })) by {
                                    let tail = spec_decode_b_from(ms, date, i as int + 1);
                                    match tail {
                                        Ok(rest) => {
                                            assert(prev.push(xm) + rest =~= prev + (
                                            seq![xm] + rest));
                                        },
                                        Err(_) => {},
                                    }
                                }
                            }
                        },
                    }
                }
                i = i + 1;
            }
            proof {
                assert(result.deep_view() + Seq::<IndexModel>::empty() =~= result.deep_view());
            }
            Ok(result)
        },
        _ => Err(
            RParifError::MissingJsonKey { key: String::from_str("date"), json: json.dump() },
        ),
    }
}

/// The strings held by the elements `items[i..]`: a non-string element is
/// the wrong shape.
pub open spec fn spec_string_items(items: Seq<JsonModel>, i: int) -> Result<
    Seq<Seq<char>>,
    ErrModel,
>
    decreases items.len() - i,
{
    if i < 0 || i >= items.len() {
        Ok(Seq::empty())
    } else {
        match items[i] {
            JsonModel::Text(s) => match spec_string_items(items, i + 1) {
                Ok(rest) => Ok(seq![s] + rest),
                Err(e) => Err(e),
            },
            other => Err(ErrModel::WrongJsonType { expected: "string"@, json: spec_dump(other) }),
        }
    }
}

/// The pollutant list a day sub-object carries: the strings of the
/// `polluants` member when it is an array; an empty list when it is absent
/// or no array.
pub open spec fn spec_pollutant_list(m: JsonModel) -> Result<Seq<Seq<char>>, ErrModel> {
    match m {
        JsonModel::Array(items) => spec_string_items(items, 0),
        _ => Ok(Seq::empty()),
    }
}

/// What decoding one day member of a city element yields: the member's key
/// must be a relative-day token; its value holds the mandatory `indice`
/// number and an optional `polluants` array; the reading carries the city
/// code and no map link.
pub open spec fn spec_measurement_c(
    daykey: Seq<char>,
    sub: JsonModel,
    insee: Seq<char>,
    today: CivilDate,
) -> Result<IndexModel, ErrModel> {
    match spec_resolve_token(daykey, today) {
        None => Err(ErrModel::UnexpectedDate(daykey)),
        Some(d) => match spec_get_number(sub, "indice"@) {
            Err(e) => Err(e),
            Ok(idx) => match spec_pollutant_list(m_member(sub, "polluants"@)) {
                Err(e) => Err(e),
                Ok(ps) => Ok(
                    IndexModel { date: d, url: None, pollutants: ps, index: idx, insee: Some(insee) },
                ),
            },
        },
    }
}

/// What decoding the members `es[i..]` of one city element yields: one
/// reading per member other than `ninsee`, in order, or the first error met.
pub open spec fn spec_decode_city_from(
    es: Seq<(Seq<char>, JsonModel)>,
    insee: Seq<char>,
    today: CivilDate,
    i: int,
) -> Result<Seq<IndexModel>, ErrModel>
    decreases es.len() - i,
{
    if i < 0 || i >= es.len() {
        Ok(Seq::empty())
    } else if es[i].0 == "ninsee"@ {
        spec_decode_city_from(es, insee, today, i + 1)
    } else {
        match spec_measurement_c(es[i].0, es[i].1, insee, today) {
            Err(e) => Err(e),
            Ok(x) => match spec_decode_city_from(es, insee, today, i + 1) {
                Err(e) => Err(e),
                Ok(rest) => Ok(seq![x] + rest),
            },
        }
    }
}

/// What decoding one city element yields: the mandatory `ninsee` string
/// scopes the readings; every other member is one relative day.
pub open spec fn spec_decode_city(m: JsonModel, today: CivilDate) -> Result<
    Seq<IndexModel>,
    ErrModel,
> {
    match m {
        JsonModel::Object(es) => match spec_get_string(m, "ninsee"@) {
            Err(e) => Err(e),
            Ok(insee) => spec_decode_city_from(es, insee, today, 0),
        },
        _ => Err(ErrModel::MissingJsonKey { key: "ninsee"@, json: spec_dump(m) }),
    }
}

/// What decoding the city elements `items[i..]` yields: the readings of each
/// city in turn, or the first error met.
pub open spec fn spec_decode_c_from(items: Seq<JsonModel>, today: CivilDate, i: int) -> Result<
    Seq<IndexModel>,
    ErrModel,
>
    decreases items.len() - i,
{
    if i < 0 || i >= items.len() {
        Ok(Seq::empty())
    } else {
        match spec_decode_city(items[i], today) {
            Err(e) => Err(e),
            Ok(part) => match spec_decode_c_from(items, today, i + 1) {
                Err(e) => Err(e),
                Ok(rest) => Ok(part + rest),
            },
        }
    }
}

/// What the city-index decoder yields: the input must be an array of city
/// elements.
pub open spec fn spec_idxville_to_index(m: JsonModel, today: CivilDate) -> Result<
    Seq<IndexModel>,
    ErrModel,
> {
    match m {
        JsonModel::Array(items) => spec_decode_c_from(items, today, 0),
        _ => Err(ErrModel::WrongJsonType { expected: "array"@, json: spec_dump(m) }),
    }
}

/// Reads the optional `polluants` member of a day sub-object.
fn pollutant_list(sub: &JsonNode) -> (r: Result<Vec<String>, RParifError>)
    ensures
        match r {
            Ok(v) => spec_pollutant_list(m_member(sub.model(), "polluants"@)) == Ok::<
                Seq<Seq<char>>,
                ErrModel,
            >(v.deep_view()),
            Err(e) => spec_pollutant_list(m_member(sub.model(), "polluants"@)) == Err::<
                Seq<Seq<char>>,
                ErrModel,
            >(e.model()),
        },
{
    let null_node = JsonNode::Null;
    let pnode = match sub.get("polluants") {
        Some(n) => n,
        None => {
            proof {
                lemma_member_absent(sub.model(), "polluants"@);
            }
            &null_node
        },
    };
    match pnode {
        JsonNode::Array(items) => {
            proof {
                lemma_item_models(items@, 0);
            }
            let ghost ms = item_models(items@, 0);
            let mut out: Vec<String> = Vec::new();
            let mut i: usize = 0;
            while i < items.len()
                invariant
                    i <= items@.len(),
                    pnode.model() == JsonModel::Array(ms),
                    pnode.model() == m_member(sub.model(), "polluants"@),
                    ms == item_models(items@, 0),
                    ms.len() == items@.len(),
                    forall|j: int| 0 <= j < items@.len() ==> #[trigger] ms[j] == items@[j].model(),
                    spec_string_items(ms, 0) == (match spec_string_items(ms, i as int) {
                        Ok(rest) => Ok::<Seq<Seq<char>>, ErrModel>(out.deep_view() + rest),
                        Err(e) => Err::<Seq<Seq<char>>, ErrModel>(e),
                    }),
                decreases items@.len() - i,
            {
                let ghost prev = out.deep_view();
                match &items[i] {
                    JsonNode::Text(s) => {
                        let ghost sm = s@;
                        out.push(s.clone());
                        proof {
                            assert(out.deep_view() =~= prev.push(sm));
                            assert(spec_string_items(ms, 0) == (match spec_string_items(
                                ms,
                                i as int + 1,
                            ) {
                                Ok(rest) => Ok::<Seq<Seq<char>>, ErrModel>(out.deep_view() + rest),
                                Err(e) => Err::<Seq<Seq<char>>, ErrModel>(e),
                            })) by {
                                match spec_string_items(ms, i as int + 1) {
                                    Ok(rest) => {
                                        assert(prev.push(sm) + rest =~= prev + (seq![sm] + rest));
                                    },
                                    Err(_) => {},
                                }
                            }
                        }
                    },
                    other => {
                        let e = RParifError::WrongJsonType {
                            expected: String::from_str("string"),
                            json: other.dump(),
                        };
                        proof {
                            assert(spec_string_items(ms, i as int) == Err::<
                                Seq<Seq<char>>,
                                ErrModel,
                            >(e.model()));
                        }
                        return Err(e);
                    },
                }
                i = i + 1;
            }
            proof {
                assert(out.deep_view() + Seq::<Seq<char>>::empty() =~= out.deep_view());
            }
            Ok(out)
        },
        _ => {
            let out: Vec<String> = Vec::new();
            proof {
                assert(out.deep_view() =~= Seq::<Seq<char>>::empty());
            }
            Ok(out)
        },
    }
}

/// Decodes one day member of a city element.
fn decode_measurement_c(daykey: &String, sub: &JsonNode, insee: &str, today: CivilDate) -> (r:
    Result<Index, RParifError>)
    requires
        today.interior(),
    ensures
        match r {
            Ok(x) => spec_measurement_c(daykey@, sub.model(), insee@, today) == Ok::<
                IndexModel,
                ErrModel,
            >(x.deep_view()),
            Err(e) => spec_measurement_c(daykey@, sub.model(), insee@, today) == Err::<
                IndexModel,
                ErrModel,
            >(e.model()),
        },
{
    let date = match convert_string_to_date(daykey.as_str(), today) {
        Ok(d) => d,
        Err(e) => {
            return Err(e);
        },
    };
    let index = match get_number_value("indice", sub) {
        Ok(n) => n,
        Err(e) => {
            return Err(e);
        },
    };
    let ps = match pollutant_list(sub) {
        Ok(v) => v,
        Err(e) => {
            return Err(e);
        },
    };
    Ok(Index::new(date, None, ps, index, Some(String::from_str(insee))))
}

/// Decodes one city element of the city-index array.
fn decode_city(item: &JsonNode, today: CivilDate) -> (r: Result<Vec<Index>, RParifError>)
    requires
        today.interior(),
    ensures
        match r {
            Ok(v) => spec_decode_city(item.model(), today) == Ok::<Seq<IndexModel>, ErrModel>(
                v.deep_view(),
            ),
            Err(e) => spec_decode_city(item.model(), today) == Err::<Seq<IndexModel>, ErrModel>(
                e.model(),
            ),
        },
{
    match item {
        JsonNode::Object(entries) => {
            proof {
                lemma_entry_models(entries@, 0);
            }
            let ghost ms = entry_models(entries@, 0);
            let insee = match get_string_value("ninsee", item) {
                Ok(s) => s,
                Err(e) => {
                    return Err(e);
                },
            };
            let mut result: Vec<Index> = Vec::new();
            let mut i: usize = 0;
            while i < entries.len()
                invariant
                    today.interior(),
                    i <= entries@.len(),
                    item.model() == JsonModel::Object(ms),
                    spec_get_string(item.model(), "ninsee"@) == Ok::<Seq<char>, ErrModel>(insee@),
                    ms == entry_models(entries@, 0),
                    ms.len() == entries@.len(),
                    forall|j: int|
                        0 <= j < entries@.len() ==> #[trigger] ms[j] == (
                        entries@[j].0@,
                        entries@[j].1.model(),
                        ),
                    spec_decode_city_from(ms, insee@, today, 0) == (match spec_decode_city_from(
                        ms,
                        insee@,
                        today,
                        i as int,
                    ) {
                        Ok(rest) => Ok::<Seq<IndexModel>, ErrModel>(result.deep_view() + rest),
                        Err(e) => Err::<Seq<IndexModel>, ErrModel>(e),
                    }),
                decreases entries@.len() - i,
            {
                if str_eq(entries[i].0.as_str(), "ninsee") {
                    proof {
                        assert(spec_decode_city_from(ms, insee@, today, i as int)
                            == spec_decode_city_from(ms, insee@, today, i as int + 1));
                    }
                } else {
                    let ghost prev = result.deep_view();
                    match decode_measurement_c(&entries[i].0, &entries[i].1, insee, today) {
                        Err(e) => {
                            proof {
                                assert(spec_decode_city_from(ms, insee@, today, i as int) == Err::<
                                    Seq<IndexModel>,
                                    ErrModel,
                                >(e.model()));
                            }
                            return Err(e);
                        },
                        Ok(x) => {
                            let ghost xm = x.deep_view();
                            result.push(x);
                            proof {
                                assert(result.deep_view() =~= prev.push(xm));
                                assert(spec_decode_city_from(ms, insee@, today, 0) == (
                                match spec_decode_city_from(ms, insee@, today, i as int + 1) {
                                    Ok(rest) => Ok::<Seq<IndexModel>, ErrModel>(
                                        result.deep_view() + rest,
                                    ),
                                    Err(e) => Err::<Seq<IndexModel>, ErrModel>(e),
                                })) by {
                                    match spec_decode_city_from(ms, insee@, today, i as int + 1) {
                                        Ok(rest) => {
                                            assert(prev.push(xm) + rest =~= prev + (
                                            seq![xm] + rest));
                                        },
                                        Err(_) => {},
                                    }
                                }
                            }
                        },
                    }
                }
                i = i + 1;
            }
            proof {
                assert(result.deep_view() + Seq::<IndexModel>::empty() =~= result.deep_view());
            }
            Ok(result)
        },
        _ => Err(
            RParifError::MissingJsonKey { key: String::from_str("ninsee"), json: item.dump() },
        ),
    }
}

/// Decodes the city-index response: one reading per city and relative day,
/// carrying that city's INSEE code.
pub fn idxville_to_index(json: &JsonNode, today: CivilDate) -> (r: Result<Vec<Index>, RParifError>)
    requires
        today.interior(),
    ensures
        match r {
            Ok(v) => spec_idxville_to_index(json.model(), today) == Ok::<Seq<IndexModel>, ErrModel>(
                v.deep_view(),
            ),
            Err(e) => spec_idxville_to_index(json.model(), today) == Err::<
                Seq<IndexModel>,
                ErrModel,
            >(e.model()),
        },
{
    match json {
        JsonNode::Array(items) => {
            proof {
                lemma_item_models(items@, 0);
            }
            let ghost ms = item_models(items@, 0);
            let mut result: Vec<Index> = Vec::new();
            let mut i: usize = 0;
            while i < items.len()
                invariant
                    today.interior(),
                    i <= items@.len(),
                    json.model() == JsonModel::Array(ms),
                    ms == item_models(items@, 0),
                    ms.len() == items@.len(),
                    forall|j: int| 0 <= j < items@.len() ==> #[trigger] ms[j] == items@[j].model(),
                    spec_decode_c_from(ms, today, 0) == (match spec_decode_c_from(
                        ms,
                        today,
                        i as int,
                    ) {
                        Ok(rest) => Ok::<Seq<IndexModel>, ErrModel>(result.deep_view() + rest),
                        Err(e) => Err::<Seq<IndexModel>, ErrModel>(e),
                    }),
                decreases items@.len() - i,
            {
                let ghost prev = result.deep_view();
                match decode_city(&items[i], today) {
                    Err(e) => {
                        proof {
                            assert(spec_decode_c_from(ms, today, i as int) == Err::<
                                Seq<IndexModel>,
                                ErrModel,
                            >(e.model()));
                        }
                        return Err(e);
                    },
                    Ok(mut part) => {
                        let ghost partdv = part.deep_view();
                        result.append(&mut part);
                        proof {
                            assert(result.deep_view() =~= prev + partdv);
                            assert(spec_decode_c_from(ms, today, 0) == (match spec_decode_c_from(
                                ms,
                                today,
                                i as int + 1,
                            ) {
                                Ok(rest) => Ok::<Seq<IndexModel>, ErrModel>(
                                    result.deep_view() + rest,
                                ),
                                Err(e) => Err::<Seq<IndexModel>, ErrModel>(e),
                            })) by {
                                match spec_decode_c_from(ms, today, i as int + 1) {
                                    Ok(rest) => {
                                        assert((prev + partdv) + rest =~= prev + (partdv + rest));
                                    },
                                    Err(_) => {},
                                }
                            }
                        }
                    },
                }
                i = i + 1;
            }
            proof {
                assert(result.deep_view() + Seq::<IndexModel>::empty() =~= result.deep_view());
            }
            Ok(result)
        },
        _ => Err(
            RParifError::WrongJsonType { expected: String::from_str("array"), json: json.dump() },
        ),
    }
}

/// The criteria named by the elements `items[i..]`: each element must be a
/// string naming a criterion.
pub open spec fn spec_criteria_items(items: Seq<JsonModel>, i: int) -> Result<
    Seq<Criteria>,
    ErrModel,
>
    decreases items.len() - i,
{
    if i < 0 || i >= items.len() {
        Ok(Seq::empty())
    } else {
        match items[i] {
            JsonModel::Text(s) => match spec_criteria_of(s) {
                None => Err(ErrModel::UnknownEnumValue(s)),
                Some(c) => match spec_criteria_items(items, i + 1) {
                    Ok(rest) => Ok(seq![c] + rest),
                    Err(e) => Err(e),
                },
            },
            other => Err(ErrModel::WrongJsonType { expected: "string"@, json: spec_dump(other) }),
        }
    }
}

/// The criteria list of one pollutant sub-object: the criteria named by the
/// `criteres` member when it is an array; an empty list when it is absent or
/// no array.
pub open spec fn spec_criteria_list(m: JsonModel) -> Result<Seq<Criteria>, ErrModel> {
    match m {
        JsonModel::Array(items) => spec_criteria_items(items, 0),
        _ => Ok(Seq::empty()),
    }
}

/// What decoding one pollutant member of an alert element yields: the
/// mandatory `type` and `niveau` strings must name an alert kind and a
/// severity; `criteres` optionally lists the thresholds.
pub open spec fn spec_pollutant_detail(key: Seq<char>, sub: JsonModel) -> Result<
    PollutantModel,
    ErrModel,
> {
    match spec_get_string(sub, "type"@) {
        Err(e) => Err(e),
        Ok(ts) => match spec_type_of(ts) {
            None => Err(ErrModel::UnknownEnumValue(ts)),
            Some(kind) => match spec_get_string(sub, "niveau"@) {
                Err(e) => Err(e),
                Ok(ls) => match spec_level_of(ls) {
                    None => Err(ErrModel::UnknownEnumValue(ls)),
                    Some(level) => match spec_criteria_list(m_member(sub, "criteres"@)) {
                        Err(e) => Err(e),
                        Ok(cs) => Ok(PollutantModel { pollutant: key, kind, level, criteria: cs }),
                    },
                },
            },
        },
    }
}

/// The advisory text of an alert element: the `detail` member when it is a
/// non-empty string; absent otherwise.
pub open spec fn spec_detail_of(m: JsonModel) -> Option<Seq<char>> {
    match m {
        JsonModel::Text(s) => if s.len() == 0 {
            None
        } else {
            Some(s)
        },
        _ => None,
    }
}

/// What decoding the members `es[i..]` of one alert element yields: the
/// details of the members other than `date` and `detail`, in order, or the
/// first error met.
pub open spec fn spec_decode_details_from(es: Seq<(Seq<char>, JsonModel)>, i: int) -> Result<
    Seq<PollutantModel>,
    ErrModel,
>
    decreases es.len() - i,
{
    if i < 0 || i >= es.len() {
        Ok(Seq::empty())
    } else if es[i].0 == "date"@ || es[i].0 == "detail"@ {
        spec_decode_details_from(es, i + 1)
    } else {
        match spec_pollutant_detail(es[i].0, es[i].1) {
            Err(e) => Err(e),
            Ok(p) => match spec_decode_details_from(es, i + 1) {
                Err(e) => Err(e),
                Ok(rest) => Ok(seq![p] + rest),
            },
        }
    }
}

/// What decoding one alert element yields: its `date` member must name a
/// relative day; `detail` carries the advisory when it is a non-empty
/// string; every other member is one pollutant's alert detail.
pub open spec fn spec_decode_episode(m: JsonModel, today: CivilDate) -> Result<
    EpisodeModel,
    ErrModel,
> {
    match spec_resolve_json(m_member(m, "date"@), today) {
        None => Err(ErrModel::UnexpectedDate(spec_dump(m_member(m, "date"@)))),
        Some(d) => {
            let detail = spec_detail_of(m_member(m, "detail"@));
            match m {
                JsonModel::Object(es) => match spec_decode_details_from(es, 0) {
                    Err(e) => Err(e),
                    Ok(ps) => Ok(EpisodeModel { date: d, detail, pollutants: ps }),
                },
                _ => Ok(EpisodeModel { date: d, detail, pollutants: Seq::empty() }),
            }
        },
    }
}

/// What decoding the alert elements `items[i..]` yields: one alert per
/// element, in order, or the first error met.
pub open spec fn spec_decode_d_from(items: Seq<JsonModel>, today: CivilDate, i: int) -> Result<
    Seq<EpisodeModel>,
    ErrModel,
>
    decreases items.len() - i,
{
    if i < 0 || i >= items.len() {
        Ok(Seq::empty())
    } else {
        match spec_decode_episode(items[i], today) {
            Err(e) => Err(e),
            Ok(x) => match spec_decode_d_from(items, today, i + 1) {
                Err(e) => Err(e),
                Ok(rest) => Ok(seq![x] + rest),
            },
        }
    }
}

/// What the alert decoder yields: the input must be an array of alert
/// elements.
pub open spec fn spec_episode_to_episode(m: JsonModel, today: CivilDate) -> Result<
    Seq<EpisodeModel>,
    ErrModel,
> {
    match m {
        JsonModel::Array(items) => spec_decode_d_from(items, today, 0),
        _ => Err(ErrModel::WrongJsonType { expected: "array"@, json: spec_dump(m) }),
    }
}

/// Reads the optional `criteres` member of a pollutant sub-object.
fn criteria_list(sub: &JsonNode) -> (r: Result<Vec<Criteria>, RParifError>)
    ensures
        match r {
            Ok(v) => spec_criteria_list(m_member(sub.model(), "criteres"@)) == Ok::<
                Seq<Criteria>,
                ErrModel,
            >(v.deep_view()),
            Err(e) => spec_criteria_list(m_member(sub.model(), "criteres"@)) == Err::<
                Seq<Criteria>,
                ErrModel,
            >(e.model()),
        },
{
    let null_node = JsonNode::Null;
    let cnode = match sub.get("criteres") {
        Some(n) => n,
        None => {
            proof {
                lemma_member_absent(sub.model(), "criteres"@);
            }
            &null_node
        },
    };
    match cnode {
        JsonNode::Array(items) => {
            proof {
                lemma_item_models(items@, 0);
            }
            let ghost ms = item_models(items@, 0);
            let mut out: Vec<Criteria> = Vec::new();
            let mut i: usize = 0;
            while i < items.len()
                invariant
                    i <= items@.len(),
                    cnode.model() == JsonModel::Array(ms),
                    cnode.model() == m_member(sub.model(), "criteres"@),
                    ms == item_models(items@, 0),
                    ms.len() == items@.len(),
                    forall|j: int| 0 <= j < items@.len() ==> #[trigger] ms[j] == items@[j].model(),
                    spec_criteria_items(ms, 0) == (match spec_criteria_items(ms, i as int) {
                        Ok(rest) => Ok::<Seq<Criteria>, ErrModel>(out.deep_view() + rest),
                        Err(e) => Err::<Seq<Criteria>, ErrModel>(e),
                    }),
                decreases items@.len() - i,
            {
                let ghost prev = out.deep_view();
                match &items[i] {
                    JsonNode::Text(s) => {
                        match Criteria::from_str(s.as_str()) {
                            Ok(c) => {
                                out.push(c);
                                proof {
                                    assert(out.deep_view() =~= prev.push(c));
                                    assert(spec_criteria_items(ms, 0) == (
                                    match spec_criteria_items(ms, i as int + 1) {
                                        Ok(rest) => Ok::<Seq<Criteria>, ErrModel>(
                                            out.deep_view() + rest,
                                        ),
                                        Err(e) => Err::<Seq<Criteria>, ErrModel>(e),
                                    })) by {
                                        match spec_criteria_items(ms, i as int + 1) {
                                            Ok(rest) => {
                                                assert(prev.push(c) + rest =~= prev + (
                                                seq![c] + rest));
                                            },
                                            Err(_) => {},
                                        }
                                    }
                                }
                            },
                            Err(e) => {
                                proof {
                                    assert(spec_criteria_items(ms, i as int) == Err::<
                                        Seq<Criteria>,
                                        ErrModel,
                                    >(e.model()));
                                }
                                return Err(e);
                            },
                        }
                    },
                    other => {
                        let e = RParifError::WrongJsonType {
                            expected: String::from_str("string"),
                            json: other.dump(),
                        };
                        proof {
                            assert(spec_criteria_items(ms, i as int) == Err::<
                                Seq<Criteria>,
                                ErrModel,
                            >(e.model()));
                        }
                        return Err(e);
                    },
                }
                i = i + 1;
            }
            proof {
                assert(out.deep_view() + Seq::<Criteria>::empty() =~= out.deep_view());
            }
            Ok(out)
        },
        _ => {
            let out: Vec<Criteria> = Vec::new();
            proof {
                assert(out.deep_view() =~= Seq::<Criteria>::empty());
            }
            Ok(out)
        },
    }
}

/// Decodes the kind, severity and criteria of one pollutant member of an
/// alert element.
fn decode_pollutant_parts(key: &String, sub: &JsonNode) -> (r: Result<
    (Type, Level, Vec<Criteria>),
    RParifError,
>)
    ensures
        match r {
            Ok(parts) => spec_pollutant_detail(key@, sub.model()) == Ok::<
                PollutantModel,
                ErrModel,
            >(
                PollutantModel {
                    pollutant: key@,
                    kind: parts.0,
                    level: parts.1,
                    criteria: parts.2.deep_view(),
                },
            ),
            Err(e) => spec_pollutant_detail(key@, sub.model()) == Err::<PollutantModel, ErrModel>(
                e.model(),
            ),
        },
{
    let ts = match get_string_value("type", sub) {
        Ok(s) => s,
        Err(e) => {
            return Err(e);
        },
    };
    let kind = match Type::from_str(ts) {
        Ok(k) => k,
        Err(e) => {
            return Err(e);
        },
    };
    let ls = match get_string_value("niveau", sub) {
        Ok(s) => s,
        Err(e) => {
            return Err(e);
        },
    };
    let level = match Level::from_str(ls) {
        Ok(l) => l,
        Err(e) => {
            return Err(e);
        },
    };
    let criteria = match criteria_list(sub) {
        Ok(v) => v,
        Err(e) => {
            return Err(e);
        },
    };
    Ok((kind, level, criteria))
}

/// Decodes one alert element of the episode array.
fn decode_episode(item: &JsonNode, today: CivilDate) -> (r: Result<Episode, RParifError>)
    requires
        today.interior(),
    ensures
        match r {
            Ok(x) => spec_decode_episode(item.model(), today) == Ok::<EpisodeModel, ErrModel>(
                x.deep_view(),
            ),
            Err(e) => spec_decode_episode(item.model(), today) == Err::<EpisodeModel, ErrModel>(
                e.model(),
            ),
        },
{
    let null_node = JsonNode::Null;
    let date_value = match item.get("date") {
        Some(n) => n,
        None => {
            proof {
                lemma_member_absent(item.model(), "date"@);
            }
            &null_node
        },
    };
    let date = match convert_json_to_date(date_value, today) {
        Ok(d) => d,
        Err(e) => {
            return Err(e);
        },
    };
    let ghost detailv = spec_detail_of(m_member(item.model(), "detail"@));
    let detail: Option<String> = match item.get("detail") {
        Some(n) => match n {
            JsonNode::Text(s) => {
                if s.as_str().is_empty() {
                    None
                } else {
                    Some(s.clone())
                }
            },
            _ => None,
        },
        None => {
            proof {
                lemma_member_absent(item.model(), "detail"@);
            }
            None
        },
    };
    let mut episode = Episode::new(date, detail);
    match item {
        JsonNode::Object(entries) => {
            proof {
                lemma_entry_models(entries@, 0);
            }
            let ghost ms = entry_models(entries@, 0);
            let mut i: usize = 0;
            while i < entries.len()
                invariant
                    i <= entries@.len(),
                    item.model() == JsonModel::Object(ms),
                    spec_resolve_json(m_member(item.model(), "date"@), today) == Some(date),
                    detailv == spec_detail_of(m_member(item.model(), "detail"@)),
                    ms == entry_models(entries@, 0),
                    ms.len() == entries@.len(),
                    forall|j: int|
                        0 <= j < entries@.len() ==> #[trigger] ms[j] == (
                        entries@[j].0@,
                        entries@[j].1.model(),
                        ),
                    episode.deep_view().date == date,
                    episode.deep_view().detail == detailv,
                    spec_decode_details_from(ms, 0) == (match spec_decode_details_from(
                        ms,
                        i as int,
                    ) {
                        Ok(rest) => Ok::<Seq<PollutantModel>, ErrModel>(
                            episode.deep_view().pollutants + rest,
                        ),
                        Err(e) => Err::<Seq<PollutantModel>, ErrModel>(e),
                    }),
                decreases entries@.len() - i,
            {
                if str_eq(entries[i].0.as_str(), "date") || str_eq(entries[i].0.as_str(), "detail") {
                    proof {
                        assert(spec_decode_details_from(ms, i as int) == spec_decode_details_from(
                            ms,
                            i as int + 1,
                        ));
                    }
                } else {
                    let ghost prev = episode.deep_view().pollutants;
                    match decode_pollutant_parts(&entries[i].0, &entries[i].1) {
                        Err(e) => {
                            proof {
                                assert(spec_decode_details_from(ms, i as int) == Err::<
                                    Seq<PollutantModel>,
                                    ErrModel,
                                >(e.model()));
                            }
                            return Err(e);
                        },
                        Ok((kind, level, criteria)) => {
                            let ghost pm = PollutantModel {
                                pollutant: entries@[i as int].0@,
                                kind,
                                level,
                                criteria: criteria.deep_view(),
                            };
                            episode.add(entries[i].0.clone(), kind, level, criteria);
                            proof {
                                assert(episode.deep_view().pollutants =~= prev.push(pm));
                                assert(spec_decode_details_from(ms, 0) == (
                                match spec_decode_details_from(ms, i as int + 1) {
                                    Ok(rest) => Ok::<Seq<PollutantModel>, ErrModel>(
                                        episode.deep_view().pollutants + rest,
                                    ),
                                    Err(e) => Err::<Seq<PollutantModel>, ErrModel>(e),
                                })) by {
                                    match spec_decode_details_from(ms, i as int + 1) {
                                        Ok(rest) => {
                                            assert(prev.push(pm) + rest =~= prev + (
                                            seq![pm] + rest));
                                        },
                                        Err(_) => {},
                                    }
                                }
                            }
                        },
                    }
                }
                i = i + 1;
            }
            proof {
                assert(episode.deep_view().pollutants + Seq::<PollutantModel>::empty()
                    =~= episode.deep_view().pollutants);
                assert(spec_decode_episode(item.model(), today) == Ok::<EpisodeModel, ErrModel>(
                    episode.deep_view(),
                ));
            }
            Ok(episode)
        },
        _ => Ok(episode),
    }
}

/// Decodes the episode response: one alert per array element, its pollutant
/// details in the order the members stand in the source.
pub fn episode_to_episode(json: &JsonNode, today: CivilDate) -> (r: Result<
    Vec<Episode>,
    RParifError,
>)
    requires
        today.interior(),
    ensures
        match r {
            Ok(v) => spec_episode_to_episode(json.model(), today) == Ok::<
                Seq<EpisodeModel>,
                ErrModel,
            >(v.deep_view()),
            Err(e) => spec_episode_to_episode(json.model(), today) == Err::<
                Seq<EpisodeModel>,
                ErrModel,
            >(e.model()),
        },
{
    match json {
        JsonNode::Array(items) => {
            proof {
                lemma_item_models(items@, 0);
            }
            let ghost ms = item_models(items@, 0);
            let mut result: Vec<Episode> = Vec::new();
            let mut i: usize = 0;
            while i < items.len()
                invariant
                    today.interior(),
                    i <= items@.len(),
                    json.model() == JsonModel::Array(ms),
                    ms == item_models(items@, 0),
                    ms.len() == items@.len(),
                    forall|j: int| 0 <= j < items@.len() ==> #[trigger] ms[j] == items@[j].model(),
                    spec_decode_d_from(ms, today, 0) == (match spec_decode_d_from(
                        ms,
                        today,
                        i as int,
                    ) {
                        Ok(rest) => Ok::<Seq<EpisodeModel>, ErrModel>(result.deep_view() + rest),
                        Err(e) => Err::<Seq<EpisodeModel>, ErrModel>(e),
                    }),
                decreases items@.len() - i,
            {
                let ghost prev = result.deep_view();
                match decode_episode(&items[i], today) {
                    Err(e) => {
                        proof {
                            assert(spec_decode_d_from(ms, today, i as int) == Err::<
                                Seq<EpisodeModel>,
                                ErrModel,
                            >(e.model()));
                        }
                        return Err(e);
                    },
                    Ok(x) => {
                        let ghost xm = x.deep_view();
                        result.push(x);
                        proof {
                            assert(result.deep_view() =~= prev.push(xm));
                            assert(spec_decode_d_from(ms, today, 0) == (match spec_decode_d_from(
                                ms,
                                today,
                                i as int + 1,
                            ) {
                                Ok(rest) => Ok::<Seq<EpisodeModel>, ErrModel>(
                                    result.deep_view() + rest,
                                ),
                                Err(e) => Err::<Seq<EpisodeModel>, ErrModel>(e),
                            })) by {
                                match spec_decode_d_from(ms, today, i as int + 1) {
                                    Ok(rest) => {
                                        assert(prev.push(xm) + rest =~= prev + (seq![xm] + rest));
                                    },
                                    Err(_) => {},
                                }
                            }
                        }
                    },
                }
                i = i + 1;
            }
            proof {
                assert(result.deep_view() + Seq::<EpisodeModel>::empty() =~= result.deep_view());
            }
            Ok(result)
        },
        _ => Err(
            RParifError::WrongJsonType { expected: String::from_str("array"), json: json.dump() },
        ),
    }
}

/// The comma-joined writing of `parts[i..]`.
pub open spec fn spec_join_from(parts: Seq<Seq<char>>, i: int) -> Seq<char>
    decreases parts.len() - i,
{
    if i < 0 || i >= parts.len() {
        Seq::empty()
    } else if i == parts.len() - 1 {
        parts[i]
    } else {
        parts[i] + seq![','] + spec_join_from(parts, i + 1)
    }
}

fn join_cities_from(cities: &Vec<&str>, i: usize, out: &mut String)
    requires
        i <= cities@.len(),
    ensures
        final(out)@ == old(out)@ + spec_join_from(cities.deep_view(), i as int),
    decreases cities@.len() - i,
{
    if i < cities.len() {
        out.append(cities[i]);
        if i + 1 < cities.len() {
            push_char(out, ',');
            join_cities_from(cities, i + 1, out);
        }
        proof {
            assert(out@ =~= old(out)@ + spec_join_from(cities.deep_view(), i as int));
        }
    }
}

/// Joins city INSEE codes with commas, the way the `villes` query parameter
/// carries them.
pub fn join_cities(cities: &Vec<&str>) -> (r: String)
    ensures
        r@ == spec_join_from(cities.deep_view(), 0),
{
    let mut out = String::new();
    join_cities_from(cities, 0, &mut out);
    out
}

proof fn lemma_decode_a_from_nonempty(items: Seq<JsonModel>, today: CivilDate, i: int)
    ensures
        spec_decode_a_from(items, today, i) matches Ok(rs) ==> forall|k: int|
            0 <= k < rs.len() ==> #[trigger] rs[k].pollutants.len() > 0,
    decreases items.len() - i,
{
    if 0 <= i < items.len() {
        lemma_decode_a_from_nonempty(items, today, i + 1);
    }
}

/// Every reading the global-index decoder yields aggregates at least one
/// pollutant: the sentinel `global`.
pub proof fn lemma_index_to_index_pollutants_nonempty(
    m: JsonModel,
    today: CivilDate,
    rs: Seq<IndexModel>,
)
    requires
        spec_index_to_index(m, today) == Ok::<Seq<IndexModel>, ErrModel>(rs),
    ensures
        forall|k: int| 0 <= k < rs.len() ==> #[trigger] rs[k].pollutants.len() > 0,
{
    match m {
        JsonModel::Array(items) => lemma_decode_a_from_nonempty(items, today, 0),
        _ => {},
    }
}

proof fn lemma_decode_b_from_nonempty(es: Seq<(Seq<char>, JsonModel)>, date: CivilDate, i: int)
    ensures
        spec_decode_b_from(es, date, i) matches Ok(rs) ==> forall|k: int|
            0 <= k < rs.len() ==> #[trigger] rs[k].pollutants.len() > 0,
    decreases es.len() - i,
{
    if 0 <= i < es.len() {
        lemma_decode_b_from_nonempty(es, date, i + 1);
    }
}

/// Every reading the day-index decoder yields aggregates at least one
/// pollutant: the one its object key names.
pub proof fn lemma_index_day_to_index_pollutants_nonempty(m: JsonModel, rs: Seq<IndexModel>)
    requires
        spec_index_day_to_index(m) == Ok::<Seq<IndexModel>, ErrModel>(rs),
    ensures
        forall|k: int| 0 <= k < rs.len() ==> #[trigger] rs[k].pollutants.len() > 0,
{
    match m {
        JsonModel::Object(es) => {
            match spec_get_string(m, "date"@) {
                Ok(ds) => match ddmmyyyy_of(ds) {
                    Ok(d) => lemma_decode_b_from_nonempty(es, d, 0),
                    Err(_) => {},
                },
                Err(_) => {},
            }
        },
        _ => {},
    }
}

proof fn lemma_decode_city_from_scoped(
    es: Seq<(Seq<char>, JsonModel)>,
    insee: Seq<char>,
    today: CivilDate,
    i: int,
)
    ensures
        spec_decode_city_from(es, insee, today, i) matches Ok(rs) ==> forall|k: int|
            0 <= k < rs.len() ==> #[trigger] rs[k].insee == Some(insee) && rs[k].url is None,
    decreases es.len() - i,
{
    if 0 <= i < es.len() {
        lemma_decode_city_from_scoped(es, insee, today, i + 1);
    }
}

proof fn lemma_decode_c_from_scoped(items: Seq<JsonModel>, today: CivilDate, i: int)
    ensures
        spec_decode_c_from(items, today, i) matches Ok(rs) ==> forall|k: int|
            0 <= k < rs.len() ==> #[trigger] rs[k].insee is Some && rs[k].url is None,
    decreases items.len() - i,
{
    if 0 <= i < items.len() {
        lemma_decode_c_from_scoped(items, today, i + 1);
        match items[i] {
            JsonModel::Object(es) => {
                match spec_get_string(items[i], "ninsee"@) {
                    Ok(insee) => lemma_decode_city_from_scoped(es, insee, today, 0),
                    Err(_) => {},
                }
            },
            _ => {},
        }
    }
}

/// Every reading the city-index decoder yields is scoped to a city and
/// carries no map link.
pub proof fn lemma_idxville_to_index_city_scoped(
    m: JsonModel,
    today: CivilDate,
    rs: Seq<IndexModel>,
)
    requires
        spec_idxville_to_index(m, today) == Ok::<Seq<IndexModel>, ErrModel>(rs),
    ensures
        forall|k: int| 0 <= k < rs.len() ==> #[trigger] rs[k].insee is Some && rs[k].url is None,
{
    match m {
        JsonModel::Array(items) => lemma_decode_c_from_scoped(items, today, 0),
        _ => {},
    }
}

/// Re-decoding the same global-index response with the same current date
/// yields value-equal results: the decoder's outcome is a function of the
/// JSON tree and the date alone.
pub proof fn lemma_index_to_index_deterministic(
    m1: JsonModel,
    m2: JsonModel,
    today: CivilDate,
    r1: Result<Seq<IndexModel>, ErrModel>,
    r2: Result<Seq<IndexModel>, ErrModel>,
)
    requires
        m1 == m2,
        r1 == spec_index_to_index(m1, today),
        r2 == spec_index_to_index(m2, today),
    ensures
        r1 == r2,
{
}

/// Re-decoding the same day-index response yields value-equal results: the
/// decoder's outcome is a function of the JSON tree alone.
pub proof fn lemma_index_day_to_index_deterministic(
    m1: JsonModel,
    m2: JsonModel,
    r1: Result<Seq<IndexModel>, ErrModel>,
    r2: Result<Seq<IndexModel>, ErrModel>,
)
    requires
        m1 == m2,
        r1 == spec_index_day_to_index(m1),
        r2 == spec_index_day_to_index(m2),
    ensures
        r1 == r2,
{
}

/// Re-decoding the same city-index response with the same current date
/// yields value-equal results.
pub proof fn lemma_idxville_to_index_deterministic(
    m1: JsonModel,
    m2: JsonModel,
    today: CivilDate,
    r1: Result<Seq<IndexModel>, ErrModel>,
    r2: Result<Seq<IndexModel>, ErrModel>,
)
    requires
        m1 == m2,
        r1 == spec_idxville_to_index(m1, today),
        r2 == spec_idxville_to_index(m2, today),
    ensures
        r1 == r2,
{
}

/// Re-decoding the same episode response with the same current date yields
/// value-equal results.
pub proof fn lemma_episode_to_episode_deterministic(
    m1: JsonModel,
    m2: JsonModel,
    today: CivilDate,
    r1: Result<Seq<EpisodeModel>, ErrModel>,
    r2: Result<Seq<EpisodeModel>, ErrModel>,
)
    requires
        m1 == m2,
        r1 == spec_episode_to_episode(m1, today),
        r2 == spec_episode_to_episode(m2, today),
    ensures
        r1 == r2,
{
}

} // verus!
