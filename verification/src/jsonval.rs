//! The generic JSON tree the decoders walk, its mathematical model, and a
//! compact serializer used for error diagnostics.
//!
//! Object members are kept in source order, since the decoders treat member
//! keys as data (pollutant names, relative-day tokens) and the records they
//! build must preserve the order of encounter.

use crate::strutil::{push_char, push_u32_dec, spec_u32_dec, str_eq};
use vstd::prelude::*;

verus! {

/// A JSON document. A number is the truncated non-negative integer value the
/// service delivers; object members are key-value pairs in source order.
#[derive(PartialEq, Debug)]
pub enum JsonNode {
    Null,
    Boolean(bool),
    Number(u32),
    Text(String),
    Array(Vec<JsonNode>),
    Object(Vec<(String, JsonNode)>),
}

/// The mathematical shape of a `JsonNode`: the same tree over sequences.
pub ghost enum JsonModel {
    Null,
    Boolean(bool),
    Number(u32),
    Text(Seq<char>),
    Array(Seq<JsonModel>),
    Object(Seq<(Seq<char>, JsonModel)>),
}

impl JsonNode {
    /// The model of this tree.
    pub open spec fn model(self) -> JsonModel
        decreases self, 0int,
    {
        match self {
            JsonNode::Null => JsonModel::Null,
            JsonNode::Boolean(b) => JsonModel::Boolean(b),
            JsonNode::Number(n) => JsonModel::Number(n),
            JsonNode::Text(s) => JsonModel::Text(s@),
            JsonNode::Array(items) => JsonModel::Array(item_models(items@, 0)),
            JsonNode::Object(entries) => JsonModel::Object(entry_models(entries@, 0)),
        }
    }
}

/// The models of the elements `items[i..]`.
pub open spec fn item_models(items: Seq<JsonNode>, i: int) -> Seq<JsonModel>
    decreases items, items.len() - i,
{
    if i < 0 || i >= items.len() {
        Seq::empty()
    } else {
        seq![items[i].model()] + item_models(items, i + 1)
    }
}

/// The models of the members `entries[i..]`.
pub open spec fn entry_models(entries: Seq<(String, JsonNode)>, i: int) -> Seq<
    (Seq<char>, JsonModel),
>
    decreases entries, entries.len() - i,
{
    if i < 0 || i >= entries.len() {
        Seq::empty()
    } else {
        seq![(entries[i].0@, entries[i].1.model())] + entry_models(entries, i + 1)
    }
}

/// `item_models(items, i)` lists the models of `items[i..]`, element by
/// element.
pub proof fn lemma_item_models(items: Seq<JsonNode>, i: int)
    requires
        0 <= i <= items.len(),
    ensures
        item_models(items, i).len() == items.len() - i,
        forall|j: int|
            0 <= j < items.len() - i ==> #[trigger] item_models(items, i)[j] == items[i
                + j].model(),
    decreases items.len() - i,
{
    if i < items.len() {
        lemma_item_models(items, i + 1);
    }
}

/// `entry_models(entries, i)` lists the key views and value models of
/// `entries[i..]`, member by member.
pub proof fn lemma_entry_models(entries: Seq<(String, JsonNode)>, i: int)
    requires
        0 <= i <= entries.len(),
    ensures
        entry_models(entries, i).len() == entries.len() - i,
        forall|j: int|
            0 <= j < entries.len() - i ==> #[trigger] entry_models(entries, i)[j] == (entries[i
                + j].0@, entries[i + j].1.model()),
    decreases entries.len() - i,
{
    if i < entries.len() {
        lemma_entry_models(entries, i + 1);
    }
}

/// Whether some entry of `es` has key `k`.
pub open spec fn entries_have_key(es: Seq<(Seq<char>, JsonModel)>, k: Seq<char>) -> bool
    decreases es.len(),
{
    if es.len() == 0 {
        false
    } else if es[0].0 == k {
        true
    } else {
        entries_have_key(es.drop_first(), k)
    }
}

/// The value of the first entry of `es` with key `k`; `Null` if there is none.
pub open spec fn entries_lookup(es: Seq<(Seq<char>, JsonModel)>, k: Seq<char>) -> JsonModel
    decreases es.len(),
{
    if es.len() == 0 {
        JsonModel::Null
    } else if es[0].0 == k {
        es[0].1
    } else {
        entries_lookup(es.drop_first(), k)
    }
}

/// Looking up a key that no entry has yields `Null`.
pub proof fn lemma_lookup_absent(es: Seq<(Seq<char>, JsonModel)>, k: Seq<char>)
    requires
        !entries_have_key(es, k),
    ensures
        entries_lookup(es, k) == JsonModel::Null,
    decreases es.len(),
{
    if es.len() > 0 {
        lemma_lookup_absent(es.drop_first(), k);
    }
}

/// Whether `m` is an object with a member named `k`.
pub open spec fn m_has_key(m: JsonModel, k: Seq<char>) -> bool {
    match m {
        JsonModel::Object(es) => entries_have_key(es, k),
        _ => false,
    }
}

/// The member named `k` of the object `m`; `Null` when `m` is no object or
/// has no such member.
pub open spec fn m_member(m: JsonModel, k: Seq<char>) -> JsonModel {
    match m {
        JsonModel::Object(es) => entries_lookup(es, k),
        _ => JsonModel::Null,
    }
}

/// A member that `m` does not have reads as `Null`.
pub proof fn lemma_member_absent(m: JsonModel, k: Seq<char>)
    requires
        !m_has_key(m, k),
    ensures
        m_member(m, k) == JsonModel::Null,
{
    match m {
        JsonModel::Object(es) => lemma_lookup_absent(es, k),
        _ => {},
    }
}

impl JsonNode {
    /// The member named `key`, if this tree is an object that has one.
    pub fn get<'a>(&'a self, key: &str) -> (r: Option<&'a JsonNode>)
        ensures
            match r {
                Some(n) => m_has_key(self.model(), key@) && n.model() == m_member(
                    self.model(),
                    key@,
                ),
                None => !m_has_key(self.model(), key@),
            },
    {
        match self {
            JsonNode::Object(entries) => get_entry(entries, key, 0),
            _ => None,
        }
    }

    /// Whether this tree is an object with a member named `key`.
    pub fn has_key(&self, key: &str) -> (r: bool)
        ensures
            r == m_has_key(self.model(), key@),
    {
        match self.get(key) {
            Some(_) => true,
            None => false,
        }
    }
}

fn get_entry<'a>(entries: &'a Vec<(String, JsonNode)>, key: &str, i: usize) -> (r: Option<
    &'a JsonNode,
>)
    requires
        i <= entries@.len(),
    ensures
        match r {
            Some(n) => entries_have_key(entry_models(entries@, i as int), key@) && n.model()
                == entries_lookup(entry_models(entries@, i as int), key@),
            None => !entries_have_key(entry_models(entries@, i as int), key@),
        },
    decreases entries@.len() - i,
{
    let ghost tail = entry_models(entries@, i as int);
    if i == entries.len() {
        None
    } else {
        proof {
            assert(tail[0] == (entries@[i as int].0@, entries@[i as int].1.model()));
            assert(tail.drop_first() =~= entry_models(entries@, i as int + 1));
        }
        if str_eq(entries[i].0.as_str(), key) {
            Some(&entries[i].1)
        } else {
            get_entry(entries, key, i + 1)
        }
    }
}

/// The hexadecimal character for `d`, in lower case.
pub open spec fn spec_hex_char(d: int) -> char {
    if d < 10 {
        crate::strutil::spec_digit_char(d)
    } else if d == 10 {
        'a'
    } else if d == 11 {
        'b'
    } else if d == 12 {
        'c'
    } else if d == 13 {
        'd'
    } else if d == 14 {
        'e'
    } else {
        'f'
    }
}

/// How one character of a JSON string is written: the two-character escapes
/// of the quote, the backslash and the usual control characters, a
/// `\u00..` escape for the other control characters, and every other
/// character as itself.
pub open spec fn spec_escape_char(c: char) -> Seq<char> {
    let code = c as u32;
    if code == 34 {
        seq!['\\', '"']
    } else if code == 92 {
        seq!['\\', '\\']
    } else if code == 8 {
        seq!['\\', 'b']
    } else if code == 9 {
        seq!['\\', 't']
    } else if code == 10 {
        seq!['\\', 'n']
    } else if code == 12 {
        seq!['\\', 'f']
    } else if code == 13 {
        seq!['\\', 'r']
    } else if code < 32 {
        seq!['\\', 'u', '0', '0', spec_hex_char(code as int / 16), spec_hex_char(code as int % 16)]
    } else {
        seq![c]
    }
}

/// The escaped writing of `s[i..]`.
pub open spec fn spec_escape_from(s: Seq<char>, i: int) -> Seq<char>
    decreases s.len() - i,
{
    if i < 0 || i >= s.len() {
        Seq::empty()
    } else {
        spec_escape_char(s[i]) + spec_escape_from(s, i + 1)
    }
}

/// A string as JSON writes it: quoted and escaped.
pub open spec fn spec_quoted(s: Seq<char>) -> Seq<char> {
    seq!['"'] + spec_escape_from(s, 0) + seq!['"']
}

/// The compact JSON writing of `m`: no spaces, object members in order,
/// numbers in decimal.
pub open spec fn spec_dump(m: JsonModel) -> Seq<char>
    decreases m, 0int,
{
    match m {
        JsonModel::Null => "null"@,
        JsonModel::Boolean(b) => if b {
            "true"@
        } else {
            "false"@
        },
        JsonModel::Number(n) => spec_u32_dec(n as int),
        JsonModel::Text(s) => spec_quoted(s),
        JsonModel::Array(items) => seq!['['] + spec_dump_items(items, 0) + seq![']'],
        JsonModel::Object(es) => seq!['{'] + spec_dump_entries(es, 0) + seq!['}'],
    }
}

/// The comma-separated writings of `items[i..]`.
pub open spec fn spec_dump_items(items: Seq<JsonModel>, i: int) -> Seq<char>
    decreases items, items.len() - i,
{
    if i < 0 || i >= items.len() {
        Seq::empty()
    } else if i == items.len() - 1 {
        spec_dump(items[i])
    } else {
        spec_dump(items[i]) + seq![','] + spec_dump_items(items, i + 1)
    }
}

/// The writing of one object member: quoted key, colon, value.
pub open spec fn spec_dump_entry(e: (Seq<char>, JsonModel)) -> Seq<char>
    decreases e, 0int,
{
    spec_quoted(e.0) + seq![':'] + spec_dump(e.1)
}

/// The comma-separated writings of the members `es[i..]`.
pub open spec fn spec_dump_entries(es: Seq<(Seq<char>, JsonModel)>, i: int) -> Seq<char>
    decreases es, es.len() - i,
{
    if i < 0 || i >= es.len() {
        Seq::empty()
    } else if i == es.len() - 1 {
        spec_dump_entry(es[i])
    } else {
        spec_dump_entry(es[i]) + seq![','] + spec_dump_entries(es, i + 1)
    }
}

/// The hexadecimal character for `d`, in lower case.
fn hex_char(d: u32) -> (c: char)
    requires
        d < 16,
    ensures
        c == spec_hex_char(d as int),
{
    if d < 10 {
        crate::strutil::digit_char(d as u8)
    } else if d == 10 {
        'a'
    } else if d == 11 {
        'b'
    } else if d == 12 {
        'c'
    } else if d == 13 {
        'd'
    } else if d == 14 {
        'e'
    } else {
        'f'
    }
}

/// Appends the escaped writing of `c` to `out`.
fn push_escaped_char(out: &mut String, c: char)
    ensures
        final(out)@ == old(out)@ + spec_escape_char(c),
{
    let code = c as u32;
    if code == 34 {
        push_char(out, '\\');
        push_char(out, '"');
    } else if code == 92 {
        push_char(out, '\\');
        push_char(out, '\\');
    } else if code == 8 {
        push_char(out, '\\');
        push_char(out, 'b');
    } else if code == 9 {
        push_char(out, '\\');
        push_char(out, 't');
    } else if code == 10 {
        push_char(out, '\\');
        push_char(out, 'n');
    } else if code == 12 {
        push_char(out, '\\');
        push_char(out, 'f');
    } else if code == 13 {
        push_char(out, '\\');
        push_char(out, 'r');
    } else if code < 32 {
        push_char(out, '\\');
        push_char(out, 'u');
        push_char(out, '0');
        push_char(out, '0');
        push_char(out, hex_char(code / 16));
        push_char(out, hex_char(code % 16));
    } else {
        push_char(out, c);
    }
    proof {
        assert(out@ =~= old(out)@ + spec_escape_char(c));
    }
}

/// Appends the escaped writing of `s[i..]` to `out`.
fn push_escaped_from(out: &mut String, s: &str, i: usize)
    requires
        i <= s@.len(),
    ensures
        final(out)@ == old(out)@ + spec_escape_from(s@, i as int),
    decreases s@.len() - i,
{
    let n = s.unicode_len();
    if i < n {
        let c = s.get_char(i);
        push_escaped_char(out, c);
        push_escaped_from(out, s, i + 1);
        proof {
            assert(out@ =~= old(out)@ + spec_escape_from(s@, i as int));
        }
    }
}

/// Appends the quoted, escaped writing of `s` to `out`.
fn push_quoted(out: &mut String, s: &str)
    ensures
        final(out)@ == old(out)@ + spec_quoted(s@),
{
    push_char(out, '"');
    push_escaped_from(out, s, 0);
    push_char(out, '"');
    proof {
        assert(out@ =~= old(out)@ + spec_quoted(s@));
    }
}

/// Appends the compact JSON writing of `n` to `out`.
fn dump_into(n: &JsonNode, out: &mut String)
    ensures
        final(out)@ == old(out)@ + spec_dump(n.model()),
    decreases n, 0int,
{
    match n {
        JsonNode::Null => out.append("null"),
        JsonNode::Boolean(b) => {
            if *b {
                out.append("true")
            } else {
                out.append("false")
            }
        },
        JsonNode::Number(v) => push_u32_dec(out, *v),
        JsonNode::Text(s) => push_quoted(out, s.as_str()),
        JsonNode::Array(items) => {
            push_char(out, '[');
            dump_items_into(items, 0, out);
            push_char(out, ']');
            proof {
                assert(out@ =~= old(out)@ + spec_dump(n.model()));
            }
        },
        JsonNode::Object(entries) => {
            push_char(out, '{');
            dump_entries_into(entries, 0, out);
            push_char(out, '}');
            proof {
                assert(out@ =~= old(out)@ + spec_dump(n.model()));
            }
        },
    }
}

/// Appends the comma-separated writings of `items[i..]` to `out`.
fn dump_items_into(items: &Vec<JsonNode>, i: usize, out: &mut String)
    requires
        i <= items@.len(),
    ensures
        final(out)@ == old(out)@ + spec_dump_items(item_models(items@, 0), i as int),
    decreases items, items@.len() - i,
{
    let ghost ms = item_models(items@, 0);
    proof {
        lemma_item_models(items@, 0);
    }
    if i < items.len() {
        dump_into(&items[i], out);
        if i + 1 < items.len() {
            push_char(out, ',');
            dump_items_into(items, i + 1, out);
        }
        proof {
            assert(ms[i as int] == items@[i as int].model());
            assert(out@ =~= old(out)@ + spec_dump_items(ms, i as int));
        }
    }
}

/// Appends the comma-separated writings of the members `entries[i..]` to
/// `out`.
fn dump_entries_into(entries: &Vec<(String, JsonNode)>, i: usize, out: &mut String)
    requires
        i <= entries@.len(),
    ensures
        final(out)@ == old(out)@ + spec_dump_entries(entry_models(entries@, 0), i as int),
    decreases entries, entries@.len() - i,
{
    let ghost ms = entry_models(entries@, 0);
    proof {
        lemma_entry_models(entries@, 0);
    }
    if i < entries.len() {
        push_quoted(out, entries[i].0.as_str());
        push_char(out, ':');
        dump_into(&entries[i].1, out);
        if i + 1 < entries.len() {
            push_char(out, ',');
            dump_entries_into(entries, i + 1, out);
        }
        proof {
            assert(ms[i as int] == (entries@[i as int].0@, entries@[i as int].1.model()));
            assert(spec_dump_entry(ms[i as int]) =~= spec_quoted(entries@[i as int].0@)
                + seq![':'] + spec_dump(entries@[i as int].1.model()));
            assert(out@ =~= old(out)@ + spec_dump_entries(ms, i as int));
        }
    }
}

impl JsonNode {
    /// The compact JSON writing of this tree, as error diagnostics carry it.
    pub fn dump(&self) -> (r: String)
        ensures
            r@ == spec_dump(self.model()),
    {
        let mut out = String::new();
        dump_into(self, &mut out);
        out
    }
}

/// The display writing of `m`: the characters themselves for a string, the
/// compact JSON writing for everything else.
pub open spec fn spec_display(m: JsonModel) -> Seq<char> {
    match m {
        JsonModel::Text(s) => s,
        _ => spec_dump(m),
    }
}

/// The display writing of `n`.
pub fn display_string(n: &JsonNode) -> (r: String)
    ensures
        r@ == spec_display(n.model()),
{
    match n {
        JsonNode::Text(s) => s.clone(),
        _ => n.dump(),
    }
}

} // verus!
