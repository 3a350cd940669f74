//! JSON documents as plain values.

use vstd::prelude::*;
use vstd::string::*;
use crate::text::{opt_str_view, opt_string_view, str_eq};

verus! {

/// A JSON number: what it is as an unsigned 64-bit integer, where it is
/// one, and its text.
#[derive(Debug, PartialEq, Eq)]
pub struct JsonNumber {
    pub unsigned: Option<u64>,
    pub text: String,
}

/// One member of a JSON object.
#[derive(Debug, PartialEq, Eq)]
pub struct JsonMember {
    pub key: String,
    pub value: Json,
}

/// A JSON value. The members of an object are kept in the order in which
/// the document's reader hands them out.
#[derive(Debug, PartialEq, Eq)]
pub enum Json {
    Null,
    Bool(bool),
    Number(JsonNumber),
    String(String),
    Array(Vec<Json>),
    Object(Vec<JsonMember>),
}

/// The model of a [`JsonNumber`].
pub struct JsonNumberView {
    pub unsigned: Option<u64>,
    pub text: Seq<char>,
}

/// The model of a [`Json`] value.
pub enum JsonView {
    Null,
    Bool(bool),
    Number(JsonNumberView),
    String(Seq<char>),
    Array(Seq<JsonView>),
    Object(Seq<(Seq<char>, JsonView)>),
}

impl View for JsonNumber {
    type V = JsonNumberView;

    open spec fn view(&self) -> JsonNumberView {
        JsonNumberView { unsigned: self.unsigned, text: self.text@ }
    }
}

/// The models of a sequence of values, in order.
pub open spec fn items_view(items: Seq<Json>) -> Seq<JsonView>
    decreases items,
{
    if items.len() == 0 {
        Seq::empty()
    } else {
        items_view(items.drop_last()).push(json_view(items.last()))
    }
}

/// The models of a sequence of members, in order.
pub open spec fn members_view(members: Seq<JsonMember>) -> Seq<(Seq<char>, JsonView)>
    decreases members,
{
    if members.len() == 0 {
        Seq::empty()
    } else {
        members_view(members.drop_last()).push(
            (members.last().key@, json_view(members.last().value)),
        )
    }
}

/// The model of a value.
pub open spec fn json_view(json: Json) -> JsonView
    decreases json,
{
    match json {
        Json::Null => JsonView::Null,
        Json::Bool(b) => JsonView::Bool(b),
        Json::Number(n) => JsonView::Number(n@),
        Json::String(s) => JsonView::String(s@),
        Json::Array(items) => JsonView::Array(items_view(items@)),
        Json::Object(members) => JsonView::Object(members_view(members@)),
    }
}

impl View for Json {
    type V = JsonView;

    open spec fn view(&self) -> JsonView {
        json_view(*self)
    }
}

/// The value of the first member of `members` whose key is `key`.
pub open spec fn member_value(members: Seq<(Seq<char>, JsonView)>, key: Seq<char>) -> Option<
    JsonView,
>
    decreases members.len(),
{
    if members.len() == 0 {
        None
    } else if members[0].0 == key {
        Some(members[0].1)
    } else {
        member_value(members.drop_first(), key)
    }
}

impl JsonView {
    /// The member `key` of an object; nothing for any other value.
    pub open spec fn get(self, key: Seq<char>) -> Option<JsonView> {
        match self {
            JsonView::Object(members) => member_value(members, key),
            _ => None,
        }
    }

    /// The characters of a string; nothing for any other value.
    pub open spec fn as_str(self) -> Option<Seq<char>> {
        match self {
            JsonView::String(s) => Some(s),
            _ => None,
        }
    }

    /// A number that is an unsigned 64-bit integer; nothing for any other
    /// value.
    pub open spec fn as_u64(self) -> Option<u64> {
        match self {
            JsonView::Number(n) => n.unsigned,
            _ => None,
        }
    }

    /// A boolean; nothing for any other value.
    pub open spec fn as_bool(self) -> Option<bool> {
        match self {
            JsonView::Bool(b) => Some(b),
            _ => None,
        }
    }
}

/// The model of an optional value.
pub open spec fn opt_json_view(json: Option<&Json>) -> Option<JsonView> {
    match json {
        Some(j) => Some(j@),
        None => None,
    }
}

/// The items of a vector have their models at the same places.
pub proof fn lemma_items_view(items: Seq<Json>)
    ensures
        items_view(items).len() == items.len(),
        forall|i: int| 0 <= i < items.len() ==> #[trigger] items_view(items)[i] == items[i]@,
    decreases items,
{
    if items.len() > 0 {
        lemma_items_view(items.drop_last());
    }
}

/// The members of a vector have their keys and models at the same places.
pub proof fn lemma_members_view(members: Seq<JsonMember>)
    ensures
        members_view(members).len() == members.len(),
        forall|i: int|
            0 <= i < members.len() ==> #[trigger] members_view(members)[i] == (
                members[i].key@,
                members[i].value@,
            ),
    decreases members,
{
    if members.len() > 0 {
        lemma_members_view(members.drop_last());
    }
}

/// The value of the first of `members` whose key is `key`.
pub fn find_member<'a>(members: &'a Vec<JsonMember>, key: &str) -> (r: Option<&'a Json>)
    ensures
        opt_json_view(r) == member_value(members_view(members@), key@),
{
    let ghost all = members_view(members@);
    proof {
        lemma_members_view(members@);
        assert(all.skip(0) =~= all);
    }
    let mut i: usize = 0;
    while i < members.len()
        invariant
            i <= members.len(),
            all == members_view(members@),
            all.len() == members.len(),
            forall|k: int|
                0 <= k < members.len() ==> #[trigger] all[k] == (
                    members[k].key@,
                    members[k].value@,
                ),
            member_value(all, key@) == member_value(all.skip(i as int), key@),
        decreases members.len() - i,
    {
        let ghost rest = all.skip(i as int);
        assert(rest[0] == all[i as int]);
        assert(rest.drop_first() == all.skip(i + 1));
        if str_eq(members[i].key.as_str(), key) {
            assert(member_value(rest, key@) == Some(rest[0].1));
            return Some(&members[i].value);
        }
        i += 1;
    }
    assert(all.skip(i as int).len() == 0);
    None
}

impl Json {
    /// The member `key` of an object.
    pub fn get(&self, key: &str) -> (r: Option<&Json>)
        ensures
            opt_json_view(r) == self@.get(key@),
    {
        match self {
            Json::Object(members) => find_member(members, key),
            _ => None,
        }
    }

    /// The characters of a string.
    pub fn as_str(&self) -> (r: Option<&str>)
        ensures
            opt_str_view(r) == self@.as_str(),
    {
        match self {
            Json::String(s) => Some(s.as_str()),
            _ => None,
        }
    }

    /// The number as an unsigned 64-bit integer.
    pub fn as_u64(&self) -> (r: Option<u64>)
        ensures
            r == self@.as_u64(),
    {
        match self {
            Json::Number(n) => n.unsigned,
            _ => None,
        }
    }

    /// The boolean.
    pub fn as_bool(&self) -> (r: Option<bool>)
        ensures
            r == self@.as_bool(),
    {
        match self {
            Json::Bool(b) => Some(*b),
            _ => None,
        }
    }
}

/// A copy of a value.
pub fn clone_json(json: &Json) -> (r: Json)
    ensures
        r@ == json@,
    decreases json,
{
    match json {
        Json::Null => Json::Null,
        Json::Bool(b) => Json::Bool(*b),
        Json::Number(n) => Json::Number(JsonNumber { unsigned: n.unsigned, text: n.text.clone() }),
        Json::String(s) => Json::String(s.clone()),
        Json::Array(items) => {
            let out = clone_items(items);
            Json::Array(out)
        },
        Json::Object(members) => {
            let out = clone_members(members);
            Json::Object(out)
        },
    }
}

/// A copy of the items of an array.
pub fn clone_items(items: &Vec<Json>) -> (out: Vec<Json>)
    ensures
        items_view(out@) == items_view(items@),
    decreases items,
{
    let mut out: Vec<Json> = Vec::new();
    let mut i: usize = 0;
    while i < items.len()
        invariant
            i <= items.len(),
            out.len() == i,
            forall|k: int| 0 <= k < i ==> (#[trigger] out[k])@ == items[k]@,
        decreases items.len() - i,
    {
        let item = clone_json(&items[i]);
        out.push(item);
        i += 1;
    }
    proof {
        lemma_items_view(items@);
        lemma_items_view(out@);
        assert(items_view(out@) =~= items_view(items@));
    }
    out
}

/// A copy of the members of an object.
pub fn clone_members(members: &Vec<JsonMember>) -> (out: Vec<JsonMember>)
    ensures
        members_view(out@) == members_view(members@),
    decreases members,
{
    let mut out: Vec<JsonMember> = Vec::new();
    let mut i: usize = 0;
    while i < members.len()
        invariant
            i <= members.len(),
            out.len() == i,
            forall|k: int|
                0 <= k < i ==> (#[trigger] out[k]).key@ == members[k].key@ && out[k].value@
                    == members[k].value@,
        decreases members.len() - i,
    {
        let value = clone_json(&members[i].value);
        out.push(JsonMember { key: members[i].key.clone(), value });
        i += 1;
    }
    proof {
        lemma_members_view(members@);
        lemma_members_view(out@);
        assert(members_view(out@) =~= members_view(members@));
    }
    out
}

/// Whether no key occurs twice among the members.
pub open spec fn keys_distinct(members: Seq<(Seq<char>, JsonView)>) -> bool {
    forall|i: int, k: int|
        0 <= i < k < members.len() ==> (#[trigger] members[i]).0 != (#[trigger] members[k]).0
}

/// The members without those whose key stands at an earlier place: the
/// first member of each key, in order.
pub open spec fn unique_members(members: Seq<(Seq<char>, JsonView)>) -> Seq<
    (Seq<char>, JsonView),
>
    decreases members.len(),
{
    if members.len() == 0 {
        Seq::empty()
    } else {
        let rest = unique_members(members.drop_last());
        if member_value(rest, members.last().0) is Some {
            rest
        } else {
            rest.push(members.last())
        }
    }
}

/// A lookup finds nothing exactly where no member has the key.
pub proof fn lemma_member_value_none(members: Seq<(Seq<char>, JsonView)>, key: Seq<char>)
    ensures
        member_value(members, key) is None <==> forall|i: int|
            0 <= i < members.len() ==> (#[trigger] members[i]).0 != key,
    decreases members.len(),
{
    if members.len() > 0 {
        let rest = members.drop_first();
        lemma_member_value_none(rest, key);
        if members[0].0 != key {
            if member_value(rest, key) is None {
                assert forall|i: int| 0 <= i < members.len() implies (#[trigger] members[i]).0
                    != key by {
                    if i > 0 {
                        assert(rest[i - 1] == members[i]);
                    }
                }
            } else {
                let i = choose|i: int| 0 <= i < rest.len() && (#[trigger] rest[i]).0 == key;
                assert(members[i + 1] == rest[i]);
            }
        }
    }
}

/// A lookup among members with one more at the end finds what it found
/// before, and the new member where it found nothing and the key is that of
/// the new member.
pub proof fn lemma_member_value_push(
    members: Seq<(Seq<char>, JsonView)>,
    member: (Seq<char>, JsonView),
    key: Seq<char>,
)
    ensures
        member_value(members.push(member), key) == match member_value(members, key) {
            Some(value) => Some(value),
            None => if member.0 == key {
                Some(member.1)
            } else {
                None
            },
        },
    decreases members.len(),
{
    let longer = members.push(member);
    if members.len() == 0 {
        assert(longer.drop_first() =~= Seq::<(Seq<char>, JsonView)>::empty());
    } else {
        assert(longer[0] == members[0]);
        assert(longer.drop_first() =~= members.drop_first().push(member));
        if members[0].0 != key {
            lemma_member_value_push(members.drop_first(), member, key);
        }
    }
}

/// Among the first members of each key no key occurs twice, and a lookup
/// finds there what it finds among all the members.
pub proof fn lemma_unique_members(members: Seq<(Seq<char>, JsonView)>)
    ensures
        keys_distinct(unique_members(members)),
        unique_members(members).len() <= members.len(),
        forall|key: Seq<char>| #[trigger]
            member_value(unique_members(members), key) == member_value(members, key),
    decreases members.len(),
{
    if members.len() > 0 {
        let front = members.drop_last();
        let last = members.last();
        let rest = unique_members(front);
        lemma_unique_members(front);
        assert(members =~= front.push(last));
        lemma_member_value_none(rest, last.0);
        assert forall|key: Seq<char>| #[trigger]
            member_value(unique_members(members), key) == member_value(members, key) by {
            lemma_member_value_push(front, last, key);
            lemma_member_value_push(rest, last, key);
            assert(member_value(rest, key) == member_value(front, key));
        }
    }
}

/// Members among which no key occurs twice are the first of their keys.
pub proof fn lemma_unique_of_distinct(members: Seq<(Seq<char>, JsonView)>)
    requires
        keys_distinct(members),
    ensures
        unique_members(members) == members,
    decreases members.len(),
{
    if members.len() > 0 {
        let front = members.drop_last();
        assert(keys_distinct(front)) by {
            assert forall|i: int, k: int| 0 <= i < k < front.len() implies (#[trigger] front[i]).0
                != (#[trigger] front[k]).0 by {
                assert(front[i] == members[i] && front[k] == members[k]);
            }
        }
        lemma_unique_of_distinct(front);
        lemma_member_value_none(front, members.last().0);
        assert forall|i: int| 0 <= i < front.len() implies (#[trigger] front[i]).0
            != members.last().0 by {
            assert(front[i] == members[i]);
            assert(members[members.len() - 1] == members.last());
        }
        assert(front.push(members.last()) =~= members);
    }
}

/// The first member of each key, in order: a copy.
pub fn unique_members_of(members: &Vec<JsonMember>) -> (out: Vec<JsonMember>)
    ensures
        members_view(out@) == unique_members(members_view(members@)),
        keys_distinct(members_view(out@)),
{
    let ghost all = members_view(members@);
    proof {
        lemma_members_view(members@);
    }
    let mut out: Vec<JsonMember> = Vec::new();
    let mut i: usize = 0;
    proof {
        lemma_members_view(out@);
        assert(all.take(0) =~= Seq::empty());
        assert(members_view(out@) =~= unique_members(all.take(0)));
    }
    while i < members.len()
        invariant
            i <= members.len(),
            all == members_view(members@),
            all.len() == members.len(),
            forall|k: int|
                0 <= k < members.len() ==> #[trigger] all[k] == (
                    members[k].key@,
                    members[k].value@,
                ),
            members_view(out@) == unique_members(all.take(i as int)),
        decreases members.len() - i,
    {
        let ghost before = out@;
        proof {
            assert(all.take(i + 1).drop_last() =~= all.take(i as int));
            assert(all.take(i + 1).last() == all[i as int]);
        }
        let seen = find_member(&out, members[i].key.as_str()).is_some();
        if !seen {
            let value = clone_json(&members[i].value);
            out.push(JsonMember { key: members[i].key.clone(), value });
            proof {
                lemma_members_view(before);
                lemma_members_view(out@);
                assert(members_view(out@) =~= members_view(before).push(all[i as int]));
            }
        }
        i += 1;
    }
    proof {
        assert(all.take(i as int) =~= all);
        lemma_unique_members(all);
    }
    out
}

/// `serde_json::Value`, whose inside is not looked at here.
#[verifier::external_type_specification]
#[verifier::external_body]
pub struct ExValue(serde_json::Value);

/// `serde_json::Error`, whose inside is not looked at here.
#[verifier::external_type_specification]
#[verifier::external_body]
pub struct ExJsonError(serde_json::Error);

/// What `serde_json` reads from `bytes` as one JSON document, if they are
/// one.
pub uninterp spec fn parsed_document(bytes: Seq<u8>) -> Option<JsonView>;

/// What a `serde_json::Value` holds.
pub uninterp spec fn value_json(value: serde_json::Value) -> JsonView;

/// The JSON text that `serde_json` writes for a `serde_json::Value`, without
/// white space, where it writes one.
pub uninterp spec fn value_text(value: serde_json::Value) -> Option<Seq<char>>;

/// The JSON text of a value, without white space: what `serde_json` writes
/// for the `serde_json::Value` that holds the same. A value has no text
/// where the text of one of its numbers is no JSON number.
pub uninterp spec fn json_text(json: JsonView) -> Option<Seq<char>>;

/// Calls `serde_json::from_slice` for a `serde_json::Value`. The contract
/// claims that the outcome depends on the bytes alone: a value comes back
/// exactly where the bytes are a document, and it holds that document.
#[verifier::external_body]
fn read_value(bytes: &[u8]) -> (r: Result<serde_json::Value, serde_json::Error>)
    ensures
        match r {
            Ok(value) => parsed_document(bytes@) == Some(value_json(value)),
            Err(_) => parsed_document(bytes@) is None,
        },
{
    serde_json::from_slice::<serde_json::Value>(bytes)
}

/// Copies a `serde_json::Value` into a [`Json`], variant by variant; of a
/// number it keeps `Number::as_u64` and the text that `Number` displays. The
/// contract claims that the copy holds what the value holds.
#[verifier::external_body]
fn json_from_value(value: &serde_json::Value) -> (json: Json)
    ensures
        json@ == value_json(*value),
{
    match value {
        serde_json::Value::Null => Json::Null,
        serde_json::Value::Bool(b) => Json::Bool(*b),
        serde_json::Value::Number(n) => Json::Number(
            JsonNumber { unsigned: n.as_u64(), text: n.to_string() },
        ),
        serde_json::Value::String(s) => Json::String(s.clone()),
        serde_json::Value::Array(items) => Json::Array(items.iter().map(json_from_value).collect()),
        serde_json::Value::Object(members) => Json::Object(
            members.iter().map(|(k, v)| JsonMember { key: k.clone(), value: json_from_value(v) }).collect(),
        ),
    }
}

/// The message that a `serde_json::Error` displays. Nothing is claimed of
/// it.
#[verifier::external_body]
fn error_text(error: &serde_json::Error) -> (text: String) {
    error.to_string()
}

/// Copies a [`Json`] into a `serde_json::Value`, variant by variant; a
/// number is read from its text with `serde_json::from_str`. The contract
/// claims that the outcome depends on what the value holds alone: a value
/// comes back unless the text of a number is no JSON number, and its JSON
/// text is the text of what was copied.
#[verifier::external_body]
fn value_from_json(json: &Json) -> (r: Option<serde_json::Value>)
    ensures
        match r {
            Some(value) => value_text(value) == json_text(json@),
            None => json_text(json@) is None,
        },
{
    Some(match json {
        Json::Null => serde_json::Value::Null,
        Json::Bool(b) => serde_json::Value::Bool(*b),
        Json::Number(n) => serde_json::Value::Number(serde_json::from_str(&n.text).ok()?),
        Json::String(s) => serde_json::Value::String(s.clone()),
        Json::Array(items) => serde_json::Value::Array(
            items.iter().map(value_from_json).collect::<Option<_>>()?,
        ),
        Json::Object(members) => serde_json::Value::Object(
            members.iter().map(|m| Some((m.key.clone(), value_from_json(&m.value)?))).collect::<Option<_>>()?,
        ),
    })
}

/// Calls `serde_json::to_string` on a `serde_json::Value`. The contract
/// claims that the outcome depends on the value alone.
#[verifier::external_body]
fn value_to_text(value: &serde_json::Value) -> (r: Option<String>)
    ensures
        opt_string_view(r) == value_text(*value),
{
    serde_json::to_string(value).ok()
}

/// Reads one JSON document from `bytes`; the error is the reader's
/// message.
pub fn parse_json(bytes: &[u8]) -> (r: Result<Json, String>)
    ensures
        match r {
            Ok(json) => parsed_document(bytes@) == Some(json@),
            Err(_) => parsed_document(bytes@) is None,
        },
{
    match read_value(bytes) {
        Ok(value) => Ok(json_from_value(&value)),
        Err(error) => Err(error_text(&error)),
    }
}

/// Writes a value as JSON text, without white space.
pub fn json_to_text(json: &Json) -> (r: Option<String>)
    ensures
        opt_string_view(r) == json_text(json@),
{
    match value_from_json(json) {
        Some(value) => value_to_text(&value),
        None => None,
    }
}

} // verus!
