//! JSON documents as plain values, and the calls into `serde_json` that read and quote them.

use vstd::prelude::*;

verus! {

/// A JSON document. Object members keep the order in which they were written, and a number
/// keeps its decimal text.
#[derive(Debug, PartialEq, Eq)]
pub enum Json {
    Null,
    Bool(bool),
    Number(String),
    Text(String),
    Array(Vec<Json>),
    Object(Vec<Member>),
}

/// One member of a JSON object.
#[derive(Debug, PartialEq, Eq)]
pub struct Member {
    pub key: String,
    pub value: Json,
}

/// The mathematical value of a [`Json`] document.
pub ghost enum JsonValue {
    Null,
    Bool(bool),
    Number(Seq<char>),
    Text(Seq<char>),
    Array(Seq<JsonValue>),
    Object(Seq<MemberValue>),
}

/// The mathematical value of one member of an object.
pub ghost struct MemberValue {
    pub key: Seq<char>,
    pub value: JsonValue,
}

impl View for Json {
    type V = JsonValue;

    open spec fn view(&self) -> JsonValue
        decreases self,
    {
        match self {
            Json::Null => JsonValue::Null,
            Json::Bool(b) => JsonValue::Bool(*b),
            Json::Number(n) => JsonValue::Number(n@),
            Json::Text(t) => JsonValue::Text(t@),
            Json::Array(items) => JsonValue::Array(
                Seq::new(
                    items@.len(),
                    |i: int|
                        if 0 <= i < items@.len() {
                            items@[i].view()
                        } else {
                            JsonValue::Null
                        },
                ),
            ),
            Json::Object(members) => JsonValue::Object(
                Seq::new(
                    members@.len(),
                    |i: int|
                        if 0 <= i < members@.len() {
                            MemberValue { key: members@[i].key@, value: members@[i].value.view() }
                        } else {
                            MemberValue { key: Seq::empty(), value: JsonValue::Null }
                        },
                ),
            ),
        }
    }
}

/// The values of a sequence of documents, one for one.
pub open spec fn values_of(items: Seq<Json>) -> Seq<JsonValue> {
    Seq::new(items.len(), |i: int| items[i]@)
}

/// The members of an object as pairs of key text and value.
pub open spec fn members_of(members: Seq<Member>) -> Seq<MemberValue> {
    Seq::new(members.len(), |i: int| MemberValue { key: members[i].key@, value: members[i].value@ })
}

/// The view of an array is the sequence of its items' views.
pub proof fn lemma_array_view(items: Vec<Json>)
    ensures
        Json::Array(items)@ == JsonValue::Array(values_of(items@)),
{
    assert(Json::Array(items)@->Array_0 =~= values_of(items@));
}

/// The view of an object is the sequence of its members' keys and views.
pub proof fn lemma_object_view(members: Vec<Member>)
    ensures
        Json::Object(members)@ == JsonValue::Object(members_of(members@)),
{
    assert(Json::Object(members)@->Object_0 =~= members_of(members@));
}

/// The position of the first member of `members` whose key is `key`, if there is one.
pub open spec fn first_with_key(members: Seq<MemberValue>, key: Seq<char>) -> Option<int> {
    crate::search::first_index(members, |m: MemberValue| m.key == key)
}

/// The value that an object holds under `key`: that of the first member with the key.
pub open spec fn value_at(doc: JsonValue, key: Seq<char>) -> Option<JsonValue> {
    match doc {
        JsonValue::Object(members) => match first_with_key(members, key) {
            Some(i) => Some(members[i].value),
            None => None,
        },
        _ => None,
    }
}

/// `str`'s `eq` of std: two string slices are equal exactly where they hold the same
/// characters.
pub assume_specification[ <str as PartialEq>::eq ](a: &str, b: &str) -> (r: bool)
    ensures
        r == (a@ == b@),
;

/// Whether two texts are the same.
pub fn same_text(a: &str, b: &str) -> (r: bool)
    ensures
        r == (a@ == b@),
{
    a.eq(b)
}

/// A deep copy of a sequence of documents.
fn copy_items(items: &Vec<Json>) -> (r: Vec<Json>)
    ensures
        values_of(r@) == values_of(items@),
    decreases items,
{
    let mut copy: Vec<Json> = Vec::new();
    let mut i: usize = 0;
    while i < items.len()
        invariant
            i <= items.len(),
            copy.len() == i,
            forall|k: int| 0 <= k < i ==> copy@[k]@ == items@[k]@,
        decreases items.len() - i,
    {
        proof {
            assert(decreases_to!(items => items[i as int]));
        }
        let item = copy_json(&items[i]);
        copy.push(item);
        i += 1;
    }
    assert(values_of(copy@) =~= values_of(items@));
    copy
}

/// A deep copy of the members of an object.
fn copy_members(members: &Vec<Member>) -> (r: Vec<Member>)
    ensures
        members_of(r@) == members_of(members@),
    decreases members,
{
    let mut copy: Vec<Member> = Vec::new();
    let mut i: usize = 0;
    while i < members.len()
        invariant
            i <= members.len(),
            copy.len() == i,
            forall|k: int|
                0 <= k < i ==> copy@[k].key@ == members@[k].key@ && copy@[k].value@
                    == members@[k].value@,
        decreases members.len() - i,
    {
        proof {
            assert(decreases_to!(members => members[i as int]));
            assert(decreases_to!(members[i as int] => members[i as int].value));
        }
        let key = members[i].key.clone();
        let value = copy_json(&members[i].value);
        copy.push(Member { key, value });
        i += 1;
    }
    assert(members_of(copy@) =~= members_of(members@));
    copy
}

/// A deep copy of a document.
fn copy_json(doc: &Json) -> (r: Json)
    ensures
        r@ == doc@,
    decreases doc,
{
    match doc {
        Json::Null => Json::Null,
        Json::Bool(b) => Json::Bool(*b),
        Json::Number(n) => Json::Number(n.clone()),
        Json::Text(t) => Json::Text(t.clone()),
        Json::Array(items) => {
            let copy = copy_items(items);
            proof {
                lemma_array_view(copy);
                lemma_array_view(*items);
            }
            Json::Array(copy)
        },
        Json::Object(members) => {
            let copy = copy_members(members);
            proof {
                lemma_object_view(copy);
                lemma_object_view(*members);
            }
            Json::Object(copy)
        },
    }
}

impl Clone for Json {
    /// A deep copy: the copy has the same value.
    fn clone(&self) -> (r: Json)
        ensures
            r@ == self@,
    {
        copy_json(self)
    }
}

impl Json {
    /// A text document holding `text`.
    pub fn text(text: &str) -> (r: Json)
        ensures
            r@ == JsonValue::Text(text@),
    {
        Json::Text(text.to_owned())
    }

    /// The value under `key` where this document is an object that has the key: that of the
    /// first member with the key.
    #[verifier::loop_isolation(false)]
    pub fn get(&self, key: &str) -> (r: Option<&Json>)
        ensures
            match r {
                Some(found) => value_at(self@, key@) == Some(found@),
                None => value_at(self@, key@) is None,
            },
    {
        match self {
            Json::Object(members) => {
                proof {
                    lemma_object_view(*members);
                }
                let mut i: usize = 0;
                while i < members.len()
                    invariant
                        i <= members.len(),
                        forall|j: int| 0 <= j < i ==> members@[j].key@ != key@,
                    decreases members.len() - i,
                {
                    if same_text(members[i].key.as_str(), key) {
                        proof {
                            crate::search::lemma_first_index_at(
                                members_of(members@),
                                |m: MemberValue| m.key == key@,
                                i as int,
                            );
                        }
                        return Some(&members[i].value);
                    }
                    i += 1;
                }
                proof {
                    crate::search::lemma_first_index_none(
                        members_of(members@),
                        |m: MemberValue| m.key == key@,
                    );
                }
                None
            },
            _ => None,
        }
    }
}

/// `serde_json::Value`, carried from the reader to the copy into a [`Json`].
#[verifier::external_type_specification]
#[verifier::external_body]
pub struct ExValue(serde_json::Value);

/// `serde_json::Error`, carried from the reader to where its message is taken.
#[verifier::external_type_specification]
#[verifier::external_body]
pub struct ExError(serde_json::Error);

/// The document that a `serde_json::Value` holds.
pub uninterp spec fn value_model(v: serde_json::Value) -> JsonValue;

/// The text that a `serde_json::Error` displays.
pub uninterp spec fn error_message(e: serde_json::Error) -> Seq<char>;

/// What `serde_json::from_str` makes of a text: the document it reads, or the message of the
/// error with which it refuses the text.
pub uninterp spec fn json_parse(text: Seq<char>) -> Result<JsonValue, Seq<char>>;

/// The JSON string literal, quotes and escapes included, that `serde_json::to_string` writes
/// for a text.
pub uninterp spec fn json_quoted(text: Seq<char>) -> Seq<char>;

/// `serde_json::from_str` at the type `serde_json::Value`. Its outcome depends on the text
/// alone: the value read, or the error.
#[verifier::external_body]
fn value_from_str(text: &str) -> (r: Result<serde_json::Value, serde_json::Error>)
    ensures
        match r {
            Ok(v) => json_parse(text@) == Ok::<JsonValue, Seq<char>>(value_model(v)),
            Err(e) => json_parse(text@) == Err::<JsonValue, Seq<char>>(error_message(e)),
        },
{
    serde_json::from_str::<serde_json::Value>(text)
}

/// Copies a `serde_json::Value` into a [`Json`], variant by variant; a number is copied as the
/// text that `serde_json::Number` displays.
#[verifier::external_body]
pub(crate) fn json_from_value(v: &serde_json::Value) -> (r: Json)
    ensures
        r@ == value_model(*v),
{
    match v {
        serde_json::Value::Null => Json::Null,
        serde_json::Value::Bool(b) => Json::Bool(*b),
        serde_json::Value::Number(n) => Json::Number(n.to_string()),
        serde_json::Value::String(s) => Json::Text(s.clone()),
        serde_json::Value::Array(a) => Json::Array(a.iter().map(json_from_value).collect()),
        serde_json::Value::Object(o) => Json::Object(
            o.iter().map(|(k, v)| Member { key: k.clone(), value: json_from_value(v) }).collect(),
        ),
    }
}

/// The `to_string` of a `serde_json::Error`: the text that the error displays.
#[verifier::external_body]
fn error_text(e: &serde_json::Error) -> (r: String)
    ensures
        r@ == error_message(*e),
{
    e.to_string()
}

/// `serde_json::to_string` at the type `str`: the text as a JSON string literal. Serialising a
/// `str` cannot fail.
#[verifier::external_body]
fn quoted(text: &str) -> (r: String)
    ensures
        r@ == json_quoted(text@),
{
    serde_json::to_string(text).unwrap()
}

impl Json {
    /// Reads a document from its text. Fails, with the reader's message, exactly where the
    /// reader refuses the text.
    pub fn parse(text: &str) -> (r: Result<Json, String>)
        ensures
            match r {
                Ok(doc) => json_parse(text@) == Ok::<JsonValue, Seq<char>>(doc@),
                Err(message) => json_parse(text@) == Err::<JsonValue, Seq<char>>(message@),
            },
    {
        match value_from_str(text) {
            Ok(v) => Ok(json_from_value(&v)),
            Err(e) => Err(error_text(&e)),
        }
    }

    /// The text as a JSON string literal.
    pub fn quote(text: &str) -> (r: String)
        ensures
            r@ == json_quoted(text@),
    {
        quoted(text)
    }
}

} // verus!

