//! JSON documents.
//!
//! [`JsonValue`] is a document in memory and [`Json`] the tree it stands for.
//! Text is turned into a document, and a document back into text, by
//! `serde_json`; everything in between works on the tree and is verified.

use vstd::prelude::*;

verus! {

/// One member of a JSON object.
#[derive(Debug, PartialEq)]
pub struct Member {
    pub key: String,
    pub value: JsonValue,
}

/// A JSON document.
#[derive(Debug, PartialEq)]
pub enum JsonValue {
    Null,
    Bool(bool),
    /// A number, held as its literal (`"42"`, `"-1"`, `"2.5"`).
    Number(String),
    String(String),
    Array(Vec<JsonValue>),
    /// An object: its members in order. A key is looked up from the front, so
    /// of two members with one key only the first is ever seen.
    Object(Vec<Member>),
}

/// What a JSON document says: the tree behind a [`JsonValue`].
pub enum Json {
    Null,
    Bool(bool),
    Number(Seq<char>),
    String(Seq<char>),
    Array(Seq<Json>),
    Object(Seq<Entry>),
}

/// One member of an object in a [`Json`] tree.
pub struct Entry {
    pub key: Seq<char>,
    pub value: Json,
}

impl View for JsonValue {
    type V = Json;

    open spec fn view(&self) -> Json
        decreases self,
    {
        match self {
            JsonValue::Null => Json::Null,
            JsonValue::Bool(b) => Json::Bool(*b),
            JsonValue::Number(n) => Json::Number(n@),
            JsonValue::String(s) => Json::String(s@),
            JsonValue::Array(items) => Json::Array(
                Seq::new(
                    items@.len(),
                    |i: int|
                        if 0 <= i < items@.len() {
                            items@[i].view()
                        } else {
                            Json::Null
                        },
                ),
            ),
            JsonValue::Object(members) => Json::Object(
                Seq::new(
                    members@.len(),
                    |i: int|
                        if 0 <= i < members@.len() {
                            Entry { key: members@[i].key@, value: members@[i].value.view() }
                        } else {
                            Entry { key: Seq::empty(), value: Json::Null }
                        },
                ),
            ),
        }
    }
}

/// The tree of a document that may be missing.
pub open spec fn option_view(value: Option<JsonValue>) -> Option<Json> {
    match value {
        Some(value) => Some(value@),
        None => None,
    }
}

/// The trees of a sequence of documents.
pub open spec fn items_view(items: Seq<JsonValue>) -> Seq<Json> {
    Seq::new(items.len(), |i: int| items[i]@)
}

/// The keys and trees of a sequence of members.
pub open spec fn members_view(members: Seq<Member>) -> Seq<Entry> {
    Seq::new(members.len(), |i: int| Entry { key: members[i].key@, value: members[i].value@ })
}

/// An array stands for the trees of its items.
pub proof fn lemma_array_view(items: Vec<JsonValue>)
    ensures
        JsonValue::Array(items)@ == Json::Array(items_view(items@)),
{
    assert(JsonValue::Array(items)@->Array_0 =~= items_view(items@));
}

/// An object stands for the keys and trees of its members.
pub proof fn lemma_object_view(members: Vec<Member>)
    ensures
        JsonValue::Object(members)@ == Json::Object(members_view(members@)),
{
    assert(JsonValue::Object(members)@->Object_0 =~= members_view(members@));
}

/// The index of the first member at or after `from` whose key is `key`.
pub open spec fn first_from(members: Seq<Entry>, key: Seq<char>, from: int) -> Option<
    int,
>
    decreases members.len() - from,
{
    if from < 0 || from >= members.len() {
        None
    } else if members[from].key == key {
        Some(from)
    } else {
        first_from(members, key, from + 1)
    }
}

/// The index of the first member whose key is `key`.
pub open spec fn index_of(members: Seq<Entry>, key: Seq<char>) -> Option<int> {
    first_from(members, key, 0)
}

/// What `first_from` finds lies in range, carries the key, and is the first
/// such member from `from` on; it finds nothing only where no member from
/// `from` on carries the key.
pub proof fn lemma_first_from(members: Seq<Entry>, key: Seq<char>, from: int)
    requires
        0 <= from,
    ensures
        match first_from(members, key, from) {
            Some(i) => {
                &&& from <= i < members.len()
                &&& members[i].key == key
                &&& forall|j: int| from <= j < i ==> members[j].key != key
            },
            None => forall|j: int| from <= j < members.len() ==> members[j].key != key,
        },
    decreases members.len() - from,
{
    if from < members.len() && members[from].key != key {
        lemma_first_from(members, key, from + 1);
    }
}

impl Json {
    /// The value of member `key`, where this is an object that has one.
    pub open spec fn member(self, key: Seq<char>) -> Option<Json> {
        match self {
            Json::Object(members) => match index_of(members, key) {
                Some(i) => Some(members[i].value),
                None => None,
            },
            _ => None,
        }
    }
}

impl JsonValue {
    /// A copy of this document.
    pub fn duplicate(&self) -> (r: JsonValue)
        ensures
            r@ == self@,
        decreases self,
    {
        match self {
            JsonValue::Null => JsonValue::Null,
            JsonValue::Bool(b) => JsonValue::Bool(*b),
            JsonValue::Number(n) => JsonValue::Number(n.clone()),
            JsonValue::String(s) => JsonValue::String(s.clone()),
            JsonValue::Array(items) => {
                let mut copies: Vec<JsonValue> = Vec::new();
                let mut i: usize = 0;
                while i < items.len()
                    invariant
                        *self == JsonValue::Array(*items),
                        i <= items.len(),
                        copies@.len() == i,
                        forall|k: int| 0 <= k < i ==> copies@[k]@ == items@[k]@,
                    decreases items.len() - i,
                {
                    assert(decreases_to!(*self => self->Array_0));
                    assert(decreases_to!(*items => items[i as int]));
                    copies.push(items[i].duplicate());
                    i += 1;
                }
                proof {
                    lemma_array_view(*items);
                    lemma_array_view(copies);
                    assert(items_view(copies@) =~= items_view(items@));
                }
                JsonValue::Array(copies)
            },
            JsonValue::Object(members) => {
                let mut copies: Vec<Member> = Vec::new();
                let mut i: usize = 0;
                while i < members.len()
                    invariant
                        *self == JsonValue::Object(*members),
                        i <= members.len(),
                        copies@.len() == i,
                        forall|k: int|
                            0 <= k < i ==> copies@[k].key@ == members@[k].key@ && copies@[k].value@
                                == members@[k].value@,
                    decreases members.len() - i,
                {
                    assert(decreases_to!(*self => self->Object_0));
                    assert(decreases_to!(*members => members[i as int]));
                    assert(decreases_to!(members[i as int] => members[i as int].value));
                    copies.push(
                        Member { key: members[i].key.clone(), value: members[i].value.duplicate() },
                    );
                    i += 1;
                }
                proof {
                    lemma_object_view(*members);
                    lemma_object_view(copies);
                    assert(members_view(copies@) =~= members_view(members@));
                }
                JsonValue::Object(copies)
            },
        }
    }

    /// Looks up member `key`.
    pub fn get(&self, key: &str) -> (r: Option<&JsonValue>)
        ensures
            match r {
                Some(v) => self@.member(key@) == Some(v@),
                None => self@.member(key@) is None,
            },
    {
        match self {
            JsonValue::Object(members) => {
                proof {
                    lemma_object_view(*members);
                }
                match position(members, key) {
                    Some(i) => Some(&members[i].value),
                    None => None,
                }
            },
            _ => None,
        }
    }
}

/// Adds the member `key` with value `value` at the end of `members`.
pub fn push_member(members: &mut Vec<Member>, key: &str, value: JsonValue)
    ensures
        members_view(final(members)@) == members_view(old(members)@).push(
            Entry { key: key@, value: value@ },
        ),
{
    members.push(Member { key: key.to_owned(), value });
    assert(members_view(members@) =~= members_view(old(members)@).push(
        Entry { key: key@, value: value@ },
    ));
}

/// The object with the given members.
pub fn object(members: Vec<Member>) -> (r: JsonValue)
    ensures
        r@ == Json::Object(members_view(members@)),
{
    proof {
        lemma_object_view(members);
    }
    JsonValue::Object(members)
}

/// The JSON string that holds `text`.
pub fn string(text: &str) -> (r: JsonValue)
    ensures
        r@ == Json::String(text@),
{
    JsonValue::String(text.to_owned())
}

/// The JSON strings of a sequence of texts.
pub open spec fn strings_view(texts: Seq<String>) -> Seq<Json> {
    Seq::new(texts.len(), |i: int| Json::String(texts[i]@))
}

/// The JSON array of the strings that hold `texts`.
pub fn strings(texts: &Vec<String>) -> (r: JsonValue)
    ensures
        r@ == Json::Array(strings_view(texts@)),
{
    let mut items: Vec<JsonValue> = Vec::new();
    let mut i: usize = 0;
    while i < texts.len()
        invariant
            i <= texts.len(),
            items@.len() == i,
            forall|k: int| 0 <= k < i ==> items@[k]@ == Json::String(texts@[k]@),
        decreases texts.len() - i,
    {
        items.push(JsonValue::String(texts[i].clone()));
        i += 1;
    }
    proof {
        lemma_array_view(items);
        assert(items_view(items@) =~= strings_view(texts@));
    }
    JsonValue::Array(items)
}

/// The index of the first member of `members` whose key is `key`.
pub fn position(members: &Vec<Member>, key: &str) -> (r: Option<usize>)
    ensures
        match r {
            Some(i) => index_of(members_view(members@), key@) == Some(i as int) && i
                < members.len(),
            None => index_of(members_view(members@), key@) is None,
        },
{
    let mut i: usize = 0;
    while i < members.len()
        invariant
            i <= members.len(),
            index_of(members_view(members@), key@) == first_from(
                members_view(members@),
                key@,
                i as int,
            ),
        decreases members.len() - i,
    {
        if str_eq(members[i].key.as_str(), key) {
            return Some(i);
        }
        i += 1;
    }
    None
}

/// `==` of `str`: true exactly when the two hold the same characters.
#[verifier::external_body]
pub(crate) fn str_eq(a: &str, b: &str) -> (r: bool)
    ensures
        r == (a@ == b@),
{
    a == b
}

/// `serde_json::Value`, of which nothing is known here but what
/// `document_json` says it holds.
#[verifier::external_type_specification]
#[verifier::external_body]
pub struct ExSerdeValue(serde_json::Value);

/// The `serde_json` value that `serde_json::from_str` reads from `text`;
/// `None` where it reports an error.
pub uninterp spec fn text_document(text: Seq<char>) -> Option<serde_json::Value>;

/// The tree that a `serde_json` value holds.
pub uninterp spec fn document_json(doc: serde_json::Value) -> Json;

/// The `serde_json` value that is built from a tree.
pub uninterp spec fn json_document(value: Json) -> serde_json::Value;

/// The text that `serde_json` writes for one of its values.
pub uninterp spec fn document_text(doc: serde_json::Value) -> Seq<char>;

/// The tree that `text` holds; `None` where `text` is not JSON.
pub open spec fn parsed(text: Seq<char>) -> Option<Json> {
    match text_document(text) {
        Some(doc) => Some(document_json(doc)),
        None => None,
    }
}

/// The compact JSON text of a tree.
pub open spec fn rendered(value: Json) -> Seq<char> {
    document_text(json_document(value))
}

/// `serde_json::from_str` at `serde_json::Value`. On the same text it gives
/// the same value; that value, or that there is none, is `text_document`.
#[verifier::external_body]
fn read_document(text: &str) -> (r: Option<serde_json::Value>)
    ensures
        r == text_document(text@),
{
    serde_json::from_str::<serde_json::Value>(text).ok()
}

/// Moves the contents of a `serde_json::Value` into a `JsonValue`, variant by
/// variant; a number goes through `Number`'s `Display`. What comes out
/// stands for `document_json` of the value.
#[verifier::external_body]
fn lift(doc: serde_json::Value) -> (r: JsonValue)
    ensures
        r@ == document_json(doc),
{
    match doc {
        serde_json::Value::Null => JsonValue::Null,
        serde_json::Value::Bool(b) => JsonValue::Bool(b),
        serde_json::Value::Number(n) => JsonValue::Number(n.to_string()),
        serde_json::Value::String(s) => JsonValue::String(s),
        serde_json::Value::Array(a) => JsonValue::Array(a.into_iter().map(lift).collect()),
        serde_json::Value::Object(m) => JsonValue::Object(
            m.into_iter().map(|(key, v)| Member { key, value: lift(v) }).collect(),
        ),
    }
}

/// Builds a `serde_json::Value` from a `JsonValue`, variant by variant. A
/// number goes through `Number`'s `FromStr`, and becomes `null` where its text
/// is no JSON number; members go into `serde_json`'s map, which keeps one
/// value for each key. What comes out is `json_document` of the tree.
#[verifier::external_body]
fn lower(value: &JsonValue) -> (r: serde_json::Value)
    ensures
        r == json_document(value@),
{
    match value {
        JsonValue::Null => serde_json::Value::Null,
        JsonValue::Bool(b) => serde_json::Value::Bool(*b),
        JsonValue::Number(n) => n.parse().map_or(serde_json::Value::Null, serde_json::Value::Number),
        JsonValue::String(s) => serde_json::Value::String(s.clone()),
        JsonValue::Array(a) => serde_json::Value::Array(a.iter().map(lower).collect()),
        JsonValue::Object(m) => serde_json::Value::Object(
            m.iter().map(|e| (e.key.clone(), lower(&e.value))).collect(),
        ),
    }
}

/// `to_string` of a `serde_json::Value`, which writes compact JSON. On the
/// same value it gives the same text, which is `document_text`.
#[verifier::external_body]
fn write_document(doc: &serde_json::Value) -> (text: String)
    ensures
        text@ == document_text(*doc),
{
    doc.to_string()
}

/// Reads `text` as JSON.
pub fn parse(text: &str) -> (r: Option<JsonValue>)
    ensures
        match r {
            Some(v) => parsed(text@) == Some(v@),
            None => parsed(text@) is None,
        },
{
    match read_document(text) {
        Some(doc) => Some(lift(doc)),
        None => None,
    }
}

/// Writes a document as compact JSON text.
pub fn render(value: &JsonValue) -> (text: String)
    ensures
        text@ == rendered(value@),
{
    let doc = lower(value);
    write_document(&doc)
}

} // verus!
