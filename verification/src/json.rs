//! JSON documents as plain values.
//!
//! Reading and writing JSON text is serde_json's work. The rest of the crate
//! reasons about documents through [`Json`], a tree of plain values, and its
//! mathematical model [`JsonModel`].

use vstd::prelude::*;
use vstd::string::StringExecFns;

verus! {

/// `serde_json::Number`, a JSON number as serde_json holds it. A number is
/// only carried; nothing is claimed of what it holds.
#[verifier::external_type_specification]
#[verifier::external_body]
pub struct ExNumber(serde_json::Number);

/// `serde_json::Value`, a JSON document as serde_json holds it. It stands only
/// in the functions that move a document in and out of [`Json`].
#[verifier::external_type_specification]
#[verifier::external_body]
pub struct ExValue(serde_json::Value);

/// `serde_json::Number::clone`: the copy is the same number.
pub assume_specification[ <serde_json::Number as Clone>::clone ](
    number: &serde_json::Number,
) -> (copy: serde_json::Number)
    ensures
        copy == *number,
;

/// A JSON document.
///
/// An object keeps its members in document order. A number that is a
/// non-negative integer below 2^64 is held as `Unsigned`; any other number is
/// carried as serde_json read it and is never looked into.
#[derive(Debug, PartialEq, Eq)]
pub enum Json {
    Null,
    Bool(bool),
    Unsigned(u64),
    Number(serde_json::Number),
    String(String),
    Array(Vec<Json>),
    Object(Vec<(String, Json)>),
}

/// The mathematical value of a [`Json`] document.
pub ghost enum JsonModel {
    Null,
    Bool(bool),
    Unsigned(u64),
    Number(serde_json::Number),
    String(Seq<char>),
    Array(Seq<JsonModel>),
    Object(Seq<(Seq<char>, JsonModel)>),
}

/// The members of an object, as a sequence of keys and values.
pub type Members = Seq<(Seq<char>, JsonModel)>;

/// The value of a document, member by member.
pub open spec fn json_model(document: Json) -> JsonModel
    decreases document,
{
    match document {
        Json::Null => JsonModel::Null,
        Json::Bool(b) => JsonModel::Bool(b),
        Json::Unsigned(u) => JsonModel::Unsigned(u),
        Json::Number(n) => JsonModel::Number(n),
        Json::String(s) => JsonModel::String(s@),
        Json::Array(items) => JsonModel::Array(
            Seq::new(
                items@.len(),
                |i: int|
                    if 0 <= i < items@.len() {
                        json_model(items@[i])
                    } else {
                        JsonModel::Null
                    },
            ),
        ),
        Json::Object(members) => JsonModel::Object(
            Seq::new(
                members@.len(),
                |i: int|
                    if 0 <= i < members@.len() {
                        (members@[i].0@, json_model(members@[i].1))
                    } else {
                        (Seq::empty(), JsonModel::Null)
                    },
            ),
        ),
    }
}

impl View for Json {
    type V = JsonModel;

    open spec fn view(&self) -> JsonModel {
        json_model(*self)
    }
}

/// The model of a list of object members.
pub open spec fn members_view(members: Seq<(String, Json)>) -> Members {
    Seq::new(members.len(), |i: int| (members[i].0@, members[i].1@))
}

/// The model of a list of documents.
pub open spec fn items_view(items: Seq<Json>) -> Seq<JsonModel> {
    Seq::new(items.len(), |i: int| items[i]@)
}

/// An object's model is the model of its members.
pub proof fn lemma_object_view(members: Vec<(String, Json)>)
    ensures
        Json::Object(members)@ == JsonModel::Object(members_view(members@)),
{
    assert(Json::Object(members)@->Object_0 =~= members_view(members@));
}

/// An array's model is the model of its items.
pub proof fn lemma_array_view(items: Vec<Json>)
    ensures
        Json::Array(items)@ == JsonModel::Array(items_view(items@)),
{
    assert(Json::Array(items)@->Array_0 =~= items_view(items@));
}

/// The first position at or after `from` whose key is `key`.
pub open spec fn position_from(members: Members, key: Seq<char>, from: int) -> Option<int>
    decreases members.len() - from,
{
    if from < 0 || from >= members.len() {
        None
    } else if members[from].0 == key {
        Some(from)
    } else {
        position_from(members, key, from + 1)
    }
}

/// The position of the first member under `key`.
pub open spec fn position(members: Members, key: Seq<char>) -> Option<int> {
    position_from(members, key, 0)
}

/// The value of the first member under `key`.
pub open spec fn lookup(members: Members, key: Seq<char>) -> Option<JsonModel> {
    match position(members, key) {
        Some(i) => Some(members[i].1),
        None => None,
    }
}

/// The members without the first one under `key`.
pub open spec fn without(members: Members, key: Seq<char>) -> Members {
    match position(members, key) {
        Some(i) => members.remove(i),
        None => members,
    }
}

/// A position found is in range, holds the key, and no earlier one does.
pub proof fn lemma_position_from(members: Members, key: Seq<char>, from: int)
    requires
        0 <= from,
    ensures
        match position_from(members, key, from) {
            Some(i) => from <= i < members.len() && members[i].0 == key && forall|j: int|
                from <= j < i ==> (#[trigger] members[j]).0 != key,
            None => forall|j: int| from <= j < members.len() ==> (#[trigger] members[j]).0 != key,
        },
    decreases members.len() - from,
{
    if from < members.len() && members[from].0 != key {
        lemma_position_from(members, key, from + 1);
    }
}

/// The first member under a key is the one that `position` names.
pub proof fn lemma_position_is(members: Members, key: Seq<char>, i: int)
    requires
        0 <= i < members.len(),
        members[i].0 == key,
        forall|j: int| 0 <= j < i ==> (#[trigger] members[j]).0 != key,
    ensures
        position(members, key) == Some(i),
{
    lemma_position_from(members, key, 0);
}

/// The position of the first member under `key`, if there is one.
pub fn find(members: &Vec<(String, Json)>, key: &str) -> (found: Option<usize>)
    ensures
        match found {
            Some(i) => i < members.len() && position(members_view(members@), key@) == Some(
                i as int,
            ),
            None => position(members_view(members@), key@) is None,
        },
{
    let wanted = String::from_str(key);
    let ghost model = members_view(members@);
    let mut i: usize = 0;
    while i < members.len()
        invariant
            i <= members.len(),
            model == members_view(members@),
            wanted@ == key@,
            position(model, key@) == position_from(model, key@, i as int),
        decreases members.len() - i,
    {
        if members[i].0 == wanted {
            return Some(i);
        }
        i = i + 1;
    }
    None
}

/// Takes the first member under `key` out of `members`.
pub fn take(members: &mut Vec<(String, Json)>, key: &str) -> (taken: Option<Json>)
    ensures
        members_view(final(members)@) == without(members_view(old(members)@), key@),
        match taken {
            Some(value) => lookup(members_view(old(members)@), key@) == Some(value@),
            None => lookup(members_view(old(members)@), key@) is None,
        },
{
    match find(members, key) {
        Some(i) => {
            proof {
                lemma_position_from(members_view(members@), key@, 0);
            }
            let member = members.remove(i);
            assert(members_view(members@) =~= members_view(old(members)@).remove(i as int));
            Some(member.1)
        },
        None => None,
    }
}

/// A copy of a list of documents.
pub fn duplicate_items(items: &Vec<Json>) -> (copies: Vec<Json>)
    ensures
        items_view(copies@) == items_view(items@),
    decreases items,
{
    let mut copies: Vec<Json> = Vec::new();
    let mut i: usize = 0;
    while i < items.len()
        invariant
            i <= items.len(),
            copies@.len() == i,
            forall|j: int| 0 <= j < i ==> (#[trigger] copies@[j])@ == items@[j]@,
        decreases items.len() - i,
    {
        assert(decreases_to!(*items => items@[i as int]));
        copies.push(items[i].duplicate());
        i = i + 1;
    }
    assert(items_view(copies@) =~= items_view(items@));
    copies
}

/// A copy of a list of members.
pub fn duplicate_members(members: &Vec<(String, Json)>) -> (copies: Vec<(String, Json)>)
    ensures
        members_view(copies@) == members_view(members@),
    decreases members,
{
    let mut copies: Vec<(String, Json)> = Vec::new();
    let mut i: usize = 0;
    while i < members.len()
        invariant
            i <= members.len(),
            copies@.len() == i,
            forall|j: int|
                0 <= j < i ==> (#[trigger] copies@[j]).0@ == members@[j].0@ && copies@[j].1@
                    == members@[j].1@,
        decreases members.len() - i,
    {
        let key = members[i].0.clone();
        assert(decreases_to!(*members => members@[i as int].1));
        let value = members[i].1.duplicate();
        copies.push((key, value));
        i = i + 1;
    }
    assert(members_view(copies@) =~= members_view(members@));
    copies
}

/// What serde_json reads from a text: the document, or its complaint.
pub uninterp spec fn json_parse(text: Seq<char>) -> Result<JsonModel, Seq<char>>;

/// What serde_json writes for a document: the text, or its complaint.
pub uninterp spec fn json_text(document: JsonModel) -> Result<Seq<char>, Seq<char>>;

/// Moves a `serde_json::Value` into a [`Json`], variant by variant. A number
/// that `serde_json::Number::as_u64` gives as an integer becomes `Unsigned`.
/// Nothing is claimed of the result.
#[verifier::external_body]
fn from_value(value: serde_json::Value) -> Json {
    match value {
        serde_json::Value::Null => Json::Null,
        serde_json::Value::Bool(b) => Json::Bool(b),
        serde_json::Value::Number(n) => match n.as_u64() {
            Some(u) => Json::Unsigned(u),
            None => Json::Number(n),
        },
        serde_json::Value::String(s) => Json::String(s),
        serde_json::Value::Array(a) => Json::Array(a.into_iter().map(from_value).collect()),
        serde_json::Value::Object(m) => Json::Object(
            m.into_iter().map(|(k, v)| (k, from_value(v))).collect(),
        ),
    }
}

/// Copies a [`Json`] into a `serde_json::Value`, variant by variant. Nothing
/// is claimed of the result.
#[verifier::external_body]
fn to_value(document: &Json) -> serde_json::Value {
    match document {
        Json::Null => serde_json::Value::Null,
        Json::Bool(b) => serde_json::Value::Bool(*b),
        Json::Unsigned(u) => serde_json::Value::Number(serde_json::Number::from(*u)),
        Json::Number(n) => serde_json::Value::Number(n.clone()),
        Json::String(s) => serde_json::Value::String(s.clone()),
        Json::Array(a) => serde_json::Value::Array(a.iter().map(to_value).collect()),
        Json::Object(m) => serde_json::Value::Object(
            m.iter().map(|(k, v)| (k.clone(), to_value(v))).collect(),
        ),
    }
}

/// Calls `serde_json::from_str` for a `serde_json::Value`. The contract gives
/// the outcome the name `json_parse`: the same text always reads as the same
/// document, or fails with the same message. It says nothing of which texts
/// are accepted.
#[verifier::external_body]
fn read_text(text: &str) -> (outcome: Result<Json, String>)
    ensures
        match outcome {
            Ok(document) => json_parse(text@) == Ok::<JsonModel, Seq<char>>(document@),
            Err(complaint) => json_parse(text@) == Err::<JsonModel, Seq<char>>(complaint@),
        },
{
    match serde_json::from_str::<serde_json::Value>(text) {
        Ok(value) => Ok(from_value(value)),
        Err(error) => Err(error.to_string()),
    }
}

/// Calls `serde_json::to_string` on the document as a `serde_json::Value`.
/// The contract gives the outcome the name `json_text`: the same document is
/// always written as the same text. It says nothing of what the text is.
#[verifier::external_body]
fn write_text(document: &Json) -> (outcome: Result<String, String>)
    ensures
        match outcome {
            Ok(text) => json_text(document@) == Ok::<Seq<char>, Seq<char>>(text@),
            Err(complaint) => json_text(document@) == Err::<Seq<char>, Seq<char>>(complaint@),
        },
{
    match serde_json::to_string(&to_value(document)) {
        Ok(text) => Ok(text),
        Err(error) => Err(error.to_string()),
    }
}

impl Json {
    /// A copy of the document.
    pub fn duplicate(&self) -> (copy: Json)
        ensures
            copy@ == self@,
        decreases self,
    {
        match self {
            Json::Null => Json::Null,
            Json::Bool(b) => Json::Bool(*b),
            Json::Unsigned(u) => Json::Unsigned(*u),
            Json::Number(n) => Json::Number(n.clone()),
            Json::String(s) => Json::String(s.clone()),
            Json::Array(items) => {
                let copies = duplicate_items(items);
                proof {
                    lemma_array_view(*items);
                    lemma_array_view(copies);
                }
                Json::Array(copies)
            },
            Json::Object(members) => {
                let copies = duplicate_members(members);
                proof {
                    lemma_object_view(*members);
                    lemma_object_view(copies);
                }
                Json::Object(copies)
            },
        }
    }

    /// Reads a document from JSON text.
    pub fn parse(text: &str) -> (outcome: Result<Json, String>)
        ensures
            match outcome {
                Ok(document) => json_parse(text@) == Ok::<JsonModel, Seq<char>>(document@),
                Err(complaint) => json_parse(text@) == Err::<JsonModel, Seq<char>>(complaint@),
            },
    {
        read_text(text)
    }

    /// Writes the document as JSON text on one line.
    pub fn print(&self) -> (outcome: Result<String, String>)
        ensures
            match outcome {
                Ok(text) => json_text(self@) == Ok::<Seq<char>, Seq<char>>(text@),
                Err(complaint) => json_text(self@) == Err::<Seq<char>, Seq<char>>(complaint@),
            },
    {
        write_text(self)
    }
}

} // verus!
