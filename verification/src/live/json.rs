//! JSON documents as plain data.
//!
//! The text of a response body is parsed by `serde_json`; what it yields is
//! copied into [`Json`], a tree of plain values that the decoders read. The
//! mathematical value of a tree is its [`JsonView`].

use vstd::prelude::*;

verus! {

/// A JSON number: its value where it is an integer that fits in `i64`, and
/// the decimal text that stands for it in every case.
#[derive(Debug, PartialEq, Eq)]
pub struct Number {
    pub integer: Option<i64>,
    pub text: String,
}

/// A JSON document.
#[derive(Debug, PartialEq, Eq)]
pub enum Json {
    Null,
    Bool(bool),
    Number(Number),
    Text(String),
    Array(Vec<Json>),
    Object(Vec<(String, Json)>),
}

/// The mathematical value of a [`Number`].
pub ghost struct NumberView {
    pub integer: Option<i64>,
    pub text: Seq<char>,
}

/// The mathematical value of a [`Json`] document.
pub ghost enum JsonView {
    Null,
    Bool(bool),
    Number(NumberView),
    Text(Seq<char>),
    Array(Seq<JsonView>),
    Object(Seq<(Seq<char>, JsonView)>),
}

impl DeepView for Number {
    type V = NumberView;

    open spec fn deep_view(&self) -> NumberView {
        NumberView { integer: self.integer, text: self.text@ }
    }
}

impl DeepView for Json {
    type V = JsonView;

    open spec fn deep_view(&self) -> JsonView
        decreases self,
    {
        match self {
            Json::Null => JsonView::Null,
            Json::Bool(b) => JsonView::Bool(*b),
            Json::Number(n) => JsonView::Number(n.deep_view()),
            Json::Text(s) => JsonView::Text(s@),
            Json::Array(items) => JsonView::Array(
                Seq::new(
                    items@.len(),
                    |i: int|
                        if 0 <= i < items@.len() {
                            items@[i].deep_view()
                        } else {
                            JsonView::Null
                        },
                ),
            ),
            Json::Object(members) => JsonView::Object(
                Seq::new(
                    members@.len(),
                    |i: int|
                        if 0 <= i < members@.len() {
                            (members@[i].0@, members@[i].1.deep_view())
                        } else {
                            (Seq::empty(), JsonView::Null)
                        },
                ),
            ),
        }
    }
}

/// The value of an array is the sequence of its items' values.
pub proof fn lemma_array_view(items: Vec<Json>)
    ensures
        Json::Array(items).deep_view() == JsonView::Array(items.deep_view()),
{
    reveal_with_fuel(<Json as DeepView>::deep_view, 2);
    assert(Json::Array(items).deep_view()->Array_0 =~= items.deep_view());
}

/// The value of an object is the sequence of its members' names and values.
pub proof fn lemma_object_view(members: Vec<(String, Json)>)
    ensures
        Json::Object(members).deep_view() == JsonView::Object(members.deep_view()),
{
    reveal_with_fuel(<Json as DeepView>::deep_view, 2);
    assert(Json::Object(members).deep_view()->Object_0 =~= members.deep_view());
}

/// What `serde_json::from_slice` makes of `body` as a `serde_json::Value`,
/// seen as a [`JsonView`]; `None` where it reports an error.
pub uninterp spec fn parsed_document(body: Seq<u8>) -> Option<JsonView>;

#[verifier::external_type_specification]
#[verifier::external_body]
pub struct ExValue(serde_json::Value);

/// Copies a `serde_json::Value` into a [`Json`], variant by variant. A number
/// keeps what `Number::as_i64` returns and the text that `Number`'s `Display`
/// writes; an object keeps its members in the order in which
/// `serde_json::Map` hands them out. Nothing is claimed of the result here:
/// `parse_document` names it.
#[verifier::external_body]
fn json_from_value(value: serde_json::Value) -> Json {
    match value {
        serde_json::Value::Null => Json::Null,
        serde_json::Value::Bool(b) => Json::Bool(b),
        serde_json::Value::Number(n) => Json::Number(
            Number { integer: n.as_i64(), text: n.to_string() },
        ),
        serde_json::Value::String(s) => Json::Text(s),
        serde_json::Value::Array(items) => Json::Array(
            items.into_iter().map(json_from_value).collect(),
        ),
        serde_json::Value::Object(members) => Json::Object(
            members.into_iter().map(|(k, v)| (k, json_from_value(v))).collect(),
        ),
    }
}

/// Calls `serde_json::from_slice` for a `serde_json::Value`. The contract
/// claims only that the document is a function of the bytes: equal bodies
/// give equal documents, and a body that one call rejects every call rejects.
#[verifier::external_body]
pub(crate) fn parse_document(body: &[u8]) -> (document: Option<Json>)
    ensures
        document.deep_view() == parsed_document(body@),
{
    serde_json::from_slice::<serde_json::Value>(body).ok().map(json_from_value)
}

/// The value of the first member of `members` at or after `start` whose name is `key`.
pub open spec fn member_from(
    members: Seq<(Seq<char>, JsonView)>,
    key: Seq<char>,
    start: int,
) -> Option<JsonView>
    decreases members.len() - start,
{
    if start < 0 || start >= members.len() {
        None
    } else if members[start].0 == key {
        Some(members[start].1)
    } else {
        member_from(members, key, start + 1)
    }
}

/// The value of the first member of `members` whose name is `key`.
pub open spec fn member(members: Seq<(Seq<char>, JsonView)>, key: Seq<char>) -> Option<JsonView> {
    member_from(members, key, 0)
}

/// Looks up the first member named `key`.
pub fn find_member<'a>(members: &'a Vec<(String, Json)>, key: &str) -> (found: Option<&'a Json>)
    ensures
        found.deep_view() == member(members.deep_view(), key@),
{
    let wanted = String::from_str(key);
    let mut i: usize = 0;
    while i < members.len()
        invariant
            i <= members.len(),
            wanted@ == key@,
            member(members.deep_view(), key@) == member_from(members.deep_view(), key@, i as int),
        decreases members.len() - i,
    {
        if members[i].0 == wanted {
            return Some(&members[i].1);
        }
        i += 1;
    }
    None
}

} // verus!
