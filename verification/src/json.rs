//! The JSON documents the registry answers with, read through `serde_json`.
//!
//! A parsed document stays a `serde_json::Value`. Contracts speak of it only
//! through the texts it holds: for every path of member names that leads from
//! the document's root to a JSON string, the characters of that string.

use vstd::prelude::*;

verus! {

#[verifier::external_type_specification]
#[verifier::external_body]
pub struct ExJsonValue(serde_json::Value);

#[verifier::external_type_specification]
#[verifier::external_body]
pub struct ExJsonError(serde_json::Error);

/// The texts of a JSON value, keyed by path.
pub type JsonTexts = Map<Seq<Seq<char>>, Seq<char>>;

/// The texts that `value` holds: a path of member names is a key exactly when
/// following it from `value`, one object member per name, ends at a JSON
/// string, and it then maps to that string. The empty path is a key exactly
/// when `value` is itself a string.
pub uninterp spec fn json_texts(value: serde_json::Value) -> Map<Seq<Seq<char>>, Seq<char>>;

/// The texts of the document that `serde_json::from_slice` reads from `body`,
/// or `None` where it reports an error.
pub uninterp spec fn parsed_json_texts(body: Seq<u8>) -> Option<Map<Seq<Seq<char>>, Seq<char>>>;

/// The texts found below the member `name`: a path is a key exactly when the
/// path that starts with `name` and goes on with it is a key of `texts`.
pub open spec fn texts_under(texts: JsonTexts, name: Seq<char>) -> JsonTexts {
    Map::new(
        |path: Seq<Seq<char>>| texts.contains_key(seq![name] + path),
        |path: Seq<Seq<char>>| texts[seq![name] + path],
    )
}

/// Calls `serde_json::from_slice` for a `serde_json::Value`. Trusted: parsing
/// depends on the bytes alone, so the outcome is the one that
/// `parsed_json_texts` names; a document comes back exactly when that is
/// `Some`, and it holds those texts.
#[verifier::external_body]
pub(crate) fn parse_document(body: &[u8]) -> (parsed: Result<serde_json::Value, serde_json::Error>)
    ensures
        (match parsed {
            Ok(document) => parsed_json_texts(body@) == Some(json_texts(document)),
            Err(_) => parsed_json_texts(body@) is None,
        }),
{
    serde_json::from_slice::<serde_json::Value>(body)
}

/// Indexes a `serde_json::Value` by a member name (`value[name]`). Trusted:
/// the result is the member of that name where `value` is an object that has
/// one, and JSON `null` otherwise; either way it holds the texts that `value`
/// holds below `name`.
#[verifier::external_body]
pub(crate) fn member<'a>(value: &'a serde_json::Value, name: &str) -> (found: &'a serde_json::Value)
    ensures
        json_texts(*found) == texts_under(json_texts(*value), name@),
{
    &value[name]
}

/// Calls `serde_json::Value::as_str`. Trusted: the result is `Some` exactly
/// when `value` is a JSON string, and then it is that string.
#[verifier::external_body]
pub(crate) fn text_of<'a>(value: &'a serde_json::Value) -> (text: Option<&'a str>)
    ensures
        text is Some <==> json_texts(*value).contains_key(Seq::empty()),
        text is Some ==> text->0@ == json_texts(*value)[Seq::empty()],
{
    value.as_str()
}

/// The text at the end of a two-member path, read off a document's texts.
pub open spec fn text_at(texts: JsonTexts, outer: Seq<char>, inner: Seq<char>) -> Option<Seq<char>> {
    if texts.contains_key(seq![outer, inner]) {
        Some(texts[seq![outer, inner]])
    } else {
        None
    }
}

/// Looking below `outer` and then below `inner` reaches the root text of the
/// remainder exactly when the two-member path is a key of `texts`.
pub proof fn lemma_texts_under_twice(texts: JsonTexts, outer: Seq<char>, inner: Seq<char>)
    ensures
        texts_under(texts_under(texts, outer), inner).contains_key(Seq::empty())
            <==> texts.contains_key(seq![outer, inner]),
        texts_under(texts_under(texts, outer), inner).contains_key(Seq::empty())
            ==> texts_under(texts_under(texts, outer), inner)[Seq::empty()] == texts[seq![outer, inner]],
{
    let root = Seq::<Seq<char>>::empty();
    assert(seq![inner] + root =~= seq![inner]);
    assert(seq![outer] + seq![inner] =~= seq![outer, inner]);
}

} // verus!
