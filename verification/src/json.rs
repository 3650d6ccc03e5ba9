//! JSON texts, read and written by `serde_json`.

use vstd::prelude::*;

use crate::text::views;

verus! {

/// The text under `field` of a JSON document that is an object with a string there: `Ok(None)` for
/// any other document, and an error for what is no JSON.
pub uninterp spec fn json_text_at(document: Seq<u8>, field: Seq<char>) -> Result<
    Option<Seq<char>>,
    Seq<char>,
>;

/// The spec value of a looked-up text.
pub open spec fn lookup_view(r: Result<Option<String>, String>) -> Result<
    Option<Seq<char>>,
    Seq<char>,
> {
    match r {
        Ok(Some(text)) => Ok(Some(text@)),
        Ok(None) => Ok(None),
        Err(error) => Err(error@),
    }
}

/// `serde_json::from_slice` into a `Value`, then `Value::get` and `Value::as_str`: what comes back
/// is a function of the document and the field.
#[verifier::external_body]
pub(crate) fn json_text_field(document: &[u8], field: &str) -> (r: Result<Option<String>, String>)
    ensures
        lookup_view(r) == json_text_at(document@, field@),
{
    match serde_json::from_slice::<serde_json::Value>(document) {
        Ok(value) => Ok(value.get(field).and_then(|text| text.as_str()).map(|text| text.to_owned())),
        Err(error) => Err(error.to_string()),
    }
}

/// The texts of a JSON array of strings; an error for any other text.
pub uninterp spec fn json_list_of(text: Seq<char>) -> Result<Seq<Seq<char>>, Seq<char>>;

/// The JSON text of an array of strings.
pub uninterp spec fn json_list_text(values: Seq<Seq<char>>) -> Seq<char>;

/// The spec value of a list that was read.
pub open spec fn list_view(r: Result<Vec<String>, String>) -> Result<Seq<Seq<char>>, Seq<char>> {
    match r {
        Ok(list) => Ok(views(list@)),
        Err(error) => Err(error@),
    }
}

/// `serde_json::from_str` into a list of strings: the list, or the error's text, is a function of
/// the text.
#[verifier::external_body]
pub(crate) fn json_read_list(raw: &str) -> (r: Result<Vec<String>, String>)
    ensures
        list_view(r) == json_list_of(raw@),
{
    serde_json::from_str::<Vec<String>>(raw).map_err(|error| error.to_string())
}

/// `serde_json::to_string` of a list of strings: the text is a function of the list, reads back as
/// the same list, and there is no failure.
#[verifier::external_body]
pub(crate) fn json_write_list(values: &Vec<String>) -> (r: Result<String, String>)
    ensures
        r is Ok,
        r->Ok_0@ == json_list_text(views(values@)),
        json_list_of(r->Ok_0@) is Ok,
        json_list_of(r->Ok_0@)->Ok_0 == views(values@),
{
    serde_json::to_string(values).map_err(|error| error.to_string())
}

/// The texts of a JSON array of strings.
pub fn parse_json_list(raw: &str) -> (r: Result<Vec<String>, String>)
    ensures
        list_view(r) == json_list_of(raw@),
{
    json_read_list(raw)
}

/// The JSON text of a list of strings, which reads back as the same list.
pub fn to_json_list(values: &Vec<String>) -> (r: Result<String, String>)
    ensures
        r is Ok,
        r->Ok_0@ == json_list_text(views(values@)),
        json_list_of(r->Ok_0@) == Ok::<Seq<Seq<char>>, Seq<char>>(views(values@)),
{
    json_write_list(values)
}

/// The list that a text holds, or no texts where it holds none.
pub open spec fn json_list_or_empty(text: Seq<char>) -> Seq<Seq<char>> {
    match json_list_of(text) {
        Ok(list) => list,
        Err(_) => Seq::empty(),
    }
}

/// The list that a text holds, or no texts where it holds none.
pub fn parse_json_list_or_empty(raw: &str) -> (r: Vec<String>)
    ensures
        views(r@) == json_list_or_empty(raw@),
{
    match json_read_list(raw) {
        Ok(list) => list,
        Err(_) => {
            let none: Vec<String> = Vec::new();
            assert(views(none@) =~= Seq::<Seq<char>>::empty());
            none
        },
    }
}

/// A list that can be read is used, and one that cannot stands for none.
pub proof fn law_unreadable_lists_are_empty(text: Seq<char>)
    ensures
        json_list_of(text) matches Ok(list) ==> json_list_or_empty(text) == list,
        json_list_of(text) is Err ==> json_list_or_empty(text).len() == 0,
{
}

} // verus!
