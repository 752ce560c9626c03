//! JSON texts kept in the database: lists of strings, and the short object that
//! is stored for each album.

use crate::text::texts;
use vstd::prelude::*;

verus! {

/// The list of strings that a JSON text denotes, if it is an array of strings.
pub uninterp spec fn json_list(text: Seq<char>) -> Option<Seq<Seq<char>>>;

/// The JSON array of a list of strings, as `serde_json` writes it.
pub uninterp spec fn json_list_text(items: Seq<Seq<char>>) -> Seq<char>;

/// The JSON string of a text, quotes included, as `serde_json` writes it.
pub uninterp spec fn json_string_text(text: Seq<char>) -> Seq<char>;

/// `serde_json::from_str::<Vec<String>>`: the strings of a JSON array, or `None`
/// where the text is anything else. Which texts are arrays of strings is left to
/// `serde_json`.
#[verifier::external_body]
pub(crate) fn read_json_list(text: &str) -> (items: Option<Vec<String>>)
    ensures
        match items {
            Some(v) => json_list(text@) == Some(texts(v@)),
            None => json_list(text@) is None,
        },
{
    serde_json::from_str::<Vec<String>>(text).ok()
}

/// `serde_json::to_string` on a list of strings, which does not fail (it can
/// only where a `Serialize` impl fails or a map has keys that are no strings).
/// Reading the text gives the list back.
#[verifier::external_body]
pub(crate) fn write_json_list(items: &Vec<String>) -> (text: String)
    ensures
        text@ == json_list_text(texts(items@)),
        json_list(text@) == Some(texts(items@)),
{
    serde_json::to_string(items).unwrap_or_default()
}

/// `serde_json::to_string` on a string, which does not fail either.
#[verifier::external_body]
pub(crate) fn write_json_string(text: &str) -> (out: String)
    ensures
        out@ == json_string_text(text@),
{
    serde_json::to_string(text).unwrap_or_default()
}

/// The strings of a stored JSON array; none where the text is no such array.
pub open spec fn stored_list(text: Seq<char>) -> Seq<Seq<char>> {
    match json_list(text) {
        Some(items) => items,
        None => Seq::empty(),
    }
}

/// The strings of a stored JSON array; none where the text is no such array.
pub fn read_stored_list(text: &str) -> (items: Vec<String>)
    ensures
        texts(items@) == stored_list(text@),
{
    match read_json_list(text) {
        Some(items) => items,
        None => {
            let none: Vec<String> = Vec::new();
            assert(texts(none@) =~= Seq::<Seq<char>>::empty());
            none
        },
    }
}

/// The object stored as an album's raw JSON: its identifier and its name.
pub open spec fn album_raw(id: Seq<char>, name: Seq<char>) -> Seq<char> {
    "{\"id\":"@ + json_string_text(id) + ",\"name\":"@ + json_string_text(name) + "}"@
}

/// The object stored as an album's raw JSON.
pub fn write_album_raw(id: &str, name: &str) -> (text: String)
    ensures
        text@ == album_raw(id@, name@),
{
    let mut text = "{\"id\":".to_string();
    text.append(write_json_string(id).as_str());
    text.append(",\"name\":");
    text.append(write_json_string(name).as_str());
    text.append("}");
    text
}

/// A stored list is what its JSON array lists, and empty where there is no array.
pub proof fn law_stored_list(text: &str, items: Vec<String>)
    requires
        call_ensures(read_stored_list, (text,), items),
    ensures
        json_list(text@) matches Some(list) ==> items@.len() == list.len() && forall|i: int|
            0 <= i < list.len() ==> (#[trigger] items@[i])@ == list[i],
        json_list(text@) is None ==> items@.len() == 0,
{
    assert(texts(items@).len() == items@.len());
    assert forall|i: int| 0 <= i < items@.len() implies (#[trigger] items@[i])@ == stored_list(
        text@,
    )[i] by {
        assert(texts(items@)[i] == items@[i]@);
    }
}

/// The raw JSON of an album is an object with the identifier and the name as
/// JSON strings.
pub proof fn law_raw_json_of_an_album(id: &str, name: &str, text: String)
    requires
        call_ensures(write_album_raw, (id, name), text),
    ensures
        text@ == "{\"id\":"@ + json_string_text(id@) + ",\"name\":"@ + json_string_text(name@)
            + "}"@,
{
}

} // verus!
