//! The picture lists of projects are stored as JSON arrays of strings;
//! `serde_json` reads and writes them.

use vstd::prelude::*;

verus! {

/// What `serde_json::from_str::<Vec<String>>` gives for a text: the list, or
/// the message of the error.
pub uninterp spec fn json_string_list(text: Seq<char>) -> Result<Seq<Seq<char>>, Seq<char>>;

/// What `serde_json::to_string` gives for a list of strings: its JSON text.
pub uninterp spec fn json_text(list: Seq<Seq<char>>) -> Seq<char>;

/// `serde_json::from_str::<Vec<String>>`: reads a JSON array of strings.
/// The contract claims only that the result is the named one for the text.
#[verifier::external_body]
pub fn parse_string_list(text: &str) -> (r: Result<Vec<String>, String>)
    ensures
        match r {
            Ok(v) => json_string_list(text@) == Ok::<Seq<Seq<char>>, Seq<char>>(v.deep_view()),
            Err(m) => json_string_list(text@) == Err::<Seq<Seq<char>>, Seq<char>>(m@),
        },
{
    serde_json::from_str::<Vec<String>>(text).map_err(|e| e.to_string())
}

/// `serde_json::to_string` on a list of strings. The contract claims that
/// the call succeeds (its documentation names only a failing `Serialize`
/// impl and maps with non-string keys as causes of failure, and strings and
/// sequences have neither), that the text is the named one for the list, and
/// that `serde_json::from_str::<Vec<String>>` reads that text back as the
/// same list (a JSON string escape stands for exactly the character escaped).
#[verifier::external_body]
pub fn string_list_json(list: &Vec<String>) -> (r: Result<String, String>)
    ensures
        r is Ok,
        r matches Ok(t) ==> t@ == json_text(list.deep_view()),
        r matches Ok(t) ==> (json_string_list(t@) matches Ok(back) && back == list.deep_view()),
{
    serde_json::to_string(list).map_err(|e| e.to_string())
}

/// The JSON text of a list of strings.
pub fn list_json(list: &Vec<String>) -> (t: String)
    ensures
        t@ == json_text(list.deep_view()),
        json_string_list(t@) == Ok::<Seq<Seq<char>>, Seq<char>>(list.deep_view()),
{
    match string_list_json(list) {
        Ok(t) => t,
        Err(_) => {
            proof {
                assert(false);
            }
            String::new()
        },
    }
}

/// The list a stored JSON text holds, or the empty list where it holds none.
pub open spec fn list_or_empty(text: Seq<char>) -> Seq<Seq<char>> {
    match json_string_list(text) {
        Ok(v) => v,
        Err(_) => Seq::empty(),
    }
}

/// Reads a stored picture list; text that is no JSON list of strings counts
/// as the empty list.
pub fn pictures_or_empty(text: &str) -> (v: Vec<String>)
    ensures
        v.deep_view() == list_or_empty(text@),
{
    match parse_string_list(text) {
        Ok(v) => v,
        Err(_) => {
            let v: Vec<String> = Vec::new();
            assert(v.deep_view() =~= Seq::<Seq<char>>::empty());
            v
        },
    }
}

} // verus!
