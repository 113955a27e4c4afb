//! Sharing a clip: the service answers with the public address, whose last
//! segment is the id of the hosted copy.

use crate::flow::{join, join3};
use crate::split::{split, split_chars, views};
use crate::text::{chars_of, string_of};
use vstd::prelude::*;

verus! {

/// What `uuid` makes of a text: the id in its canonical form, lower-case
/// hexadecimal digits in five groups, or the parser's complaint.
pub uninterp spec fn uuid_of(text: Seq<char>) -> Result<Seq<char>, Seq<char>>;

/// The view of what parsing an id gave.
pub open spec fn id_view(r: Result<String, String>) -> Result<Seq<char>, Seq<char>> {
    match r {
        Ok(id) => Ok(id@),
        Err(e) => Err(e@),
    }
}

/// Parses `text` with `uuid::Uuid::parse_str` and writes the id, or the
/// error, as text. Nothing is claimed about which texts are ids, only that
/// the answer depends on `text` alone.
#[verifier::external_body]
fn parse_uuid(text: &str) -> (r: Result<String, String>)
    ensures
        id_view(r) == uuid_of(text@),
{
    uuid::Uuid::parse_str(text).map(|id| id.to_string()).map_err(|e| e.to_string())
}

/// The last segment of an address: what follows its last slash, or all of
/// it where it has none.
pub open spec fn last_segment(url: Seq<char>) -> Seq<char> {
    split(url, '/').last()
}

/// Takes the last segment of an address.
pub fn id_segment(url: &str) -> (s: String)
    ensures
        s@ == last_segment(url@),
{
    let parts = split_chars(&chars_of(url), '/');
    let n = parts.len() - 1;
    assert(views(parts@)[n as int] == parts@[n as int]@);
    string_of(&parts[n])
}

/// The id of the hosted copy that a public address names.
pub open spec fn shared_id(url: Seq<char>) -> Result<Seq<char>, Seq<char>> {
    uuid_of(last_segment(url))
}

/// Reads the id of the hosted copy out of the public address that the
/// service answered with.
pub fn hosted_id_of(url: &str) -> (r: Result<String, String>)
    ensures
        id_view(r) == shared_id(url@),
{
    let segment = id_segment(url);
    parse_uuid(segment.as_str())
}

/// What the user is told when a clip has no local file.
pub fn not_local(name: &str) -> (s: String)
    ensures
        s@ == "Clip '"@ + name@ + "' not found locally."@,
{
    join3("Clip '", name, "' not found locally.")
}

/// What the user is told when sharing failed; `cause` is the service's
/// complaint.
pub fn share_failure(cause: &str) -> (s: String)
    ensures
        s@ == "Failed to share clip: "@ + cause@,
{
    join("Failed to share clip: ", cause)
}

} // verus!
