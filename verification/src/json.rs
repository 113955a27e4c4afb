//! Reading the members of a JSON document. The reading itself is
//! `serde_json`'s; this module names what it finds.

use vstd::prelude::*;

verus! {

/// What a JSON document holds under one key, as far as the client reads it.
#[derive(Clone, Debug)]
pub enum Member {
    /// The document is no object, or has no such key.
    Absent,
    /// A string.
    Text(String),
    /// `true` or `false`.
    Flag(bool),
    /// An array; each item is its text where it is a string.
    List(Vec<Option<String>>),
    /// Anything else: a number, `null`, an object.
    Other,
}

/// A `Member` as contracts see it.
pub enum MemberView {
    Absent,
    Text(Seq<char>),
    Flag(bool),
    List(Seq<Option<Seq<char>>>),
    Other,
}

/// The items of a list as contracts see them.
pub open spec fn items_view(items: Seq<Option<String>>) -> Seq<Option<Seq<char>>> {
    Seq::new(
        items.len(),
        |i: int|
            match items[i] {
                Some(s) => Some(s@),
                None => None,
            },
    )
}

impl View for Member {
    type V = MemberView;

    open spec fn view(&self) -> MemberView {
        match self {
            Member::Absent => MemberView::Absent,
            Member::Text(s) => MemberView::Text(s@),
            Member::Flag(b) => MemberView::Flag(*b),
            Member::List(items) => MemberView::List(items_view(items@)),
            Member::Other => MemberView::Other,
        }
    }
}

/// The view of what a reading gave: a member, or the parser's complaint.
pub open spec fn reading_view(r: Result<Member, String>) -> Result<MemberView, Seq<char>> {
    match r {
        Ok(m) => Ok(m@),
        Err(e) => Err(e@),
    }
}

/// What `serde_json` finds under `key` in the document `text`: the member,
/// or, where `text` is no JSON document, the parser's complaint.
pub uninterp spec fn json_member(text: Seq<char>, key: Seq<char>) -> Result<
    MemberView,
    Seq<char>,
>;

/// Parses `text` with `serde_json::from_str` and looks `key` up with
/// `Value::get`. Nothing is claimed about which texts parse or what they
/// hold, only that the answer depends on `text` and `key` alone.
#[verifier::external_body]
pub(crate) fn read_member(text: &str, key: &str) -> (r: Result<Member, String>)
    ensures
        reading_view(r) == json_member(text@, key@),
{
    let doc: serde_json::Value = serde_json::from_str(text).map_err(|e| e.to_string())?;
    Ok(
        match doc.get(key) {
            None => Member::Absent,
            Some(serde_json::Value::String(s)) => Member::Text(s.clone()),
            Some(serde_json::Value::Bool(b)) => Member::Flag(*b),
            Some(serde_json::Value::Array(a)) => Member::List(
                a.iter().map(|x| x.as_str().map(String::from)).collect(),
            ),
            Some(_) => Member::Other,
        },
    )
}

/// The text of a member that is a string.
pub open spec fn text_of(m: MemberView) -> Option<Seq<char>> {
    match m {
        MemberView::Text(s) => Some(s),
        _ => None,
    }
}

/// The member that a reading gave; `Absent` where the document did not
/// parse.
pub open spec fn member_or_absent(r: Result<MemberView, Seq<char>>) -> MemberView {
    match r {
        Ok(m) => m,
        Err(_) => MemberView::Absent,
    }
}

/// What a reading gave, taking a document that does not parse for an empty
/// one.
pub fn lenient(r: Result<Member, String>) -> (m: Member)
    ensures
        m@ == member_or_absent(reading_view(r)),
{
    match r {
        Ok(m) => m,
        Err(_) => Member::Absent,
    }
}

} // verus!
