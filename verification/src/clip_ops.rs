//! What the one-clip commands decide: liking, deleting, and the public
//! address.

use crate::clip::{Clip, ClipView};
use crate::flow::join3;
use crate::manage::{public_address, public_url};
use vstd::prelude::*;
use vstd::string::StringExecFns;

verus! {

/// The like that a clip gets when its like is switched: the opposite of
/// the one it has. Only a clip with a local file and local data has one.
pub open spec fn switched(clip: ClipView) -> Option<bool> {
    match (clip.liked, clip.local_path) {
        (Some(liked), Some(_)) => Some(!liked),
        _ => None,
    }
}

/// What the user is told when a clip cannot be liked.
pub open spec fn cannot_like(name: Seq<char>) -> Seq<char> {
    "Clip '"@ + name + "' does not exist locally and cannot be liked/unliked."@
}

/// Decides the new like of a clip, or says why it cannot have one.
pub fn like_decision(clip: &Clip) -> (r: Result<bool, String>)
    ensures
        match r {
            Ok(liked) => switched(clip@) == Some(liked),
            Err(text) => switched(clip@) is None && text@ == cannot_like(clip@.name),
        },
{
    match (&clip.liked, &clip.local_path) {
        (Some(liked), Some(_)) => Ok(!*liked),
        _ => Err(
            join3(
                "Clip '",
                clip.name.as_str(),
                "' does not exist locally and cannot be liked/unliked.",
            ),
        ),
    }
}

/// The word for a like in what the user is told.
pub fn like_word(liked: bool) -> (s: String)
    ensures
        s@ == if liked {
            "Liked"@
        } else {
            "Unliked"@
        },
{
    if liked {
        String::from_str("Liked")
    } else {
        String::from_str("Unliked")
    }
}

/// A step of deleting a clip.
#[derive(Clone, Copy, Debug, PartialEq, Eq, Structural)]
pub enum DeleteStep {
    /// Ask whether to delete the hosted copy; the answer defaults to yes.
    AskServer,
    /// Ask whether to delete the local file; the answer defaults to no.
    AskLocal,
    /// Tell the user that there is nothing to delete.
    NothingToDelete,
}

/// The steps of deleting a clip: the hosted copy first, then the local
/// file, each only where it is there.
pub open spec fn delete_steps(clip: ClipView) -> Seq<DeleteStep> {
    if clip.hosted_id is None && clip.local_path is None {
        seq![DeleteStep::NothingToDelete]
    } else {
        (if clip.hosted_id is Some {
            seq![DeleteStep::AskServer]
        } else {
            Seq::empty()
        }) + (if clip.local_path is Some {
            seq![DeleteStep::AskLocal]
        } else {
            Seq::empty()
        })
    }
}

/// Lists the steps of deleting a clip.
pub fn delete_plan(clip: &Clip) -> (v: Vec<DeleteStep>)
    ensures
        v@ == delete_steps(clip@),
{
    let mut v: Vec<DeleteStep> = Vec::new();
    if clip.hosted_id.is_some() {
        v.push(DeleteStep::AskServer);
    }
    if clip.local_path.is_some() {
        v.push(DeleteStep::AskLocal);
    }
    if v.len() == 0 {
        v.push(DeleteStep::NothingToDelete);
    }
    assert(v@ =~= delete_steps(clip@));
    v
}

/// The answer that a question of deleting defaults to.
pub fn delete_default(step: DeleteStep) -> (b: bool)
    ensures
        b == (step == DeleteStep::AskServer),
{
    step == DeleteStep::AskServer
}

/// What the user is told when a clip has no hosted copy.
pub open spec fn not_hosted(name: Seq<char>) -> Seq<char> {
    "'"@ + name + "' is not a hosted clip and does not have a public URL."@
}

/// The public address of a clip, or the reason why it has none.
pub fn hosted_address(api_url: &str, clip: &Clip) -> (r: Result<String, String>)
    ensures
        match r {
            Ok(url) => clip@.hosted_id matches Some(id) && url@ == public_address(api_url@, id),
            Err(text) => clip@.hosted_id is None && text@ == not_hosted(clip@.name),
        },
{
    match &clip.hosted_id {
        Some(id) => Ok(public_url(api_url, id.as_str())),
        None => Err(
            join3(
                "'",
                clip.name.as_str(),
                "' is not a hosted clip and does not have a public URL.",
            ),
        ),
    }
}

} // verus!
