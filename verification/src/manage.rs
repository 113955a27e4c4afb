//! The clip manager: its menus, what they offer for a clip, and what each
//! choice means.

use crate::clip::{clip_views, Clip, ClipView, Instant};
use crate::flow::{join3, push_line, texts};
use crate::model::ClipDisplay;
use crate::order::SortOrder;
use crate::text::{chars_of, same_chars};
use crate::validate::{filename_stem, sanitize_and_validate_filename_stem, NameError};
use vstd::prelude::*;
use vstd::string::StringExecFns;

verus! {

/// What the user chose in the sort menu.
#[derive(Clone, Copy, Debug, PartialEq, Eq, Structural)]
pub enum SortChoice {
    /// List the clips in this order.
    Sort(SortOrder),
    /// Gather the clips anew.
    Refresh,
    /// Leave the manager.
    Quit,
}

/// The entries of the sort menu, in the order shown.
pub open spec fn sort_labels() -> Seq<Seq<char>> {
    seq![
        "Date (Newest First)"@,
        "Name (A-Z)"@,
        "Liked First"@,
        "Hosted First"@,
        "[Refresh List]"@,
        "[Quit]"@,
    ]
}

/// What an entry of the sort menu stands for; anything that is no entry
/// leaves the manager.
pub open spec fn sort_choice_of(label: Seq<char>) -> SortChoice {
    if label == "Date (Newest First)"@ {
        SortChoice::Sort(SortOrder::NewestFirst)
    } else if label == "Name (A-Z)"@ {
        SortChoice::Sort(SortOrder::NameAscending)
    } else if label == "Liked First"@ {
        SortChoice::Sort(SortOrder::LikedFirst)
    } else if label == "Hosted First"@ {
        SortChoice::Sort(SortOrder::HostedFirst)
    } else if label == "[Refresh List]"@ {
        SortChoice::Refresh
    } else {
        SortChoice::Quit
    }
}

/// The entries of the sort menu.
pub fn sort_options() -> (v: Vec<String>)
    ensures
        texts(v@) == sort_labels(),
{
    let mut v: Vec<String> = Vec::new();
    push_line(&mut v, String::from_str("Date (Newest First)"));
    push_line(&mut v, String::from_str("Name (A-Z)"));
    push_line(&mut v, String::from_str("Liked First"));
    push_line(&mut v, String::from_str("Hosted First"));
    push_line(&mut v, String::from_str("[Refresh List]"));
    push_line(&mut v, String::from_str("[Quit]"));
    assert(texts(v@) =~= sort_labels());
    v
}

/// Tells whether `choice` is the text `entry`.
fn is_entry(choice: &Vec<char>, entry: &str) -> (b: bool)
    ensures
        b == (choice@ == entry@),
{
    same_chars(choice, &chars_of(entry))
}

/// Reads the user's choice in the sort menu.
pub fn sort_choice(label: &str) -> (c: SortChoice)
    ensures
        c == sort_choice_of(label@),
{
    let l = chars_of(label);
    if is_entry(&l, "Date (Newest First)") {
        SortChoice::Sort(SortOrder::NewestFirst)
    } else if is_entry(&l, "Name (A-Z)") {
        SortChoice::Sort(SortOrder::NameAscending)
    } else if is_entry(&l, "Liked First") {
        SortChoice::Sort(SortOrder::LikedFirst)
    } else if is_entry(&l, "Hosted First") {
        SortChoice::Sort(SortOrder::HostedFirst)
    } else if is_entry(&l, "[Refresh List]") {
        SortChoice::Refresh
    } else {
        SortChoice::Quit
    }
}

/// A clip is new for a day: as long as less than twenty-four hours lie
/// between its making and `now`.
pub open spec fn is_new(created: Instant, now: Instant) -> bool {
    now.total() - created.total() < 86_400_000_000_000
}

/// Tells whether a clip made at `created` is new at `now`.
pub fn new_at(created: Instant, now: Instant) -> (b: bool)
    ensures
        b == is_new(created, now),
{
    let seconds: i128 = now.secs as i128 - created.secs as i128;
    let nanos: i128 = now.nanos as i128 - created.nanos as i128;
    seconds * 1_000_000_000 + nanos < 86_400_000_000_000
}

/// The line of the clip menu for a clip: a mark for a local file, a mark
/// for a hosted copy, `liked_mark` where the clip is liked, the name, and
/// `new_mark` where the clip is new.
pub open spec fn display_text(
    clip: ClipView,
    now: Instant,
    liked_mark: Seq<char>,
    new_mark: Seq<char>,
) -> Seq<char> {
    (if clip.local_path is Some {
        "⌨"@
    } else {
        "  "@
    }) + " "@ + (if clip.is_hosted {
        "☁"@
    } else {
        "  "@
    }) + " "@ + (if clip.is_liked() {
        liked_mark
    } else {
        Seq::empty()
    }) + clip.name + (if is_new(clip.created_at, now) {
        new_mark
    } else {
        Seq::empty()
    })
}

/// Writes the line of the clip menu for a clip.
pub fn generate_display_string(clip: &Clip, now: Instant, liked_mark: &str, new_mark: &str) -> (s:
    String)
    ensures
        s@ == display_text(clip@, now, liked_mark@, new_mark@),
{
    let mut s = String::from_str(
        if clip.local_path.is_some() {
            "⌨"
        } else {
            "  "
        },
    );
    s.append(" ");
    s.append(
        if clip.is_hosted {
            "☁"
        } else {
            "  "
        },
    );
    s.append(" ");
    if clip.is_liked() {
        s.append(liked_mark);
    } else {
        assert(s@ + Seq::<char>::empty() == s@);
    }
    s.append(clip.name.as_str());
    if new_at(clip.created_at, now) {
        s.append(new_mark);
    } else {
        assert(s@ + Seq::<char>::empty() == s@);
    }
    s
}

/// The clip menu: one line for each clip, in order.
pub fn display_items(clips: &Vec<Clip>, now: Instant, liked_mark: &str, new_mark: &str) -> (v: Vec<
    ClipDisplay,
>)
    ensures
        v.len() == clips.len(),
        forall|i: int|
            0 <= i < v.len() ==> (#[trigger] v@[i]).name@ == clips@[i]@.name
                && v@[i].display_string@ == display_text(clips@[i]@, now, liked_mark@, new_mark@),
{
    let mut v: Vec<ClipDisplay> = Vec::new();
    let mut i: usize = 0;
    while i < clips.len()
        invariant
            i <= clips.len(),
            v.len() == i,
            forall|j: int|
                0 <= j < i ==> (#[trigger] v@[j]).name@ == clips@[j]@.name
                    && v@[j].display_string@ == display_text(
                    clips@[j]@,
                    now,
                    liked_mark@,
                    new_mark@,
                ),
        decreases clips.len() - i,
    {
        v.push(
            ClipDisplay {
                name: clips[i].name.clone(),
                display_string: generate_display_string(&clips[i], now, liked_mark, new_mark),
            },
        );
        i += 1;
    }
    v
}

/// The index of the first clip with exactly this name; the number of
/// clips where there is none.
pub open spec fn index_of_exact(clips: Seq<ClipView>, name: Seq<char>) -> int
    decreases clips.len(),
{
    if clips.len() == 0 || clips[0].name == name {
        0
    } else {
        1 + index_of_exact(clips.drop_first(), name)
    }
}

/// Finds the clip that a line of the clip menu stands for: the first with
/// exactly the line's name.
pub fn selected_index(clips: &Vec<Clip>, name: &str) -> (r: Option<usize>)
    ensures
        match r {
            Some(i) => i < clips.len() && i == index_of_exact(clip_views(clips@), name@),
            None => index_of_exact(clip_views(clips@), name@) == clips.len(),
        },
{
    let wanted = chars_of(name);
    let mut i: usize = 0;
    assert(clip_views(clips@).skip(0) == clip_views(clips@));
    while i < clips.len()
        invariant
            i <= clips.len(),
            wanted@ == name@,
            index_of_exact(clip_views(clips@), name@) == i + index_of_exact(
                clip_views(clips@).skip(i as int),
                name@,
            ),
        decreases clips.len() - i,
    {
        let ghost rest = clip_views(clips@).skip(i as int);
        assert(rest[0] == clips@[i as int]@);
        assert(rest.drop_first() == clip_views(clips@).skip(i + 1));
        if same_chars(&chars_of(clips[i].name.as_str()), &wanted) {
            return Some(i);
        }
        i += 1;
    }
    None
}

/// What can be done with a clip.
#[derive(Clone, Copy, Debug, PartialEq, Eq, Structural)]
pub enum ManageAction {
    OpenUrl,
    CopyUrl,
    View,
    Rename,
    Edit,
    CopyName,
    Unlike,
    Like,
    Share,
    DeleteServer,
    DeleteLocal,
    Back,
}

impl ManageAction {
    /// The entry of the action menu.
    pub open spec fn label(self) -> Seq<char> {
        match self {
            ManageAction::OpenUrl => "⌂ Open URL"@,
            ManageAction::CopyUrl => "☐ Copy URL"@,
            ManageAction::View => "▷ View Local File"@,
            ManageAction::Rename => "✎ Rename"@,
            ManageAction::Edit => "✎ Edit"@,
            ManageAction::CopyName => "⎘ Copy Name"@,
            ManageAction::Unlike => "♡ Unlike"@,
            ManageAction::Like => "♥ Like"@,
            ManageAction::Share => "↗ Share"@,
            ManageAction::DeleteServer => "⌫ Delete Server Copy"@,
            ManageAction::DeleteLocal => "⌫ Delete Local File"@,
            ManageAction::Back => "← Back to Clip List"@,
        }
    }

    /// The entry of the action menu.
    pub fn to_label(&self) -> (s: String)
        ensures
            s@ == self.label(),
    {
        match self {
            ManageAction::OpenUrl => String::from_str("⌂ Open URL"),
            ManageAction::CopyUrl => String::from_str("☐ Copy URL"),
            ManageAction::View => String::from_str("▷ View Local File"),
            ManageAction::Rename => String::from_str("✎ Rename"),
            ManageAction::Edit => String::from_str("✎ Edit"),
            ManageAction::CopyName => String::from_str("⎘ Copy Name"),
            ManageAction::Unlike => String::from_str("♡ Unlike"),
            ManageAction::Like => String::from_str("♥ Like"),
            ManageAction::Share => String::from_str("↗ Share"),
            ManageAction::DeleteServer => String::from_str("⌫ Delete Server Copy"),
            ManageAction::DeleteLocal => String::from_str("⌫ Delete Local File"),
            ManageAction::Back => String::from_str("← Back to Clip List"),
        }
    }
}

/// What the action menu offers for a clip, in the order shown: the address
/// of a hosted copy; viewing, renaming, editing, the name and the like of a
/// local file; sharing a local file that is not hosted; deleting what is
/// there; and the way back.
pub open spec fn actions_for(clip: ClipView) -> Seq<ManageAction> {
    let local = clip.local_path is Some;
    (if clip.is_hosted {
        seq![ManageAction::OpenUrl, ManageAction::CopyUrl]
    } else {
        Seq::empty()
    }) + (if local {
        seq![
            ManageAction::View,
            ManageAction::Rename,
            ManageAction::Edit,
            ManageAction::CopyName,
            if clip.is_liked() {
                ManageAction::Unlike
            } else {
                ManageAction::Like
            },
        ]
    } else {
        Seq::empty()
    }) + (if !clip.is_hosted && local {
        seq![ManageAction::Share]
    } else {
        Seq::empty()
    }) + (if clip.is_hosted {
        seq![ManageAction::DeleteServer]
    } else {
        Seq::empty()
    }) + (if local {
        seq![ManageAction::DeleteLocal]
    } else {
        Seq::empty()
    }) + seq![ManageAction::Back]
}

/// The actions that the menu offers for a clip.
pub fn clip_actions(clip: &Clip) -> (v: Vec<ManageAction>)
    ensures
        v@ == actions_for(clip@),
{
    let local = clip.local_path.is_some();
    let mut v: Vec<ManageAction> = Vec::new();
    if clip.is_hosted {
        v.push(ManageAction::OpenUrl);
        v.push(ManageAction::CopyUrl);
    }
    if local {
        v.push(ManageAction::View);
        v.push(ManageAction::Rename);
        v.push(ManageAction::Edit);
        v.push(ManageAction::CopyName);
        if clip.is_liked() {
            v.push(ManageAction::Unlike);
        } else {
            v.push(ManageAction::Like);
        }
    }
    if !clip.is_hosted && local {
        v.push(ManageAction::Share);
    }
    if clip.is_hosted {
        v.push(ManageAction::DeleteServer);
    }
    if local {
        v.push(ManageAction::DeleteLocal);
    }
    v.push(ManageAction::Back);
    assert(v@ =~= actions_for(clip@));
    v
}

/// The action that an entry of the action menu stands for.
pub open spec fn action_for_label(label: Seq<char>) -> Option<ManageAction> {
    if label == ManageAction::OpenUrl.label() {
        Some(ManageAction::OpenUrl)
    } else if label == ManageAction::CopyUrl.label() {
        Some(ManageAction::CopyUrl)
    } else if label == ManageAction::View.label() {
        Some(ManageAction::View)
    } else if label == ManageAction::Rename.label() {
        Some(ManageAction::Rename)
    } else if label == ManageAction::Edit.label() {
        Some(ManageAction::Edit)
    } else if label == ManageAction::CopyName.label() {
        Some(ManageAction::CopyName)
    } else if label == ManageAction::Unlike.label() {
        Some(ManageAction::Unlike)
    } else if label == ManageAction::Like.label() {
        Some(ManageAction::Like)
    } else if label == ManageAction::Share.label() {
        Some(ManageAction::Share)
    } else if label == ManageAction::DeleteServer.label() {
        Some(ManageAction::DeleteServer)
    } else if label == ManageAction::DeleteLocal.label() {
        Some(ManageAction::DeleteLocal)
    } else if label == ManageAction::Back.label() {
        Some(ManageAction::Back)
    } else {
        None
    }
}

/// Reads the user's choice in the action menu.
pub fn action_of(label: &str) -> (a: Option<ManageAction>)
    ensures
        a == action_for_label(label@),
{
    let l = chars_of(label);
    if is_entry(&l, "⌂ Open URL") {
        Some(ManageAction::OpenUrl)
    } else if is_entry(&l, "☐ Copy URL") {
        Some(ManageAction::CopyUrl)
    } else if is_entry(&l, "▷ View Local File") {
        Some(ManageAction::View)
    } else if is_entry(&l, "✎ Rename") {
        Some(ManageAction::Rename)
    } else if is_entry(&l, "✎ Edit") {
        Some(ManageAction::Edit)
    } else if is_entry(&l, "⎘ Copy Name") {
        Some(ManageAction::CopyName)
    } else if is_entry(&l, "♡ Unlike") {
        Some(ManageAction::Unlike)
    } else if is_entry(&l, "♥ Like") {
        Some(ManageAction::Like)
    } else if is_entry(&l, "↗ Share") {
        Some(ManageAction::Share)
    } else if is_entry(&l, "⌫ Delete Server Copy") {
        Some(ManageAction::DeleteServer)
    } else if is_entry(&l, "⌫ Delete Local File") {
        Some(ManageAction::DeleteLocal)
    } else if is_entry(&l, "← Back to Clip List") {
        Some(ManageAction::Back)
    } else {
        None
    }
}

/// The address under which a hosted clip is public.
pub open spec fn public_address(api_url: Seq<char>, id: Seq<char>) -> Seq<char> {
    api_url + "/clip/"@ + id
}

/// Writes the address under which a hosted clip is public.
pub fn public_url(api_url: &str, id: &str) -> (s: String)
    ensures
        s@ == public_address(api_url@, id@),
{
    join3(api_url, "/clip/", id)
}

/// What becomes of a request to rename a clip.
#[derive(Clone, Debug)]
pub enum RenameDecision {
    /// Rename the file to this name, extension included.
    Rename { new_full_name: String },
    /// The new name is the old one: nothing to do.
    Unchanged,
    /// The new name cannot be a file name.
    Invalid(NameError),
}

/// A `RenameDecision` as contracts see it.
pub enum RenameDecisionView {
    Rename { new_full_name: Seq<char> },
    Unchanged,
    Invalid(NameError),
}

impl View for RenameDecision {
    type V = RenameDecisionView;

    open spec fn view(&self) -> RenameDecisionView {
        match self {
            RenameDecision::Rename { new_full_name } => RenameDecisionView::Rename {
                new_full_name: new_full_name@,
            },
            RenameDecision::Unchanged => RenameDecisionView::Unchanged,
            RenameDecision::Invalid(e) => RenameDecisionView::Invalid(*e),
        }
    }
}

/// What becomes of a request to rename the clip `name` to what the user
/// typed: the new file name is the stem that the input stands for, a
/// point, and the extension of the old file, `mp4` where it has none.
pub open spec fn rename_outcome(
    name: Seq<char>,
    input: Seq<char>,
    extension: Option<Seq<char>>,
) -> RenameDecisionView {
    match filename_stem(input) {
        Err(e) => RenameDecisionView::Invalid(e),
        Ok(stem) => if stem == name {
            RenameDecisionView::Unchanged
        } else {
            RenameDecisionView::Rename {
                new_full_name: stem + "."@ + match extension {
                    Some(e) => e,
                    None => "mp4"@,
                },
            }
        },
    }
}

/// Decides what becomes of a request to rename a clip; `extension` is the
/// extension of its file, where it has one.
pub fn decide_rename(name: &str, input: &str, extension: Option<&str>) -> (d: RenameDecision)
    ensures
        d@ == rename_outcome(
            name@,
            input@,
            match extension {
                Some(e) => Some(e@),
                None => None,
            },
        ),
{
    match sanitize_and_validate_filename_stem(input) {
        Err(e) => RenameDecision::Invalid(e),
        Ok(stem) => {
            if same_chars(&chars_of(stem.as_str()), &chars_of(name)) {
                RenameDecision::Unchanged
            } else {
                let new_full_name = match extension {
                    Some(e) => join3(stem.as_str(), ".", e),
                    None => join3(stem.as_str(), ".", "mp4"),
                };
                RenameDecision::Rename { new_full_name }
            }
        },
    }
}

/// The like that a clip gets when its like is switched.
pub fn switched_like(clip: &Clip) -> (liked: bool)
    ensures
        liked == !clip@.is_liked(),
{
    !clip.is_liked()
}

/// Notes the new like of a clip, as far as local data is kept of it.
pub fn note_like(clip: &mut Clip, liked: bool)
    ensures
        final(clip)@ == (ClipView {
            liked: if old(clip).liked is Some {
                Some(liked)
            } else {
                None
            },
            ..old(clip)@
        }),
{
    if clip.liked.is_some() {
        clip.liked = Some(liked);
    }
}

/// What the manager does once an action has been carried out.
#[derive(Clone, Copy, Debug, PartialEq, Eq, Structural)]
pub enum FollowUp {
    /// Offer the actions for the clip again.
    Stay,
    /// Note the clip's new like, then offer the actions again.
    NoteLike,
    /// Gather the clips anew and take the clip of the same name in place of
    /// this one, then offer the actions again.
    RefreshClip,
    /// Take the clip off the list and go back to the sort menu.
    DropClip,
    /// Gather the clips anew and go back to the sort menu.
    Reload,
}

/// What follows an action: a failed one changes nothing; deleting takes
/// the clip off the list; renaming and editing call for a new list;
/// sharing for a new look at the clip; a like is noted.
pub open spec fn follow_up_of(action: ManageAction, succeeded: bool) -> FollowUp {
    if !succeeded {
        FollowUp::Stay
    } else {
        match action {
            ManageAction::DeleteServer | ManageAction::DeleteLocal => FollowUp::DropClip,
            ManageAction::Rename | ManageAction::Edit => FollowUp::Reload,
            ManageAction::Share => FollowUp::RefreshClip,
            ManageAction::Like | ManageAction::Unlike => FollowUp::NoteLike,
            _ => FollowUp::Stay,
        }
    }
}

/// Decides what follows an action.
pub fn follow_up(action: ManageAction, succeeded: bool) -> (f: FollowUp)
    ensures
        f == follow_up_of(action, succeeded),
{
    if !succeeded {
        return FollowUp::Stay;
    }
    match action {
        ManageAction::DeleteServer | ManageAction::DeleteLocal => FollowUp::DropClip,
        ManageAction::Rename | ManageAction::Edit => FollowUp::Reload,
        ManageAction::Share => FollowUp::RefreshClip,
        ManageAction::Like | ManageAction::Unlike => FollowUp::NoteLike,
        _ => FollowUp::Stay,
    }
}

/// The question asked before a copy of a clip is deleted.
pub fn delete_question(action: ManageAction) -> (q: String)
    ensures
        q@ == if action == ManageAction::DeleteServer {
            "Delete server copy?"@
        } else {
            "Delete local file?"@
        },
{
    if action == ManageAction::DeleteServer {
        String::from_str("Delete server copy?")
    } else {
        String::from_str("Delete local file?")
    }
}

/// Takes, in place of `clip`, the first of the `fresh` clips that has
/// exactly its name; without one the clip stays as it is.
pub fn refresh_clip(clip: &mut Clip, fresh: Vec<Clip>)
    ensures
        final(clip)@ == if index_of_exact(clip_views(fresh@), old(clip)@.name) < fresh@.len() {
            clip_views(fresh@)[index_of_exact(clip_views(fresh@), old(clip)@.name)]
        } else {
            old(clip)@
        },
{
    let mut fresh = fresh;
    match selected_index(&fresh, clip.name.as_str()) {
        Some(i) => {
            assert(clip_views(fresh@)[i as int] == fresh@[i as int]@);
            *clip = fresh.remove(i);
        },
        None => {},
    }
}

/// No two actions share a label, so the label of an action is read back
/// as that action.
pub proof fn lemma_labels_read_back(a: ManageAction)
    ensures
        action_for_label(a.label()) == Some(a),
{
    reveal_strlit("⌂ Open URL");
    reveal_strlit("☐ Copy URL");
    reveal_strlit("▷ View Local File");
    reveal_strlit("✎ Rename");
    reveal_strlit("✎ Edit");
    reveal_strlit("⎘ Copy Name");
    reveal_strlit("♡ Unlike");
    reveal_strlit("♥ Like");
    reveal_strlit("↗ Share");
    reveal_strlit("⌫ Delete Server Copy");
    reveal_strlit("⌫ Delete Local File");
    reveal_strlit("← Back to Clip List");
    assert("⌂ Open URL"@[0] == '⌂');
    assert("☐ Copy URL"@[0] == '☐');
    assert("▷ View Local File"@[0] == '▷');
    assert("✎ Rename"@[0] == '✎' && "✎ Rename"@[2] == 'R');
    assert("✎ Edit"@[0] == '✎' && "✎ Edit"@[2] == 'E');
    assert("⎘ Copy Name"@[0] == '⎘');
    assert("♡ Unlike"@[0] == '♡');
    assert("♥ Like"@[0] == '♥');
    assert("↗ Share"@[0] == '↗');
    assert("⌫ Delete Server Copy"@[0] == '⌫' && "⌫ Delete Server Copy"@[9] == 'S');
    assert("⌫ Delete Local File"@[0] == '⌫' && "⌫ Delete Local File"@[9] == 'L');
    assert("← Back to Clip List"@[0] == '←');
}

/// `index_of_exact` lies between zero and the number of clips.
pub proof fn lemma_index_of_exact(clips: Seq<ClipView>, name: Seq<char>)
    ensures
        0 <= index_of_exact(clips, name) <= clips.len(),
        index_of_exact(clips, name) < clips.len() ==> clips[index_of_exact(clips, name)].name
            == name,
    decreases clips.len(),
{
    if clips.len() > 0 && clips[0].name != name {
        lemma_index_of_exact(clips.drop_first(), name);
    }
}

} // verus!
