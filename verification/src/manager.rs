//! The clip manager as a machine: which menu is shown next, what a choice
//! sets off, and when the manager is left. The clips themselves stay with
//! the surrounding program, which sorts, gathers and changes them as the
//! moves say.

use crate::clip::{clip_views, Clip, ClipView};
use crate::manage::{
    action_for_label, action_of, follow_up, follow_up_of, index_of_exact, lemma_index_of_exact,
    selected_index, sort_choice, sort_choice_of, FollowUp, ManageAction, SortChoice,
};
use crate::model::text_view;
use crate::order::SortOrder;
use vstd::prelude::*;
use vstd::string::StringExecFns;

verus! {

/// Where the manager stands.
#[derive(Clone, Copy, Debug, PartialEq, Eq, Structural)]
pub enum ManageState {
    /// The list of clips is being made ready.
    Listing,
    /// The sort menu is shown.
    SortMenu,
    /// The clip menu is shown.
    ClipMenu,
    /// The action menu is shown for the clip at `selected`.
    ActionMenu { selected: usize },
    /// An action is being carried out on the clip at `selected`.
    Acting { selected: usize, action: ManageAction },
    /// What follows an action is being applied; `to_list` says that the
    /// manager goes back to the list after it.
    Settling { selected: usize, to_list: bool },
    /// The manager was left.
    Left,
}

/// What the surrounding program reports to the manager.
#[derive(Clone, Debug)]
pub enum ManageEvent {
    /// The list of clips is ready.
    Ready,
    /// The user chose this entry of the menu that is shown.
    Chosen(String),
    /// The user left the menu that is shown without a choice.
    Dismissed,
    /// The action was carried out: with success, or not.
    Done(bool),
}

/// A `ManageEvent` as contracts see it.
pub enum ManageEventView {
    Ready,
    Chosen(Seq<char>),
    Dismissed,
    Done(bool),
}

impl View for ManageEvent {
    type V = ManageEventView;

    open spec fn view(&self) -> ManageEventView {
        match self {
            ManageEvent::Ready => ManageEventView::Ready,
            ManageEvent::Chosen(s) => ManageEventView::Chosen(s@),
            ManageEvent::Dismissed => ManageEventView::Dismissed,
            ManageEvent::Done(ok) => ManageEventView::Done(*ok),
        }
    }
}

/// What the manager asks for.
#[derive(Clone, Debug)]
pub enum ManageMove {
    /// Show the sort menu.
    AskSort,
    /// Sort the clips in this order, then show the clip menu.
    AskClip { order: SortOrder },
    /// Show the action menu for the clip at `selected`.
    AskAction { selected: usize },
    /// Gather the clips anew, then report that the list is ready.
    Gather,
    /// Carry out the action on the clip at `selected`, then report how it
    /// went.
    Perform { action: ManageAction, selected: usize },
    /// Apply what follows the action to the clip at `selected`, then report
    /// that the list is ready.
    Apply { follow_up: FollowUp, selected: usize },
    /// Leave the manager, after showing the notice if there is one.
    Leave { notice: Option<String> },
    /// Leave the manager with a failure.
    Fail { reason: String },
}

/// A `ManageMove` as contracts see it.
pub enum ManageMoveView {
    AskSort,
    AskClip { order: SortOrder },
    AskAction { selected: usize },
    Gather,
    Perform { action: ManageAction, selected: usize },
    Apply { follow_up: FollowUp, selected: usize },
    Leave { notice: Option<Seq<char>> },
    Fail { reason: Seq<char> },
}

impl View for ManageMove {
    type V = ManageMoveView;

    open spec fn view(&self) -> ManageMoveView {
        match self {
            ManageMove::AskSort => ManageMoveView::AskSort,
            ManageMove::AskClip { order } => ManageMoveView::AskClip { order: *order },
            ManageMove::AskAction { selected } => ManageMoveView::AskAction {
                selected: *selected,
            },
            ManageMove::Gather => ManageMoveView::Gather,
            ManageMove::Perform { action, selected } => ManageMoveView::Perform {
                action: *action,
                selected: *selected,
            },
            ManageMove::Apply { follow_up, selected } => ManageMoveView::Apply {
                follow_up: *follow_up,
                selected: *selected,
            },
            ManageMove::Leave { notice } => ManageMoveView::Leave { notice: text_view(*notice) },
            ManageMove::Fail { reason } => ManageMoveView::Fail { reason: reason@ },
        }
    }
}

/// What the manager does with a list that is ready: without clips it is
/// left, with clips the sort menu is shown.
pub open spec fn listing(count: nat) -> (ManageState, ManageMoveView) {
    if count == 0 {
        (ManageState::Left, ManageMoveView::Leave { notice: Some("○ No clips found."@) })
    } else {
        (ManageState::SortMenu, ManageMoveView::AskSort)
    }
}

/// A follow-up that leads back to the list.
pub open spec fn leads_to_list(f: FollowUp) -> bool {
    f == FollowUp::DropClip || f == FollowUp::Reload
}

/// The manager as a machine: from a state, what was reported and the clips
/// as they are, the next state and what to do.
///
/// Leaving the sort menu leaves the manager; leaving any other menu leads
/// back to the list. A clip is chosen by its name, the first of that name;
/// a name that no clip has is a failure. From the action menu the way
/// back leads to the list, any other action is carried out, and what is no
/// action shows the menu again. An event that the state does not await
/// changes nothing and shows the state's menu again.
pub open spec fn manage_next(state: ManageState, event: ManageEventView, clips: Seq<ClipView>) -> (
    ManageState,
    ManageMoveView,
) {
    match (state, event) {
        (ManageState::Left, _) => (ManageState::Left, ManageMoveView::Leave { notice: None }),
        (ManageState::Listing, _) => listing(clips.len()),
        (ManageState::SortMenu, ManageEventView::Chosen(label)) => match sort_choice_of(label) {
            SortChoice::Sort(order) => (ManageState::ClipMenu, ManageMoveView::AskClip { order }),
            SortChoice::Refresh => (ManageState::Listing, ManageMoveView::Gather),
            SortChoice::Quit => (ManageState::Left, ManageMoveView::Leave { notice: None }),
        },
        (ManageState::SortMenu, ManageEventView::Dismissed) => (
            ManageState::Left,
            ManageMoveView::Leave { notice: None },
        ),
        (ManageState::SortMenu, _) => (ManageState::SortMenu, ManageMoveView::AskSort),
        (ManageState::ClipMenu, ManageEventView::Chosen(name)) => if index_of_exact(clips, name)
            < clips.len() {
            (
                ManageState::ActionMenu { selected: index_of_exact(clips, name) as usize },
                ManageMoveView::AskAction { selected: index_of_exact(clips, name) as usize },
            )
        } else {
            (
                ManageState::Left,
                ManageMoveView::Fail {
                    reason: "Could not find selected clip in memory. Please refresh."@,
                },
            )
        },
        (ManageState::ClipMenu, _) => listing(clips.len()),
        (ManageState::ActionMenu { selected }, ManageEventView::Chosen(label)) =>
            match action_for_label(label) {
                Some(ManageAction::Back) => listing(clips.len()),
                Some(action) => (
                    ManageState::Acting { selected, action },
                    ManageMoveView::Perform { action, selected },
                ),
                None => (
                    ManageState::ActionMenu { selected },
                    ManageMoveView::AskAction { selected },
                ),
            },
        (ManageState::ActionMenu { selected }, ManageEventView::Dismissed) => listing(clips.len()),
        (ManageState::ActionMenu { selected }, _) => (
            ManageState::ActionMenu { selected },
            ManageMoveView::AskAction { selected },
        ),
        (ManageState::Acting { selected, action }, ManageEventView::Done(succeeded)) => (
            ManageState::Settling {
                selected,
                to_list: leads_to_list(follow_up_of(action, succeeded)),
            },
            ManageMoveView::Apply { follow_up: follow_up_of(action, succeeded), selected },
        ),
        (ManageState::Acting { selected, action }, _) => (
            ManageState::Acting { selected, action },
            ManageMoveView::Perform { action, selected },
        ),
        (ManageState::Settling { selected, to_list }, _) => if to_list || selected >= clips.len() {
            listing(clips.len())
        } else {
            (ManageState::ActionMenu { selected }, ManageMoveView::AskAction { selected })
        },
    }
}

/// Starts the manager: the clips are to be gathered.
pub fn open_manager() -> (r: (ManageState, ManageMove))
    ensures
        r.0 == ManageState::Listing,
        r.1@ == ManageMoveView::Gather,
{
    (ManageState::Listing, ManageMove::Gather)
}

/// Decides what the manager does with a list that is ready.
fn relist(clips: &Vec<Clip>) -> (r: (ManageState, ManageMove))
    ensures
        (r.0, r.1@) == listing(clips@.len()),
{
    if clips.len() == 0 {
        (ManageState::Left, ManageMove::Leave { notice: Some(String::from_str("○ No clips found.")) })
    } else {
        (ManageState::SortMenu, ManageMove::AskSort)
    }
}

/// Moves the manager on by one event; `clips` are the clips as they are
/// listed now.
pub fn manage_step(state: ManageState, event: ManageEvent, clips: &Vec<Clip>) -> (r: (
    ManageState,
    ManageMove,
))
    ensures
        (r.0, r.1@) == manage_next(state, event@, clip_views(clips@)),
{
    match state {
        ManageState::Left => (ManageState::Left, ManageMove::Leave { notice: None }),
        ManageState::Listing => relist(clips),
        ManageState::SortMenu => match event {
            ManageEvent::Chosen(label) => match sort_choice(label.as_str()) {
                SortChoice::Sort(order) => (ManageState::ClipMenu, ManageMove::AskClip { order }),
                SortChoice::Refresh => (ManageState::Listing, ManageMove::Gather),
                SortChoice::Quit => (ManageState::Left, ManageMove::Leave { notice: None }),
            },
            ManageEvent::Dismissed => (ManageState::Left, ManageMove::Leave { notice: None }),
            _ => (ManageState::SortMenu, ManageMove::AskSort),
        },
        ManageState::ClipMenu => match event {
            ManageEvent::Chosen(name) => match selected_index(clips, name.as_str()) {
                Some(selected) => (
                    ManageState::ActionMenu { selected },
                    ManageMove::AskAction { selected },
                ),
                None => (
                    ManageState::Left,
                    ManageMove::Fail {
                        reason: String::from_str(
                            "Could not find selected clip in memory. Please refresh.",
                        ),
                    },
                ),
            },
            _ => relist(clips),
        },
        ManageState::ActionMenu { selected } => match event {
            ManageEvent::Chosen(label) => match action_of(label.as_str()) {
                Some(ManageAction::Back) => relist(clips),
                Some(action) => (
                    ManageState::Acting { selected, action },
                    ManageMove::Perform { action, selected },
                ),
                None => (ManageState::ActionMenu { selected }, ManageMove::AskAction { selected }),
            },
            ManageEvent::Dismissed => relist(clips),
            _ => (ManageState::ActionMenu { selected }, ManageMove::AskAction { selected }),
        },
        ManageState::Acting { selected, action } => match event {
            ManageEvent::Done(succeeded) => {
                let f = follow_up(action, succeeded);
                (
                    ManageState::Settling {
                        selected,
                        to_list: f == FollowUp::DropClip || f == FollowUp::Reload,
                    },
                    ManageMove::Apply { follow_up: f, selected },
                )
            },
            _ => (
                ManageState::Acting { selected, action },
                ManageMove::Perform { action, selected },
            ),
        },
        ManageState::Settling { selected, to_list } => {
            if to_list || selected >= clips.len() {
                relist(clips)
            } else {
                (ManageState::ActionMenu { selected }, ManageMove::AskAction { selected })
            }
        },
    }
}

/// The clip that an action is asked for is one of the clips: the manager
/// never names a place beyond the list it was shown.
pub proof fn lemma_selected_is_listed(
    state: ManageState,
    event: ManageEventView,
    clips: Seq<ClipView>,
)
    requires
        clips.len() <= usize::MAX,
        state matches ManageState::ActionMenu { selected } ==> selected < clips.len(),
        state matches ManageState::Acting { selected, .. } ==> selected < clips.len(),
    ensures
        manage_next(state, event, clips).1 matches ManageMoveView::AskAction { selected }
            ==> selected < clips.len(),
        manage_next(state, event, clips).1 matches ManageMoveView::Perform { selected, .. }
            ==> selected < clips.len(),
        manage_next(state, event, clips).0 matches ManageState::ActionMenu { selected }
            ==> selected < clips.len(),
        manage_next(state, event, clips).0 matches ManageState::Acting { selected, .. }
            ==> selected < clips.len(),
{
    match event {
        ManageEventView::Chosen(name) => {
            lemma_index_of_exact(clips, name);
        },
        _ => {},
    }
}

} // verus!
