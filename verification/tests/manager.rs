use wayclip_cli::clip::{Clip, Instant};
use wayclip_cli::manage::{FollowUp, ManageAction};
use wayclip_cli::manager::{manage_step, open_manager, ManageEvent, ManageMove, ManageState};
use wayclip_cli::order::SortOrder;

fn clip(name: &str) -> Clip {
    Clip {
        name: name.to_string(),
        full_filename: format!("{}.mp4", name),
        local_path: Some(format!("/clips/{}.mp4", name)),
        hosted_id: None,
        is_hosted: false,
        liked: Some(false),
        created_at: Instant { secs: 0, nanos: 0 },
    }
}

fn chosen(label: &str) -> ManageEvent {
    ManageEvent::Chosen(label.to_string())
}

#[test]
fn manager_gathers_first_and_leaves_an_empty_list() {
    let (state, next) = open_manager();
    assert_eq!(state, ManageState::Listing);
    assert!(matches!(next, ManageMove::Gather));
    let (state, next) = manage_step(state, ManageEvent::Ready, &Vec::new());
    assert_eq!(state, ManageState::Left);
    assert!(matches!(next, ManageMove::Leave { notice: Some(n) } if n == "○ No clips found."));
    let (state, next) = manage_step(state, ManageEvent::Ready, &Vec::new());
    assert_eq!(state, ManageState::Left);
    assert!(matches!(next, ManageMove::Leave { notice: None }));
}

#[test]
fn manager_walks_from_sort_menu_to_action() {
    let clips = vec![clip("a"), clip("b")];
    let (state, next) = manage_step(ManageState::Listing, ManageEvent::Ready, &clips);
    assert_eq!(state, ManageState::SortMenu);
    assert!(matches!(next, ManageMove::AskSort));
    let (state, next) = manage_step(state, chosen("Name (A-Z)"), &clips);
    assert_eq!(state, ManageState::ClipMenu);
    assert!(matches!(next, ManageMove::AskClip { order: SortOrder::NameAscending }));
    let (state, next) = manage_step(state, chosen("b"), &clips);
    assert_eq!(state, ManageState::ActionMenu { selected: 1 });
    assert!(matches!(next, ManageMove::AskAction { selected: 1 }));
    let (state, next) = manage_step(state, chosen("✎ Rename"), &clips);
    assert_eq!(state, ManageState::Acting { selected: 1, action: ManageAction::Rename });
    assert!(matches!(next, ManageMove::Perform { action: ManageAction::Rename, selected: 1 }));
    let (state, next) = manage_step(state, ManageEvent::Done(true), &clips);
    assert_eq!(state, ManageState::Settling { selected: 1, to_list: true });
    assert!(matches!(next, ManageMove::Apply { follow_up: FollowUp::Reload, selected: 1 }));
    let (state, next) = manage_step(state, ManageEvent::Ready, &clips);
    assert_eq!(state, ManageState::SortMenu);
    assert!(matches!(next, ManageMove::AskSort));
}

#[test]
fn manager_stays_with_the_clip_after_a_like() {
    let clips = vec![clip("a"), clip("b")];
    let state = ManageState::ActionMenu { selected: 0 };
    let (state, next) = manage_step(state, chosen("♥ Like"), &clips);
    assert!(matches!(next, ManageMove::Perform { action: ManageAction::Like, selected: 0 }));
    let (state, next) = manage_step(state, ManageEvent::Done(true), &clips);
    assert_eq!(state, ManageState::Settling { selected: 0, to_list: false });
    assert!(matches!(next, ManageMove::Apply { follow_up: FollowUp::NoteLike, selected: 0 }));
    let (state, next) = manage_step(state, ManageEvent::Ready, &clips);
    assert_eq!(state, ManageState::ActionMenu { selected: 0 });
    assert!(matches!(next, ManageMove::AskAction { selected: 0 }));
}

#[test]
fn manager_stays_after_a_failed_action() {
    let clips = vec![clip("a")];
    let state = ManageState::Acting { selected: 0, action: ManageAction::DeleteLocal };
    let (state, next) = manage_step(state, ManageEvent::Done(false), &clips);
    assert_eq!(state, ManageState::Settling { selected: 0, to_list: false });
    assert!(matches!(next, ManageMove::Apply { follow_up: FollowUp::Stay, selected: 0 }));
    let state = ManageState::Acting { selected: 0, action: ManageAction::DeleteLocal };
    let (state, next) = manage_step(state, ManageEvent::Done(true), &clips);
    assert_eq!(state, ManageState::Settling { selected: 0, to_list: true });
    assert!(matches!(next, ManageMove::Apply { follow_up: FollowUp::DropClip, selected: 0 }));
    let (state, next) = manage_step(state, ManageEvent::Ready, &Vec::new());
    assert_eq!(state, ManageState::Left);
    assert!(matches!(next, ManageMove::Leave { notice: Some(_) }));
}

#[test]
fn manager_is_left_from_the_sort_menu_only() {
    let clips = vec![clip("a")];
    let (state, next) = manage_step(ManageState::SortMenu, ManageEvent::Dismissed, &clips);
    assert_eq!(state, ManageState::Left);
    assert!(matches!(next, ManageMove::Leave { notice: None }));
    let (state, _) = manage_step(ManageState::SortMenu, chosen("[Quit]"), &clips);
    assert_eq!(state, ManageState::Left);
    let (state, next) = manage_step(ManageState::SortMenu, chosen("[Refresh List]"), &clips);
    assert_eq!(state, ManageState::Listing);
    assert!(matches!(next, ManageMove::Gather));
    let (state, next) = manage_step(ManageState::ClipMenu, ManageEvent::Dismissed, &clips);
    assert_eq!(state, ManageState::SortMenu);
    assert!(matches!(next, ManageMove::AskSort));
    let menu = ManageState::ActionMenu { selected: 0 };
    let (state, _) = manage_step(menu, ManageEvent::Dismissed, &clips);
    assert_eq!(state, ManageState::SortMenu);
    let (state, _) = manage_step(menu, chosen("← Back to Clip List"), &clips);
    assert_eq!(state, ManageState::SortMenu);
    let (state, next) = manage_step(menu, chosen("no such entry"), &clips);
    assert_eq!(state, menu);
    assert!(matches!(next, ManageMove::AskAction { selected: 0 }));
}

#[test]
fn manager_fails_on_a_clip_that_is_not_listed() {
    let clips = vec![clip("a")];
    let (state, next) = manage_step(ManageState::ClipMenu, chosen("zzz"), &clips);
    assert_eq!(state, ManageState::Left);
    assert!(matches!(next, ManageMove::Fail { reason }
        if reason == "Could not find selected clip in memory. Please refresh."));
}
