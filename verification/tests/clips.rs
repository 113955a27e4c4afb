use wayclip_cli::clip::{clip_stem, find_unified_clip, position_of_name, Clip, ClipError, Instant};
use wayclip_cli::clip_ops::{
    delete_default, delete_plan, hosted_address, like_decision, like_word, DeleteStep,
};
use wayclip_cli::manage::{
    action_of, clip_actions, decide_rename, delete_question, display_items, follow_up,
    generate_display_string, new_at, note_like, public_url, refresh_clip, selected_index,
    sort_choice, sort_options, switched_like, FollowUp, ManageAction, RenameDecision, SortChoice,
};
use wayclip_cli::manage::ManageAction::{
    Back, CopyName, CopyUrl, DeleteLocal, DeleteServer, Edit, Like, OpenUrl, Rename, Share, Unlike,
    View,
};
use wayclip_cli::order::{comes_before, less_chars, sort_clips, SortOrder};
use wayclip_cli::validate::NameError;

fn clip(name: &str, secs: i64, local: bool, hosted: bool, liked: Option<bool>) -> Clip {
    Clip {
        name: name.to_string(),
        full_filename: format!("{}.mp4", name),
        local_path: if local { Some(format!("/clips/{}.mp4", name)) } else { None },
        hosted_id: if hosted {
            Some("550e8400-e29b-41d4-a716-446655440000".to_string())
        } else {
            None
        },
        is_hosted: hosted,
        liked,
        created_at: Instant { secs, nanos: 0 },
    }
}

fn names(clips: &[Clip]) -> Vec<&str> {
    clips.iter().map(|c| c.name.as_str()).collect()
}

#[test]
fn stem_drops_white_space_and_extension() {
    assert_eq!(clip_stem("  intro.mp4 ").unwrap(), "intro");
    assert_eq!(clip_stem("intro.MP4").unwrap(), "intro");
    assert_eq!(clip_stem("intro.Mp4").unwrap(), "intro");
    assert_eq!(clip_stem("intro").unwrap(), "intro");
    assert_eq!(clip_stem("a.mp4.mp4").unwrap(), "a.mp4");
    assert_eq!(clip_stem("mp4").unwrap(), "mp4");
    assert_eq!(clip_stem("vidéo.mp4").unwrap(), "vidéo");
}

#[test]
fn empty_clip_name_is_refused() {
    for input in ["", "  ", ".mp4", " .MP4 "] {
        let e = clip_stem(input).unwrap_err();
        assert!(matches!(e, ClipError::EmptyName));
        assert_eq!(e.message(), "Clip name cannot be empty.");
    }
}

#[test]
fn clip_is_found_without_regard_to_case() {
    let clips = vec![
        clip("alpha", 1, true, false, None),
        clip("Beta", 2, true, false, None),
        clip("beta", 3, true, false, None),
    ];
    assert_eq!(position_of_name(&clips, "BETA"), Some(1));
    assert_eq!(position_of_name(&clips, "gamma"), None);
    let found = find_unified_clip(" BETA.mp4 ", clips.clone()).unwrap();
    assert_eq!(found.name, "Beta");
    assert_eq!(found.created_at.secs, 2);
    let e = find_unified_clip("gamma.mp4", clips.clone()).unwrap_err();
    assert!(matches!(&e, ClipError::NotFound(s) if s == "gamma"));
    assert_eq!(e.message(), "Clip 'gamma' not found.");
    let e = find_unified_clip(" ", clips).unwrap_err();
    assert!(matches!(e, ClipError::EmptyName));
}

#[test]
fn case_is_ignored_for_ascii_letters_only() {
    let clips = vec![clip("ÉTÉ", 1, true, false, None)];
    assert_eq!(position_of_name(&clips, "été"), None);
    assert_eq!(position_of_name(&clips, "ÉtÉ"), Some(0));
}

#[test]
fn texts_compare_as_strings_do() {
    let samples = ["", "a", "ab", "b", "B", "é", "z", "ab ", "a\u{10000}", "a\u{ffff}"];
    for x in samples {
        for y in samples {
            let a: Vec<char> = x.chars().collect();
            let b: Vec<char> = y.chars().collect();
            assert_eq!(less_chars(&a, &b), x < y, "{:?} {:?}", x, y);
        }
    }
}

#[test]
fn newest_clips_come_first() {
    let clips = vec![
        clip("old", 10, true, false, None),
        clip("new", 30, true, false, None),
        clip("mid", 20, true, false, None),
    ];
    let sorted = sort_clips(clips, SortOrder::NewestFirst);
    assert_eq!(names(&sorted), vec!["new", "mid", "old"]);
}

#[test]
fn nanoseconds_decide_between_equal_seconds() {
    let mut a = clip("a", 10, true, false, None);
    let mut b = clip("b", 10, true, false, None);
    a.created_at.nanos = 1;
    b.created_at.nanos = 2;
    assert!(comes_before(SortOrder::NewestFirst, &b, &a));
    assert!(!comes_before(SortOrder::NewestFirst, &a, &b));
    assert_eq!(names(&sort_clips(vec![a, b], SortOrder::NewestFirst)), vec!["b", "a"]);
}

#[test]
fn names_sort_in_lower_case() {
    let clips = vec![
        clip("banana", 1, true, false, None),
        clip("Cherry", 2, true, false, None),
        clip("apple", 3, true, false, None),
        clip("Écran", 4, true, false, None),
        clip("écran2", 5, true, false, None),
        clip("Banana", 6, true, false, None),
    ];
    let mut expected = clips.clone();
    expected.sort_by(|a, b| a.name.to_lowercase().cmp(&b.name.to_lowercase()));
    let sorted = sort_clips(clips, SortOrder::NameAscending);
    assert_eq!(names(&sorted), names(&expected));
    assert_eq!(names(&sorted), vec!["apple", "banana", "Banana", "Cherry", "Écran", "écran2"]);
}

#[test]
fn liked_clips_come_first_then_newest() {
    let clips = vec![
        clip("plain-old", 10, true, false, Some(false)),
        clip("liked-old", 11, true, false, Some(true)),
        clip("nodata-new", 50, false, true, None),
        clip("liked-new", 40, true, false, Some(true)),
    ];
    let sorted = sort_clips(clips, SortOrder::LikedFirst);
    assert_eq!(names(&sorted), vec!["liked-new", "liked-old", "nodata-new", "plain-old"]);
}

#[test]
fn hosted_clips_come_first_then_newest() {
    let clips = vec![
        clip("local-new", 90, true, false, None),
        clip("hosted-old", 10, false, true, None),
        clip("hosted-new", 20, true, true, None),
    ];
    let sorted = sort_clips(clips, SortOrder::HostedFirst);
    assert_eq!(names(&sorted), vec!["hosted-new", "hosted-old", "local-new"]);
}

#[test]
fn sort_keeps_equal_clips_in_their_order() {
    let clips: Vec<Clip> = ["e", "a", "d", "b", "c", "f", "g"]
        .iter()
        .enumerate()
        .map(|(i, n)| clip(n, (i % 2) as i64, true, i % 3 == 0, Some(i % 2 == 0)))
        .collect();
    for order in [
        SortOrder::NewestFirst,
        SortOrder::NameAscending,
        SortOrder::LikedFirst,
        SortOrder::HostedFirst,
    ] {
        let mut expected = clips.clone();
        expected.sort_by(|a, b| match order {
            SortOrder::NewestFirst => b.created_at.secs.cmp(&a.created_at.secs),
            SortOrder::NameAscending => a.name.to_lowercase().cmp(&b.name.to_lowercase()),
            SortOrder::LikedFirst => (b.liked == Some(true))
                .cmp(&(a.liked == Some(true)))
                .then_with(|| b.created_at.secs.cmp(&a.created_at.secs)),
            SortOrder::HostedFirst => b
                .is_hosted
                .cmp(&a.is_hosted)
                .then_with(|| b.created_at.secs.cmp(&a.created_at.secs)),
        });
        assert_eq!(names(&sort_clips(clips.clone(), order)), names(&expected), "{:?}", order);
    }
    assert!(sort_clips(Vec::new(), SortOrder::NewestFirst).is_empty());
}

#[test]
fn sort_menu_is_read() {
    assert_eq!(
        sort_options(),
        vec![
            "Date (Newest First)",
            "Name (A-Z)",
            "Liked First",
            "Hosted First",
            "[Refresh List]",
            "[Quit]"
        ]
    );
    assert_eq!(sort_choice("Date (Newest First)"), SortChoice::Sort(SortOrder::NewestFirst));
    assert_eq!(sort_choice("Name (A-Z)"), SortChoice::Sort(SortOrder::NameAscending));
    assert_eq!(sort_choice("Liked First"), SortChoice::Sort(SortOrder::LikedFirst));
    assert_eq!(sort_choice("Hosted First"), SortChoice::Sort(SortOrder::HostedFirst));
    assert_eq!(sort_choice("[Refresh List]"), SortChoice::Refresh);
    assert_eq!(sort_choice("[Quit]"), SortChoice::Quit);
    assert_eq!(sort_choice("anything"), SortChoice::Quit);
}

#[test]
fn clip_is_new_for_a_day() {
    let made = Instant { secs: 1_000_000, nanos: 500 };
    assert!(new_at(made, Instant { secs: 1_000_000, nanos: 500 }));
    assert!(new_at(made, Instant { secs: 1_000_000 + 86_400, nanos: 499 }));
    assert!(!new_at(made, Instant { secs: 1_000_000 + 86_400, nanos: 500 }));
    assert!(!new_at(made, Instant { secs: 2_000_000, nanos: 0 }));
    assert!(new_at(made, Instant { secs: 0, nanos: 0 }));
    assert!(new_at(
        Instant { secs: i64::MAX, nanos: 999_999_999 },
        Instant { secs: i64::MIN, nanos: 0 }
    ));
    assert!(!new_at(
        Instant { secs: i64::MIN, nanos: 0 },
        Instant { secs: i64::MAX, nanos: 999_999_999 }
    ));
}

#[test]
fn display_string_marks_what_the_clip_has() {
    let now = Instant { secs: 200_000, nanos: 0 };
    let c = clip("intro", 199_000, true, true, Some(true));
    assert_eq!(generate_display_string(&c, now, "<3 ", " [NEW]"), "⌨ ☁ <3 intro [NEW]");
    let c = clip("old", 1, false, false, Some(false));
    assert_eq!(generate_display_string(&c, now, "<3 ", " [NEW]"), "      old");
    let c = clip("half", 1, true, false, None);
    assert_eq!(generate_display_string(&c, now, "<3 ", " [NEW]"), "⌨    half");
    let items = display_items(
        &[clip("a", 199_999, false, true, None), clip("b", 0, true, false, Some(true))].to_vec(),
        now,
        "♥ ",
        " [NEW]",
    );
    assert_eq!(items.len(), 2);
    assert_eq!(items[0].name, "a");
    assert_eq!(items[0].display_string, "   ☁ a [NEW]");
    assert_eq!(items[0].label(), "   ☁ a [NEW]");
    assert_eq!(items[1].name, "b");
    assert_eq!(items[1].display_string, "⌨    ♥ b");
}

#[test]
fn selected_clip_is_the_first_of_its_name() {
    let clips = vec![
        clip("a", 1, true, false, None),
        clip("b", 2, true, false, None),
        clip("b", 3, true, false, None),
    ];
    assert_eq!(selected_index(&clips, "b"), Some(1));
    assert_eq!(selected_index(&clips, "B"), None);
    assert_eq!(selected_index(&clips, "c"), None);
    assert_eq!(selected_index(&Vec::new(), "a"), None);
}

#[test]
fn action_menu_offers_what_fits_the_clip() {
    assert_eq!(
        clip_actions(&clip("x", 1, true, true, Some(true))),
        vec![OpenUrl, CopyUrl, View, Rename, Edit, CopyName, Unlike, DeleteServer, DeleteLocal, Back]
    );
    assert_eq!(
        clip_actions(&clip("x", 1, true, false, Some(false))),
        vec![View, Rename, Edit, CopyName, Like, Share, DeleteLocal, Back]
    );
    assert_eq!(
        clip_actions(&clip("x", 1, false, true, None)),
        vec![OpenUrl, CopyUrl, DeleteServer, Back]
    );
    assert_eq!(clip_actions(&clip("x", 1, false, false, None)), vec![Back]);
    assert_eq!(
        clip_actions(&clip("x", 1, true, false, None)),
        vec![View, Rename, Edit, CopyName, Like, Share, DeleteLocal, Back]
    );
}

#[test]
fn action_labels_read_back() {
    let all = [
        (OpenUrl, "⌂ Open URL"),
        (CopyUrl, "☐ Copy URL"),
        (View, "▷ View Local File"),
        (Rename, "✎ Rename"),
        (Edit, "✎ Edit"),
        (CopyName, "⎘ Copy Name"),
        (Unlike, "♡ Unlike"),
        (Like, "♥ Like"),
        (Share, "↗ Share"),
        (DeleteServer, "⌫ Delete Server Copy"),
        (DeleteLocal, "⌫ Delete Local File"),
        (Back, "← Back to Clip List"),
    ];
    for (action, label) in all {
        assert_eq!(action.to_label(), label);
        assert_eq!(action_of(label), Some(action));
    }
    assert_eq!(action_of("Open URL"), None);
    assert_eq!(action_of(""), None);
}

#[test]
fn follow_up_depends_on_action_and_success() {
    for action in [
        OpenUrl, CopyUrl, View, Rename, Edit, CopyName, Unlike, Like, Share, DeleteServer,
        DeleteLocal, Back,
    ] {
        assert_eq!(follow_up(action, false), FollowUp::Stay);
    }
    assert_eq!(follow_up(DeleteServer, true), FollowUp::DropClip);
    assert_eq!(follow_up(DeleteLocal, true), FollowUp::DropClip);
    assert_eq!(follow_up(Rename, true), FollowUp::Reload);
    assert_eq!(follow_up(Edit, true), FollowUp::Reload);
    assert_eq!(follow_up(Share, true), FollowUp::RefreshClip);
    assert_eq!(follow_up(Like, true), FollowUp::NoteLike);
    assert_eq!(follow_up(Unlike, true), FollowUp::NoteLike);
    assert_eq!(follow_up(View, true), FollowUp::Stay);
    assert_eq!(follow_up(OpenUrl, true), FollowUp::Stay);
    assert_eq!(follow_up(Back, true), FollowUp::Stay);
    assert_eq!(delete_question(DeleteServer), "Delete server copy?");
    assert_eq!(delete_question(DeleteLocal), "Delete local file?");
}

#[test]
fn rename_is_decided_from_the_input() {
    let d = decide_rename("old", " new name ", Some("mkv"));
    assert!(matches!(d, RenameDecision::Rename { new_full_name } if new_full_name == "new_name.mkv"));
    let d = decide_rename("old", "new", None);
    assert!(matches!(d, RenameDecision::Rename { new_full_name } if new_full_name == "new.mp4"));
    assert!(matches!(decide_rename("old", " old ", Some("mp4")), RenameDecision::Unchanged));
    assert!(matches!(
        decide_rename("old", "", Some("mp4")),
        RenameDecision::Invalid(NameError::Empty)
    ));
    assert!(matches!(
        decide_rename("old", "a/b", Some("mp4")),
        RenameDecision::Invalid(NameError::InvalidCharacters)
    ));
}

#[test]
fn like_is_switched_and_noted() {
    let mut c = clip("x", 1, true, false, Some(false));
    assert!(switched_like(&c));
    note_like(&mut c, true);
    assert_eq!(c.liked, Some(true));
    assert!(!switched_like(&c));
    let mut c = clip("x", 1, true, false, None);
    assert!(switched_like(&c));
    note_like(&mut c, true);
    assert_eq!(c.liked, None);
    assert_eq!(c.name, "x");
}

#[test]
fn refreshed_clip_is_taken_by_name() {
    let mut c = clip("x", 1, true, false, None);
    refresh_clip(
        &mut c,
        vec![clip("y", 5, true, true, None), clip("x", 9, true, true, None), clip("x", 7, true, false, None)],
    );
    assert_eq!(c.created_at.secs, 9);
    assert!(c.is_hosted);
    refresh_clip(&mut c, vec![clip("y", 5, true, true, None)]);
    assert_eq!(c.created_at.secs, 9);
}

#[test]
fn public_url_names_the_clip() {
    assert_eq!(public_url("https://api.example.com", "abc"), "https://api.example.com/clip/abc");
    let c = clip("x", 1, false, true, None);
    assert_eq!(
        hosted_address("https://w.io", &c).unwrap(),
        "https://w.io/clip/550e8400-e29b-41d4-a716-446655440000"
    );
    let c = clip("x", 1, true, false, None);
    assert_eq!(
        hosted_address("https://w.io", &c).unwrap_err(),
        "'x' is not a hosted clip and does not have a public URL."
    );
}

#[test]
fn like_needs_local_file_and_data() {
    assert_eq!(like_decision(&clip("x", 1, true, false, Some(false))), Ok(true));
    assert_eq!(like_decision(&clip("x", 1, true, false, Some(true))), Ok(false));
    for c in [clip("x", 1, true, false, None), clip("x", 1, false, true, Some(true))] {
        assert_eq!(
            like_decision(&c).unwrap_err(),
            "Clip 'x' does not exist locally and cannot be liked/unliked."
        );
    }
    assert_eq!(like_word(true), "Liked");
    assert_eq!(like_word(false), "Unliked");
}

#[test]
fn delete_asks_for_each_copy_that_is_there() {
    assert_eq!(
        delete_plan(&clip("x", 1, true, true, None)),
        vec![DeleteStep::AskServer, DeleteStep::AskLocal]
    );
    assert_eq!(delete_plan(&clip("x", 1, false, true, None)), vec![DeleteStep::AskServer]);
    assert_eq!(delete_plan(&clip("x", 1, true, false, None)), vec![DeleteStep::AskLocal]);
    assert_eq!(delete_plan(&clip("x", 1, false, false, None)), vec![DeleteStep::NothingToDelete]);
    assert!(delete_default(DeleteStep::AskServer));
    assert!(!delete_default(DeleteStep::AskLocal));
}
