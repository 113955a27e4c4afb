//! Clips as the client sees them: local files, hosted copies, or both.

use crate::ascii::{eq_ignore_case, lowered, same_ignoring_case, to_lowered};
use crate::flow::join3;
use crate::model::text_view;
use crate::text::{chars_of, ends_with, has_suffix, slice_of, string_of, trim, trimmed};
use vstd::prelude::*;
use vstd::string::StringExecFns;

verus! {

/// A point in time: seconds since the epoch, and the nanoseconds into the
/// second.
#[derive(Clone, Copy, Debug, PartialEq, Eq, Structural)]
pub struct Instant {
    pub secs: i64,
    pub nanos: u32,
}

impl Instant {
    /// The nanoseconds since the epoch.
    pub open spec fn total(self) -> int {
        self.secs * 1_000_000_000 + self.nanos
    }
}

/// What the client knows of one clip.
#[derive(Clone, Debug)]
pub struct Clip {
    /// The name, without extension.
    pub name: String,
    /// The name of the local file, with extension.
    pub full_filename: String,
    /// Where the local file is, where there is one.
    pub local_path: Option<String>,
    /// The id of the hosted copy, where there is one.
    pub hosted_id: Option<String>,
    pub is_hosted: bool,
    /// Whether the clip is liked, where local data is kept of it.
    pub liked: Option<bool>,
    pub created_at: Instant,
}

/// A `Clip` as contracts see it.
pub struct ClipView {
    pub name: Seq<char>,
    pub full_filename: Seq<char>,
    pub local_path: Option<Seq<char>>,
    pub hosted_id: Option<Seq<char>>,
    pub is_hosted: bool,
    pub liked: Option<bool>,
    pub created_at: Instant,
}

impl View for Clip {
    type V = ClipView;

    open spec fn view(&self) -> ClipView {
        ClipView {
            name: self.name@,
            full_filename: self.full_filename@,
            local_path: text_view(self.local_path),
            hosted_id: text_view(self.hosted_id),
            is_hosted: self.is_hosted,
            liked: self.liked,
            created_at: self.created_at,
        }
    }
}

impl ClipView {
    /// The clip is liked: local data is kept of it and says so.
    pub open spec fn is_liked(self) -> bool {
        self.liked == Some(true)
    }
}

impl Clip {
    /// Tells whether the clip is liked.
    pub fn is_liked(&self) -> (b: bool)
        ensures
            b == self@.is_liked(),
    {
        match self.liked {
            Some(l) => l,
            None => false,
        }
    }
}

/// The views of the clips in `v`, in order.
pub open spec fn clip_views(v: Seq<Clip>) -> Seq<ClipView> {
    Seq::new(v.len(), |i: int| v[i]@)
}

/// Why no clip was found.
#[derive(Clone, Debug)]
pub enum ClipError {
    /// Nothing is left of the name once white space and extension are gone.
    EmptyName,
    /// No clip has this name.
    NotFound(String),
}

/// A `ClipError` as contracts see it.
pub enum ClipErrorView {
    EmptyName,
    NotFound(Seq<char>),
}

impl View for ClipError {
    type V = ClipErrorView;

    open spec fn view(&self) -> ClipErrorView {
        match self {
            ClipError::EmptyName => ClipErrorView::EmptyName,
            ClipError::NotFound(s) => ClipErrorView::NotFound(s@),
        }
    }
}

impl ClipErrorView {
    /// What the user is told.
    pub open spec fn text(self) -> Seq<char> {
        match self {
            ClipErrorView::EmptyName => "Clip name cannot be empty."@,
            ClipErrorView::NotFound(stem) => "Clip '"@ + stem + "' not found."@,
        }
    }
}

impl ClipError {
    /// What the user is told.
    pub fn message(&self) -> (s: String)
        ensures
            s@ == self@.text(),
    {
        match self {
            ClipError::EmptyName => String::from_str("Clip name cannot be empty."),
            ClipError::NotFound(stem) => join3("Clip '", stem.as_str(), "' not found."),
        }
    }
}

/// The name that an input stands for: the input without the white space
/// around it, and without the extension `.mp4`, in either case, at its end.
pub open spec fn stem_of(input: Seq<char>) -> Seq<char> {
    let t = trimmed(input);
    if has_suffix(lowered(t), ".mp4"@) {
        t.take(t.len() - 4)
    } else {
        t
    }
}

/// Reads a clip's name out of what the user typed; an empty name is
/// turned down.
pub fn clip_stem(name_input: &str) -> (r: Result<String, ClipError>)
    ensures
        match r {
            Ok(stem) => stem@ == stem_of(name_input@) && stem@.len() > 0,
            Err(e) => e@ == ClipErrorView::EmptyName && stem_of(name_input@).len() == 0,
        },
{
    let t = trim(&chars_of(name_input));
    let suffix = chars_of(".mp4");
    proof {
        reveal_strlit(".mp4");
    }
    let stem = if ends_with(&to_lowered(&t), &suffix) {
        slice_of(&t, 0, t.len() - 4)
    } else {
        slice_of(&t, 0, t.len())
    };
    assert(t@.subrange(0, t@.len() as int) == t@);
    if stem.len() == 0 {
        Err(ClipError::EmptyName)
    } else {
        Ok(string_of(&stem))
    }
}

/// The index of the first clip whose name is `stem` but for the case of
/// ASCII letters; the number of clips where there is none.
pub open spec fn index_of_name(clips: Seq<ClipView>, stem: Seq<char>) -> int
    decreases clips.len(),
{
    if clips.len() == 0 {
        0
    } else if same_ignoring_case(clips[0].name, stem) {
        0
    } else {
        1 + index_of_name(clips.drop_first(), stem)
    }
}

/// `index_of_name` gives the first match: an index that is in range
/// exactly where a clip has the name, with no match before it.
pub proof fn lemma_index_of_name(clips: Seq<ClipView>, stem: Seq<char>)
    ensures
        0 <= index_of_name(clips, stem) <= clips.len(),
        index_of_name(clips, stem) < clips.len() ==> same_ignoring_case(
            clips[index_of_name(clips, stem)].name,
            stem,
        ),
        forall|j: int|
            0 <= j < index_of_name(clips, stem) ==> !same_ignoring_case(
                (#[trigger] clips[j]).name,
                stem,
            ),
    decreases clips.len(),
{
    if clips.len() > 0 && !same_ignoring_case(clips[0].name, stem) {
        let rest = clips.drop_first();
        lemma_index_of_name(rest, stem);
        assert forall|j: int| 0 <= j < index_of_name(clips, stem) implies !same_ignoring_case(
            (#[trigger] clips[j]).name,
            stem,
        ) by {
            if j > 0 {
                assert(clips[j] == rest[j - 1]);
            }
        }
    }
}

/// Finds the first clip whose name is `stem` but for the case of ASCII
/// letters.
pub fn position_of_name(clips: &Vec<Clip>, stem: &str) -> (r: Option<usize>)
    ensures
        match r {
            Some(i) => i < clips.len() && i == index_of_name(clip_views(clips@), stem@),
            None => index_of_name(clip_views(clips@), stem@) == clips.len(),
        },
{
    let wanted = chars_of(stem);
    let mut i: usize = 0;
    assert(clip_views(clips@).skip(0) == clip_views(clips@));
    while i < clips.len()
        invariant
            i <= clips.len(),
            wanted@ == stem@,
            index_of_name(clip_views(clips@), stem@) == i + index_of_name(
                clip_views(clips@).skip(i as int),
                stem@,
            ),
        decreases clips.len() - i,
    {
        let ghost rest = clip_views(clips@).skip(i as int);
        assert(rest[0] == clips@[i as int]@);
        assert(rest.drop_first() == clip_views(clips@).skip(i + 1));
        if eq_ignore_case(&chars_of(clips[i].name.as_str()), &wanted) {
            return Some(i);
        }
        i += 1;
    }
    None
}

/// What looking a clip up by name gives: the first clip of that name, or
/// the reason why there is none.
pub open spec fn lookup(input: Seq<char>, clips: Seq<ClipView>) -> Result<ClipView, ClipErrorView> {
    let stem = stem_of(input);
    if stem.len() == 0 {
        Err(ClipErrorView::EmptyName)
    } else if index_of_name(clips, stem) < clips.len() {
        Ok(clips[index_of_name(clips, stem)])
    } else {
        Err(ClipErrorView::NotFound(stem))
    }
}

/// Looks a clip up by the name that the user typed, among the clips that
/// were gathered.
pub fn find_unified_clip(name_input: &str, clips: Vec<Clip>) -> (r: Result<Clip, ClipError>)
    ensures
        match r {
            Ok(clip) => lookup(name_input@, clip_views(clips@)) == Ok::<ClipView, ClipErrorView>(
                clip@,
            ),
            Err(e) => lookup(name_input@, clip_views(clips@)) == Err::<ClipView, ClipErrorView>(
                e@,
            ),
        },
{
    let stem = match clip_stem(name_input) {
        Ok(stem) => stem,
        Err(e) => {
            return Err(e);
        },
    };
    let mut clips = clips;
    match position_of_name(&clips, stem.as_str()) {
        Some(i) => {
            assert(clip_views(clips@)[i as int] == clips@[i as int]@);
            Ok(clips.remove(i))
        },
        None => Err(ClipError::NotFound(stem)),
    }
}

} // verus!
