//! Cutting a clip: the times, the target file, and the arguments that
//! `ffmpeg` is started with.

use crate::flow::{join, push_line, texts};
use crate::text::{chars_of, same_chars, trimmed};
use crate::validate::{
    filename_stem, is_clip_time, sanitize_and_validate_filename_stem, validate_ffmpeg_time,
    NameError, TimeError,
};
use vstd::prelude::*;
use vstd::string::StringExecFns;

verus! {

/// Checks the two times of a cut, the start first.
pub fn edit_times(start: &str, end: &str) -> (r: Result<(String, String), TimeError>)
    ensures
        match r {
            Ok(times) => is_clip_time(trimmed(start@)) && is_clip_time(trimmed(end@)) && times.0@
                == trimmed(start@) && times.1@ == trimmed(end@),
            Err(e) => if !is_clip_time(trimmed(start@)) {
                e.input@ == start@
            } else {
                !is_clip_time(trimmed(end@)) && e.input@ == end@
            },
        },
{
    let start = match validate_ffmpeg_time(start) {
        Ok(t) => t,
        Err(e) => {
            return Err(e);
        },
    };
    match validate_ffmpeg_time(end) {
        Ok(end) => Ok((start, end)),
        Err(e) => Err(e),
    }
}

/// Where the cut goes.
#[derive(Clone, Copy, Debug, PartialEq, Eq, Structural)]
pub enum EditMode {
    /// Into a new file beside the clip's file.
    NewCopy,
    /// Over the clip's file.
    Overwrite,
}

/// The entries of the menu that asks where the cut goes.
pub open spec fn edit_labels() -> Seq<Seq<char>> {
    seq!["Create a new, edited copy"@, "Modify the original file"@]
}

/// The entries of the menu that asks where the cut goes.
pub fn edit_options() -> (v: Vec<String>)
    ensures
        texts(v@) == edit_labels(),
{
    let mut v: Vec<String> = Vec::new();
    push_line(&mut v, String::from_str("Create a new, edited copy"));
    push_line(&mut v, String::from_str("Modify the original file"));
    assert(texts(v@) =~= edit_labels());
    v
}

/// Reads the user's choice of where the cut goes: the first entry is a new
/// copy, anything else the clip's own file.
pub fn edit_mode(choice: &str) -> (m: EditMode)
    ensures
        m == if choice@ == "Create a new, edited copy"@ {
            EditMode::NewCopy
        } else {
            EditMode::Overwrite
        },
{
    if same_chars(&chars_of(choice), &chars_of("Create a new, edited copy")) {
        EditMode::NewCopy
    } else {
        EditMode::Overwrite
    }
}

/// The name that is suggested for a new copy.
pub fn copy_suggestion(name: &str) -> (s: String)
    ensures
        s@ == name@ + "_edited"@,
{
    join(name, "_edited")
}

/// The file name of a new copy: the stem that the input stands for, with
/// the extension `.mp4`.
pub open spec fn copy_name(input: Seq<char>) -> Result<Seq<char>, NameError> {
    match filename_stem(input) {
        Ok(stem) => Ok(stem + ".mp4"@),
        Err(e) => Err(e),
    }
}

/// Turns what the user typed into the file name of a new copy.
pub fn copy_file_name(input: &str) -> (r: Result<String, NameError>)
    ensures
        match r {
            Ok(name) => copy_name(input@) == Ok::<Seq<char>, NameError>(name@),
            Err(e) => copy_name(input@) == Err::<Seq<char>, NameError>(e),
        },
{
    match sanitize_and_validate_filename_stem(input) {
        Ok(stem) => Ok(join(stem.as_str(), ".mp4")),
        Err(e) => Err(e),
    }
}

/// The arguments of the cut: the input, the two times, the picture copied
/// as it is, the sound copied or left out, the output.
pub open spec fn cut_arguments(
    input: Seq<char>,
    start: Seq<char>,
    end: Seq<char>,
    disable_audio: bool,
    output: Seq<char>,
) -> Seq<Seq<char>> {
    seq!["-i"@, input, "-ss"@, start, "-to"@, end, "-c:v"@, "copy"@] + (if disable_audio {
        seq!["-an"@]
    } else {
        seq!["-c:a"@, "copy"@]
    }) + seq![output]
}

/// Lists the arguments that `ffmpeg` is started with.
pub fn ffmpeg_arguments(input: &str, start: &str, end: &str, disable_audio: bool, output: &str)
    -> (v: Vec<String>)
    ensures
        texts(v@) == cut_arguments(input@, start@, end@, disable_audio, output@),
{
    let mut v: Vec<String> = Vec::new();
    push_line(&mut v, String::from_str("-i"));
    push_line(&mut v, String::from_str(input));
    push_line(&mut v, String::from_str("-ss"));
    push_line(&mut v, String::from_str(start));
    push_line(&mut v, String::from_str("-to"));
    push_line(&mut v, String::from_str(end));
    push_line(&mut v, String::from_str("-c:v"));
    push_line(&mut v, String::from_str("copy"));
    if disable_audio {
        push_line(&mut v, String::from_str("-an"));
    } else {
        push_line(&mut v, String::from_str("-c:a"));
        push_line(&mut v, String::from_str("copy"));
    }
    push_line(&mut v, String::from_str(output));
    assert(texts(v@) =~= cut_arguments(input@, start@, end@, disable_audio, output@));
    v
}

} // verus!
