//! Checks on what the user types: file names and clip times.

use crate::number::{float, is_float};
use crate::split::{split, split_chars, views};
use crate::text::{chars_of, string_of, trim, trimmed};
use vstd::prelude::*;
use vstd::string::StringExecFns;

verus! {

/// Why a file name was turned down.
#[derive(Clone, Copy, Debug, PartialEq, Eq, Structural)]
pub enum NameError {
    /// Nothing is left of the name once the white space around it is gone.
    Empty,
    /// The name holds a character that file systems reserve.
    InvalidCharacters,
}

impl NameError {
    /// What the user is told.
    pub open spec fn text(self) -> Seq<char> {
        match self {
            NameError::Empty => "New name cannot be empty."@,
            NameError::InvalidCharacters =>
                "New name contains invalid characters (< > : \" / \\ | ? *)."@,
        }
    }

    /// What the user is told.
    pub fn message(&self) -> (s: String)
        ensures
            s@ == self.text(),
    {
        match self {
            NameError::Empty => String::from_str("New name cannot be empty."),
            NameError::InvalidCharacters => String::from_str(
                "New name contains invalid characters (< > : \" / \\ | ? *).",
            ),
        }
    }
}

/// The characters that a file name may not hold.
pub open spec fn is_reserved(c: char) -> bool {
    c == '<' || c == '>' || c == ':' || c == '"' || c == '/' || c == '\\' || c == '|' || c == '?'
        || c == '*'
}

/// `s` with an underscore in place of every space.
pub open spec fn underscored(s: Seq<char>) -> Seq<char> {
    Seq::new(s.len(), |i: int| if s[i] == ' ' { '_' } else { s[i] })
}

/// The file-name stem that an input stands for: the input without the
/// white space around it and with underscores for its spaces, unless that
/// is empty or holds a reserved character.
pub open spec fn filename_stem(input: Seq<char>) -> Result<Seq<char>, NameError> {
    let name = underscored(trimmed(input));
    if name.len() == 0 {
        Err(NameError::Empty)
    } else if exists|i: int| 0 <= i < name.len() && is_reserved(name[i]) {
        Err(NameError::InvalidCharacters)
    } else {
        Ok(name)
    }
}

/// Turns what the user typed into a file-name stem, or says why it cannot
/// be one.
pub fn sanitize_and_validate_filename_stem(new_name_input: &str) -> (r: Result<String, NameError>)
    ensures
        match r {
            Ok(name) => filename_stem(new_name_input@) == Ok::<Seq<char>, NameError>(name@),
            Err(e) => filename_stem(new_name_input@) == Err::<Seq<char>, NameError>(e),
        },
{
    let t = trim(&chars_of(new_name_input));
    if t.len() == 0 {
        return Err(NameError::Empty);
    }
    let mut name: Vec<char> = Vec::new();
    let mut i: usize = 0;
    while i < t.len()
        invariant
            i <= t.len(),
            t@ == trimmed(new_name_input@),
            t@.len() > 0,
            name.len() == i,
            forall|j: int| 0 <= j < i ==> name@[j] == underscored(t@)[j] && !is_reserved(name@[j]),
        decreases t.len() - i,
    {
        let c = if t[i] == ' ' {
            '_'
        } else {
            t[i]
        };
        if c == '<' || c == '>' || c == ':' || c == '"' || c == '/' || c == '\\' || c == '|' || c
            == '?' || c == '*' {
            proof {
                let name = underscored(t@);
                assert(0 <= i < name.len() && is_reserved(name[i as int]));
            }
            return Err(NameError::InvalidCharacters);
        }
        name.push(c);
        i += 1;
    }
    assert(name@ =~= underscored(t@));
    Ok(string_of(&name))
}

/// A clip time that was turned down, with the input as it was typed.
#[derive(Clone, Debug)]
pub struct TimeError {
    pub input: String,
}

impl TimeError {
    /// What the user is told.
    pub open spec fn text(self) -> Seq<char> {
        "Invalid time format '"@ + self.input@
            + "'. Use seconds (e.g., 5.5) or HH:MM:SS format."@
    }

    /// What the user is told.
    pub fn message(&self) -> (s: String)
        ensures
            s@ == self.text(),
    {
        let mut s = String::from_str("Invalid time format '");
        s.append(self.input.as_str());
        s.append("'. Use seconds (e.g., 5.5) or HH:MM:SS format.");
        s
    }
}

/// `t` is a clip time: a number of seconds, or up to three numbers with
/// colons between them, none of them empty.
pub open spec fn is_clip_time(t: Seq<char>) -> bool {
    is_float(t) || (split(t, ':').len() <= 3 && forall|i: int|
        0 <= i < split(t, ':').len() ==> is_float(#[trigger] split(t, ':')[i]))
}

/// Checks a clip time. A time that passes comes back without the white
/// space around it.
pub fn validate_ffmpeg_time(time_str: &str) -> (r: Result<String, TimeError>)
    ensures
        match r {
            Ok(t) => is_clip_time(trimmed(time_str@)) && t@ == trimmed(time_str@),
            Err(e) => !is_clip_time(trimmed(time_str@)) && e.input@ == time_str@,
        },
{
    let t = trim(&chars_of(time_str));
    if float(&t) {
        return Ok(string_of(&t));
    }
    let parts = split_chars(&t, ':');
    if parts.len() > 3 {
        return Err(TimeError { input: String::from_str(time_str) });
    }
    let mut i: usize = 0;
    while i < parts.len()
        invariant
            i <= parts.len(),
            views(parts@) == split(t@, ':'),
            t@ == trimmed(time_str@),
            !is_float(t@),
            parts.len() <= 3,
            forall|j: int| 0 <= j < i ==> is_float(#[trigger] split(t@, ':')[j]),
        decreases parts.len() - i,
    {
        assert(views(parts@)[i as int] == parts@[i as int]@);
        if !float(&parts[i]) {
            return Err(TimeError { input: String::from_str(time_str) });
        }
        i += 1;
    }
    Ok(string_of(&t))
}

} // verus!
