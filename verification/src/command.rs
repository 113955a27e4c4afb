//! The outside programs that the client starts: the editor of the settings,
//! the media player, the clipboard tools and the trigger of the daemon.

use crate::flow::{join, push_line, texts};
use crate::model::text_view;
use crate::split::{views, words, words_of};
use crate::text::{chars_of, string_of};
use vstd::prelude::*;
use vstd::string::StringExecFns;

verus! {

/// A program to start, with its arguments.
#[derive(Clone, Debug)]
pub struct CommandLine {
    pub program: String,
    pub args: Vec<String>,
}

/// A `CommandLine` as contracts see it.
pub struct CommandLineView {
    pub program: Seq<char>,
    pub args: Seq<Seq<char>>,
}

impl View for CommandLine {
    type V = CommandLineView;

    open spec fn view(&self) -> CommandLineView {
        CommandLineView { program: self.program@, args: texts(self.args@) }
    }
}

/// The command that a text stands for: its first word is the program, the
/// other words are arguments; a text without a word stands for `fallback`
/// alone. `last` is added as the last argument.
pub open spec fn command_of(text: Seq<char>, fallback: Seq<char>, last: Seq<char>)
    -> CommandLineView {
    if words(text).len() == 0 {
        CommandLineView { program: fallback, args: seq![last] }
    } else {
        CommandLineView { program: words(text)[0], args: words(text).drop_first().push(last) }
    }
}

/// Reads a command out of a text.
pub fn command_line(text: &str, fallback: &str, last: &str) -> (c: CommandLine)
    ensures
        c@ == command_of(text@, fallback@, last@),
{
    let w = words_of(&chars_of(text));
    let mut args: Vec<String> = Vec::new();
    if w.len() == 0 {
        push_line(&mut args, String::from_str(last));
        assert(texts(args@) =~= seq![last@]);
        return CommandLine { program: String::from_str(fallback), args };
    }
    assert(views(w@)[0] == w@[0]@);
    let program = string_of(&w[0]);
    let mut i: usize = 1;
    assert(texts(args@) =~= words(text@).drop_first().take(0));
    while i < w.len()
        invariant
            1 <= i <= w.len(),
            views(w@) == words(text@),
            texts(args@) == words(text@).drop_first().take(i - 1),
        decreases w.len() - i,
    {
        assert(views(w@)[i as int] == w@[i as int]@);
        let ghost before = texts(args@);
        push_line(&mut args, string_of(&w[i]));
        assert(before.push(w@[i as int]@) =~= words(text@).drop_first().take(i as int));
        i += 1;
    }
    assert(words(text@).drop_first().take(w.len() - 1) =~= words(text@).drop_first());
    push_line(&mut args, String::from_str(last));
    CommandLine { program, args }
}

/// The editor to use: the one named on the command line, else the one that
/// `VISUAL` names, else the one that `EDITOR` names.
pub open spec fn editor_of(
    flag: Option<Seq<char>>,
    visual: Option<Seq<char>>,
    editor: Option<Seq<char>>,
) -> Option<Seq<char>> {
    if flag is Some {
        flag
    } else if visual is Some {
        visual
    } else {
        editor
    }
}

/// Chooses the editor of the settings.
pub fn choose_editor(flag: Option<String>, visual: Option<String>, editor: Option<String>) -> (r:
    Option<String>)
    ensures
        text_view(r) == editor_of(text_view(flag), text_view(visual), text_view(editor)),
{
    match flag {
        Some(f) => Some(f),
        None => match visual {
            Some(v) => Some(v),
            None => editor,
        },
    }
}

/// The command that opens the settings: the chosen editor, `nano` without
/// one, on the settings file.
pub open spec fn editor_command(chosen: Option<Seq<char>>, settings: Seq<char>) -> CommandLineView {
    match chosen {
        Some(text) => command_of(text, "nano"@, settings),
        None => CommandLineView { program: "nano"@, args: seq![settings] },
    }
}

/// The line that tells which editor is used.
pub open spec fn editor_notice(chosen: Option<Seq<char>>) -> Seq<char> {
    match chosen {
        Some(text) => "Using editor: "@ + text,
        None => "VISUAL and EDITOR not set, falling back to nano."@,
    }
}

/// Decides how the settings are opened: the line to show and the command
/// to run.
pub fn open_settings(chosen: Option<&str>, settings: &str) -> (r: (String, CommandLine))
    ensures
        r.0@ == editor_notice(
            match chosen {
                Some(c) => Some(c@),
                None => None,
            },
        ),
        r.1@ == editor_command(
            match chosen {
                Some(c) => Some(c@),
                None => None,
            },
            settings@,
        ),
{
    match chosen {
        Some(text) => (join("Using editor: ", text), command_line(text, "nano", settings)),
        None => {
            let mut args: Vec<String> = Vec::new();
            push_line(&mut args, String::from_str(settings));
            assert(texts(args@) =~= seq![settings@]);
            (
                String::from_str("VISUAL and EDITOR not set, falling back to nano."),
                CommandLine { program: String::from_str("nano"), args },
            )
        },
    }
}

/// The command that plays a clip: the named player, `mpv` without one, on
/// the clip's file.
pub open spec fn player_command_of(player: Option<Seq<char>>, file: Seq<char>) -> CommandLineView {
    command_of(
        match player {
            Some(p) => p,
            None => "mpv"@,
        },
        "mpv"@,
        file,
    )
}

/// Decides how a clip is played.
pub fn player_command(player: Option<&str>, file: &str) -> (c: CommandLine)
    ensures
        c@ == player_command_of(
            match player {
                Some(p) => Some(p@),
                None => None,
            },
            file@,
        ),
{
    match player {
        Some(p) => command_line(p, "mpv", file),
        None => command_line("mpv", "mpv", file),
    }
}

/// A player's exit counts as fine where it reports success, or ends with
/// code 3 or 4, as players do when the user closes them.
pub open spec fn exit_is_fine(success: bool, code: Option<i32>) -> bool {
    success || code == Some(3i32) || code == Some(4i32)
}

/// Tells whether a player's exit counts as fine.
pub fn player_exit_is_fine(success: bool, code: Option<i32>) -> (b: bool)
    ensures
        b == exit_is_fine(success, code),
{
    if success {
        return true;
    }
    match code {
        Some(c) => c == 3 || c == 4,
        None => false,
    }
}

/// A way to fill the clipboard.
#[derive(Clone, Copy, Debug, PartialEq, Eq, Structural)]
pub enum ClipboardTool {
    /// The tool of Wayland sessions, `wl-copy`.
    WlCopy,
    /// The tool of X11 sessions, `xclip`.
    Xclip,
    /// The clipboard library that is built in.
    Native,
}

/// The ways to fill the clipboard, in the order to try them: the tool of
/// each kind of session that is running, then the library.
pub open spec fn clipboard_order(wayland: bool, x11: bool) -> Seq<ClipboardTool> {
    (if wayland {
        seq![ClipboardTool::WlCopy]
    } else {
        Seq::empty()
    }) + (if x11 {
        seq![ClipboardTool::Xclip]
    } else {
        Seq::empty()
    }) + seq![ClipboardTool::Native]
}

/// Lists the ways to fill the clipboard; `wayland` and `x11` say whether
/// the session has a Wayland and an X11 display.
pub fn clipboard_attempts(wayland: bool, x11: bool) -> (v: Vec<ClipboardTool>)
    ensures
        v@ == clipboard_order(wayland, x11),
{
    let mut v: Vec<ClipboardTool> = Vec::new();
    if wayland {
        v.push(ClipboardTool::WlCopy);
    }
    if x11 {
        v.push(ClipboardTool::Xclip);
    }
    v.push(ClipboardTool::Native);
    assert(v@ =~= clipboard_order(wayland, x11));
    v
}

/// The command of a clipboard tool; the library has none.
pub open spec fn tool_command_of(tool: ClipboardTool) -> Option<CommandLineView> {
    match tool {
        ClipboardTool::WlCopy => Some(
            CommandLineView { program: "wl-copy"@, args: Seq::empty() },
        ),
        ClipboardTool::Xclip => Some(
            CommandLineView { program: "xclip"@, args: seq!["-selection"@, "clipboard"@] },
        ),
        ClipboardTool::Native => None,
    }
}

/// The view of a command that may be absent.
pub open spec fn command_view(c: Option<CommandLine>) -> Option<CommandLineView> {
    match c {
        Some(c) => Some(c@),
        None => None,
    }
}

/// The command of a clipboard tool, which takes the text on its input.
pub fn tool_command(tool: ClipboardTool) -> (c: Option<CommandLine>)
    ensures
        command_view(c) == tool_command_of(tool),
{
    match tool {
        ClipboardTool::WlCopy => {
            let args: Vec<String> = Vec::new();
            assert(texts(args@) =~= Seq::<Seq<char>>::empty());
            Some(CommandLine { program: String::from_str("wl-copy"), args })
        },
        ClipboardTool::Xclip => {
            let mut args: Vec<String> = Vec::new();
            push_line(&mut args, String::from_str("-selection"));
            push_line(&mut args, String::from_str("clipboard"));
            assert(texts(args@) =~= seq!["-selection"@, "clipboard"@]);
            Some(CommandLine { program: String::from_str("xclip"), args })
        },
        ClipboardTool::Native => None,
    }
}

/// What the user is told when no way to fill the clipboard worked; `cause`
/// is the library's complaint.
pub fn clipboard_failure(cause: &str) -> (s: String)
    ensures
        s@
            == "Could not access clipboard.\n- Please install 'wl-clipboard' (Wayland) or 'xclip' (X11).\n- arboard error: "@
            + cause@,
{
    join(
        "Could not access clipboard.\n- Please install 'wl-clipboard' (Wayland) or 'xclip' (X11).\n- arboard error: ",
        cause,
    )
}

/// The library is always tried, and tried last.
pub proof fn lemma_native_is_last(wayland: bool, x11: bool)
    ensures
        clipboard_order(wayland, x11).len() >= 1,
        clipboard_order(wayland, x11).last() == ClipboardTool::Native,
        forall|i: int|
            0 <= i < clipboard_order(wayland, x11).len() - 1 ==> clipboard_order(wayland, x11)[i]
                != ClipboardTool::Native,
{
}

} // verus!
