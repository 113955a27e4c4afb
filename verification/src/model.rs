//! The values that pass between the parts of the client.

use vstd::prelude::*;

verus! {

/// The loopback port on which the login callback is awaited.
pub const LOCAL_PORT: u16 = 54321;

/// What the callback listener hands to the login that waits for it.
#[derive(Clone, Debug)]
pub enum AuthCallbackResult {
    /// The browser came back with a session token.
    Success(String),
    /// The browser came back with the token of a pending second-factor
    /// challenge.
    TwoFactor(String),
    /// The listener could not do its work; the reason `port` says that the
    /// port could not be bound.
    Error(String),
}

/// An `AuthCallbackResult` as contracts see it.
pub enum CallbackOutcome {
    Success(Seq<char>),
    TwoFactorPending(Seq<char>),
    Error(Seq<char>),
}

impl View for AuthCallbackResult {
    type V = CallbackOutcome;

    open spec fn view(&self) -> CallbackOutcome {
        match self {
            AuthCallbackResult::Success(t) => CallbackOutcome::Success(t@),
            AuthCallbackResult::TwoFactor(t) => CallbackOutcome::TwoFactorPending(t@),
            AuthCallbackResult::Error(e) => CallbackOutcome::Error(e@),
        }
    }
}

/// The view of an outcome that may be absent.
pub open spec fn outcome_view(o: Option<AuthCallbackResult>) -> Option<CallbackOutcome> {
    match o {
        Some(r) => Some(r@),
        None => None,
    }
}

/// The view of a string that may be absent.
pub open spec fn text_view(o: Option<String>) -> Option<Seq<char>> {
    match o {
        Some(s) => Some(s@),
        None => None,
    }
}

/// One line of the clip menu: the clip's name and the text shown for it.
#[derive(Clone, Debug)]
pub struct ClipDisplay {
    pub name: String,
    pub display_string: String,
}

impl ClipDisplay {
    /// The text shown for the clip.
    pub fn label(&self) -> (s: String)
        ensures
            s@ == self.display_string@,
    {
        self.display_string.clone()
    }
}

/// The command line, read.
#[derive(Clone, Debug)]
pub struct Cli {
    pub command: Commands,
    pub debug: bool,
}

/// The subcommands of the client.
#[derive(Clone, Debug)]
#[allow(inconsistent_fields)]
pub enum Commands {
    Daemon { action: DaemonCommand },
    Save,
    List { timestamp: bool, length: bool, reverse: bool, size: bool, extra: bool },
    Manage,
    Config { editor: Option<String> },
    View { name: String, player: Option<String> },
    Delete { name: String },
    Rename { name: String },
    Edit { name: String, start_time: String, end_time: String, disable_audio: bool },
    Login { browser: Option<String> },
    Logout,
    Me,
    TwoFactorAuth { action: TwoFactorCommand },
    Share { name: String },
    Like { name: String },
    Url { name: String },
    Open { name: String },
    Audio,
}

/// Whether the daemon starts with the session.
#[derive(Clone, Copy, Debug, PartialEq, Eq, Structural)]
pub enum AutostartAction {
    On,
    Off,
}

/// What to do with the daemon.
#[derive(Clone, Copy, Debug, PartialEq, Eq, Structural)]
pub enum DaemonCommand {
    Start,
    Stop,
    Restart,
    Status,
    Logs,
    Autostart { action: AutostartAction },
}

/// What to do about the second factor.
#[derive(Clone, Copy, Debug, PartialEq, Eq, Structural)]
pub enum TwoFactorCommand {
    Setup,
    Status,
}

/// The properties of a PipeWire node that the device menu reads: its media
/// class, its name and its description, each where the node has it as text.
#[derive(Clone, Debug)]
pub struct PwNodeInfo {
    pub media_class: Option<String>,
    pub name: Option<String>,
    pub description: Option<String>,
}

/// A PipeWire node.
#[derive(Clone, Debug)]
pub struct PwNode {
    pub info: PwNodeInfo,
}

/// An audio device that can be chosen.
#[derive(Clone, Debug)]
pub struct AudioDevice {
    pub name: String,
    pub description: String,
}

} // verus!
