//! Starting the daemon with the session, as a user service of systemd.

use crate::flow::{join3, push_line, texts};
use crate::text::{chars_of, contains, contains_seq};
use vstd::prelude::*;
use vstd::string::StringExecFns;

verus! {

/// The name of the service.
pub const SERVICE_NAME: &'static str = "wayclip-daemon.service";

/// The name of the daemon's program.
pub const DAEMON_NAME: &'static str = "wayclip-daemon";

/// What stands in the unit file before the daemon's path.
pub const UNIT_HEAD: &'static str =
    "[Unit]\nDescription=Wayclip Daemon\nAfter=graphical.target pipewire.service pipewire-pulse.service\nWants=graphical.target\nStartLimitBurst=5\nStartLimitIntervalSec=60\n\n[Service]\nExecStart=";

/// What stands in the unit file behind the daemon's path.
pub const UNIT_TAIL: &'static str =
    "\nRestart=on-failure\nRestartSec=5\nType=notify\nTimeoutStartSec=90\nStandardOutput=journal\nStandardError=journal\n\n[Install]\nWantedBy=default.target\n";

/// Writes the unit file of the service for the daemon at `daemon_path`.
pub fn service_unit(daemon_path: &str) -> (s: String)
    ensures
        s@ == UNIT_HEAD@ + daemon_path@ + UNIT_TAIL@,
{
    join3(UNIT_HEAD, daemon_path, UNIT_TAIL)
}

/// What `systemctl` is asked to do.
#[derive(Clone, Copy, Debug, PartialEq, Eq, Structural)]
pub enum ServiceRequest {
    /// Read the unit files anew.
    Reload,
    /// Enable the service and start it.
    Enable,
    /// Disable the service and stop it.
    Disable,
}

/// The arguments of a request to `systemctl`, which all concern the
/// user's own services.
pub open spec fn request_arguments(request: ServiceRequest) -> Seq<Seq<char>> {
    match request {
        ServiceRequest::Reload => seq!["--user"@, "daemon-reload"@],
        ServiceRequest::Enable => seq!["--user"@, "enable"@, "--now"@, SERVICE_NAME@],
        ServiceRequest::Disable => seq!["--user"@, "disable"@, "--now"@, SERVICE_NAME@],
    }
}

/// Lists the arguments that `systemctl` is started with.
pub fn systemctl_arguments(request: ServiceRequest) -> (v: Vec<String>)
    ensures
        texts(v@) == request_arguments(request),
{
    let mut v: Vec<String> = Vec::new();
    push_line(&mut v, String::from_str("--user"));
    match request {
        ServiceRequest::Reload => {
            push_line(&mut v, String::from_str("daemon-reload"));
        },
        ServiceRequest::Enable => {
            push_line(&mut v, String::from_str("enable"));
            push_line(&mut v, String::from_str("--now"));
            push_line(&mut v, String::from_str(SERVICE_NAME));
        },
        ServiceRequest::Disable => {
            push_line(&mut v, String::from_str("disable"));
            push_line(&mut v, String::from_str("--now"));
            push_line(&mut v, String::from_str(SERVICE_NAME));
        },
    }
    assert(texts(v@) =~= request_arguments(request));
    v
}

/// A failure to disable the service does no harm where the service was
/// not there: the complaint says that the unit file does not exist, or
/// that there is no such file.
pub open spec fn is_harmless(complaint: Seq<char>) -> bool {
    contains_seq(complaint, "unit file does not exist"@) || contains_seq(
        complaint,
        "No such file or directory"@,
    )
}

/// Tells whether a failure to disable the service does no harm.
pub fn disable_failure_is_harmless(complaint: &str) -> (b: bool)
    ensures
        b == is_harmless(complaint@),
{
    let c = chars_of(complaint);
    contains(&c, &chars_of("unit file does not exist")) || contains(
        &c,
        &chars_of("No such file or directory"),
    )
}

/// What the enabling of the service does next.
#[derive(Clone, Copy, Debug, PartialEq, Eq, Structural)]
pub enum UnitDecision {
    /// Write the unit file.
    Write,
    /// Ask whether to overwrite the unit file that is there.
    AskOverwrite,
    /// Leave everything as it is.
    Cancel,
}

/// What is done about the unit file: it is written where there is none,
/// and over one that is there only with the user's consent.
pub open spec fn unit_decision_of(exists: bool, consent: Option<bool>) -> UnitDecision {
    if !exists {
        UnitDecision::Write
    } else {
        match consent {
            None => UnitDecision::AskOverwrite,
            Some(true) => UnitDecision::Write,
            Some(false) => UnitDecision::Cancel,
        }
    }
}

/// Decides what is done about the unit file; `consent` is the user's
/// answer to the question, once it was asked.
pub fn unit_decision(exists: bool, consent: Option<bool>) -> (d: UnitDecision)
    ensures
        d == unit_decision_of(exists, consent),
{
    if !exists {
        return UnitDecision::Write;
    }
    match consent {
        None => UnitDecision::AskOverwrite,
        Some(true) => UnitDecision::Write,
        Some(false) => UnitDecision::Cancel,
    }
}

} // verus!
