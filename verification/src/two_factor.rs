//! The second-factor challenge of a login: one code, or one recovery code,
//! against the transient token of the attempt. The token is used once; a
//! failed challenge ends the whole attempt.

use crate::callback::{cookie_token, parse_token_from_header};
use crate::error::{AuthError, Failure};
use crate::flow::{
    fields_view, is_success, join, push_field, push_line, quiet, saying, silent, success, Action,
    ActionView, Event, EventView, Field, Step, StepView,
};
use crate::json::{json_member, lenient, member_or_absent, read_member, text_of, Member, MemberView};
use crate::model::text_view;
use crate::text::{chars_of, string_of, trim, trimmed};
use vstd::prelude::*;
use vstd::string::StringExecFns;

verus! {

/// Where a challenge stands. The token of the attempt is held until the
/// code goes out with it, and no longer.
#[derive(Clone, Debug)]
pub enum ChallengeState {
    /// The user is being asked for a code.
    AwaitCode { token: String },
    /// Token and code are with the service.
    AwaitVerdict,
    /// The challenge is over.
    Done,
}

/// A `ChallengeState` as contracts see it.
pub enum ChallengeStateView {
    AwaitCode { token: Seq<char> },
    AwaitVerdict,
    Done,
}

impl View for ChallengeState {
    type V = ChallengeStateView;

    open spec fn view(&self) -> ChallengeStateView {
        match self {
            ChallengeState::AwaitCode { token } => ChallengeStateView::AwaitCode { token: token@ },
            ChallengeState::AwaitVerdict => ChallengeStateView::AwaitVerdict,
            ChallengeState::Done => ChallengeStateView::Done,
        }
    }
}

/// The opening move: the user is asked for a code.
pub open spec fn challenge_opening() -> StepView {
    StepView {
        say: seq!["○ Two-Factor Authentication Required"@],
        action: ActionView::Ask {
            prompt: "› Enter your 2FA code or a recovery code:"@,
            masked: false,
        },
    }
}

/// What is done with the code that the user typed: an empty one is turned
/// down on the spot, any other goes to the service with the token.
pub open spec fn challenge_request(
    api_url: Seq<char>,
    token: Seq<char>,
    input: Seq<char>,
) -> ActionView {
    if trimmed(input).len() == 0 {
        ActionView::Fail(Failure::Validation("2FA code cannot be empty."@))
    } else {
        ActionView::Post {
            url: api_url + "/auth/2fa/authenticate"@,
            fields: seq![("2fa_token"@, token), ("code"@, trimmed(input))],
            with_session: false,
        }
    }
}

/// How the service's answer ends the challenge. `session` is the session
/// token of the answer's cookie, `message` the member `message` of its body.
pub open spec fn challenge_verdict(
    status: u16,
    session: Option<Seq<char>>,
    message: MemberView,
) -> ActionView {
    if is_success(status) {
        match session {
            Some(token) => ActionView::Commit {
                token,
                notice: "✔ 2FA authentication successful!"@,
            },
            None => ActionView::Fail(Failure::Server("2FA token not found in response."@)),
        }
    } else {
        ActionView::Fail(
            Failure::Server(
                "2FA authentication failed: "@ + match text_of(message) {
                    Some(m) => m,
                    None => "Invalid 2FA code."@,
                },
            ),
        )
    }
}

/// The state after an action: over, where the action is final.
pub open spec fn challenge_after(action: ActionView) -> ChallengeStateView {
    if action.is_final() {
        ChallengeStateView::Done
    } else {
        ChallengeStateView::AwaitVerdict
    }
}

/// The challenge as a machine: from a state and what was reported, the next
/// state and what to do.
pub open spec fn challenge_next(state: ChallengeStateView, event: EventView, api_url: Seq<char>)
    -> (ChallengeStateView, StepView) {
    match (state, event) {
        (ChallengeStateView::Done, _) => (
            ChallengeStateView::Done,
            quiet(ActionView::Fail(Failure::Aborted("The challenge is over."@))),
        ),
        (_, EventView::Failed(cause)) => (
            ChallengeStateView::Done,
            quiet(ActionView::Fail(Failure::Aborted(cause))),
        ),
        (ChallengeStateView::AwaitCode { token }, EventView::Entered(input)) => (
            challenge_after(challenge_request(api_url, token, input)),
            quiet(challenge_request(api_url, token, input)),
        ),
        (ChallengeStateView::AwaitVerdict, EventView::Response { status, body, set_cookie }) => (
            ChallengeStateView::Done,
            quiet(
                challenge_verdict(
                    status,
                    cookie_token(set_cookie),
                    member_or_absent(json_member(body, "message"@)),
                ),
            ),
        ),
        _ => (
            ChallengeStateView::Done,
            quiet(ActionView::Fail(Failure::Aborted("Unexpected answer."@))),
        ),
    }
}

/// Opens the challenge that `token` stands for.
pub fn begin_challenge(token: String) -> (r: (ChallengeState, Step))
    ensures
        r.0@ == (ChallengeStateView::AwaitCode { token: token@ }),
        r.1@ == challenge_opening(),
{
    let mut say: Vec<String> = Vec::new();
    push_line(&mut say, String::from_str("○ Two-Factor Authentication Required"));
    let step = saying(
        say,
        Action::Ask {
            prompt: String::from_str("› Enter your 2FA code or a recovery code:"),
            masked: false,
        },
    );
    assert(step@.say =~= seq!["○ Two-Factor Authentication Required"@]);
    (ChallengeState::AwaitCode { token }, step)
}

/// Decides what is done with the code that the user typed.
pub fn request_challenge(api_url: &str, token: &str, input: &str) -> (a: Action)
    ensures
        a@ == challenge_request(api_url@, token@, input@),
{
    let code = trim(&chars_of(input));
    if code.len() == 0 {
        return Action::Fail(AuthError::Validation(String::from_str("2FA code cannot be empty.")));
    }
    let code = string_of(&code);
    let mut fields: Vec<Field> = Vec::new();
    push_field(&mut fields, "2fa_token", token);
    push_field(&mut fields, "code", code.as_str());
    assert(fields_view(fields@) =~= seq![("2fa_token"@, token@), ("code"@, trimmed(input@))]);
    Action::Post { url: join(api_url, "/auth/2fa/authenticate"), fields, with_session: false }
}

/// Decides how the service's answer ends the challenge.
pub fn decide_challenge(status: u16, session: Option<String>, message: &Member) -> (a: Action)
    ensures
        a@ == challenge_verdict(status, text_view(session), message@),
{
    if success(status) {
        match session {
            Some(token) => Action::Commit {
                token,
                notice: String::from_str("✔ 2FA authentication successful!"),
            },
            None => Action::Fail(
                AuthError::Server(String::from_str("2FA token not found in response.")),
            ),
        }
    } else {
        let text = match message {
            Member::Text(m) => join("2FA authentication failed: ", m.as_str()),
            _ => join("2FA authentication failed: ", "Invalid 2FA code."),
        };
        Action::Fail(AuthError::Server(text))
    }
}

/// A step that fails because the event does not fit the state.
fn out_of_step() -> (r: (ChallengeState, Step))
    ensures
        r.0@ == ChallengeStateView::Done,
        r.1@ == quiet(ActionView::Fail(Failure::Aborted("Unexpected answer."@))),
{
    (
        ChallengeState::Done,
        silent(Action::Fail(AuthError::Aborted(String::from_str("Unexpected answer.")))),
    )
}

/// Moves the challenge on by one event.
pub fn challenge_step(state: ChallengeState, event: Event, api_url: &str) -> (r: (
    ChallengeState,
    Step,
))
    ensures
        (r.0@, r.1@) == challenge_next(state@, event@, api_url@),
{
    match state {
        ChallengeState::Done => (
            ChallengeState::Done,
            silent(Action::Fail(AuthError::Aborted(String::from_str("The challenge is over.")))),
        ),
        ChallengeState::AwaitCode { token } => match event {
            Event::Failed(cause) => (
                ChallengeState::Done,
                silent(Action::Fail(AuthError::Aborted(cause))),
            ),
            Event::Entered(input) => {
                let action = request_challenge(api_url, token.as_str(), input.as_str());
                let after = match action {
                    Action::Post { .. } => ChallengeState::AwaitVerdict,
                    _ => ChallengeState::Done,
                };
                (after, silent(action))
            },
            _ => out_of_step(),
        },
        ChallengeState::AwaitVerdict => match event {
            Event::Failed(cause) => (
                ChallengeState::Done,
                silent(Action::Fail(AuthError::Aborted(cause))),
            ),
            Event::Response { status, body, set_cookie } => {
                let session = match &set_cookie {
                    Some(h) => parse_token_from_header(Some(h.as_str())),
                    None => parse_token_from_header(None),
                };
                let message = lenient(read_member(body.as_str(), "message"));
                (ChallengeState::Done, silent(decide_challenge(status, session, &message)))
            },
            _ => out_of_step(),
        },
    }
}

/// A challenge ends exactly where its action is final: as long as it goes
/// on, no session is committed and no failure reported.
pub proof fn lemma_challenge_ends_once(
    state: ChallengeStateView,
    event: EventView,
    api_url: Seq<char>,
)
    ensures
        challenge_next(state, event, api_url).0 is Done <==> challenge_next(
            state,
            event,
            api_url,
        ).1.action.is_final(),
        challenge_next(state, event, api_url).1.action is Commit ==> state is AwaitVerdict
            && event is Response,
{
}

/// The token is used once: it goes out with the first code and is held no
/// longer. Nothing is sent again, whatever the service answers; after a
/// failed challenge the login starts over.
pub proof fn lemma_token_is_used_once(
    state: ChallengeStateView,
    event: EventView,
    api_url: Seq<char>,
)
    ensures
        !(challenge_next(state, event, api_url).0 is AwaitCode),
        challenge_next(state, event, api_url).1.action is Post ==> state is AwaitCode
            && challenge_next(state, event, api_url).0 is AwaitVerdict,
        state is AwaitVerdict ==> challenge_next(state, event, api_url).0 is Done,
{
}

/// An empty code never reaches the service: whatever the state, the step
/// that answers it asks for no request.
pub proof fn lemma_empty_code_is_not_sent(
    state: ChallengeStateView,
    input: Seq<char>,
    api_url: Seq<char>,
)
    requires
        trimmed(input).len() == 0,
    ensures
        !(challenge_next(state, EventView::Entered(input), api_url).1.action is Post),
        state is AwaitCode ==> challenge_next(
            state,
            EventView::Entered(input),
            api_url,
        ).1.action == ActionView::Fail(Failure::Validation("2FA code cannot be empty."@)),
{
}

} // verus!
