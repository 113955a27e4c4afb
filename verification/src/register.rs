//! Registration of a new account: three prompts and one request.

use crate::error::{AuthError, Failure};
use crate::flow::{
    fields_view, is_success, join, push_field, push_line, quiet, saying, silent, success, texts,
    Action, ActionView, Event, EventView, Field, Step, StepView,
};
use crate::json::{json_member, lenient, member_or_absent, read_member, text_of, Member, MemberView};
use crate::text::{chars_of, string_of, trim, trimmed};
use vstd::prelude::*;
use vstd::string::StringExecFns;

verus! {

/// Where a registration stands.
#[derive(Clone, Debug)]
pub enum RegisterState {
    /// The user is being asked for a name.
    AwaitUsername,
    /// The user is being asked for the email.
    AwaitEmail { username: String },
    /// The user is being asked for a password.
    AwaitPassword { username: String, email: String },
    /// The registration is with the service.
    AwaitAnswer,
    /// The registration is over.
    Done,
}

/// A `RegisterState` as contracts see it.
pub enum RegisterStateView {
    AwaitUsername,
    AwaitEmail { username: Seq<char> },
    AwaitPassword { username: Seq<char>, email: Seq<char> },
    AwaitAnswer,
    Done,
}

impl View for RegisterState {
    type V = RegisterStateView;

    open spec fn view(&self) -> RegisterStateView {
        match self {
            RegisterState::AwaitUsername => RegisterStateView::AwaitUsername,
            RegisterState::AwaitEmail { username } => RegisterStateView::AwaitEmail {
                username: username@,
            },
            RegisterState::AwaitPassword { username, email } => RegisterStateView::AwaitPassword {
                username: username@,
                email: email@,
            },
            RegisterState::AwaitAnswer => RegisterStateView::AwaitAnswer,
            RegisterState::Done => RegisterStateView::Done,
        }
    }
}

/// The opening move: the user is asked for a name.
pub open spec fn register_opening() -> StepView {
    StepView {
        say: seq!["○ Create a new account"@],
        action: ActionView::Ask { prompt: "› Enter your username:"@, masked: false },
    }
}

/// How the service's answer ends the registration; `message` is the member
/// `message` of its body.
pub open spec fn register_verdict(status: u16, message: MemberView) -> StepView {
    if is_success(status) {
        StepView {
            say: seq![
                "✔ Registration successful!"@,
                "◌ Please check your email to verify your account before logging in."@,
            ],
            action: ActionView::Succeed,
        }
    } else {
        quiet(
            ActionView::Fail(
                Failure::Server(
                    "Registration failed: "@ + match text_of(message) {
                        Some(m) => m,
                        None => "Registration failed."@,
                    },
                ),
            ),
        )
    }
}

/// The registration as a machine: from a state and what was reported, the
/// next state and what to do. Name and email are kept without the white
/// space around them, and neither may be empty; the password goes out as
/// it was typed.
pub open spec fn register_next(
    state: RegisterStateView,
    event: EventView,
    api_url: Seq<char>,
) -> (RegisterStateView, StepView) {
    match (state, event) {
        (RegisterStateView::Done, _) => (
            RegisterStateView::Done,
            quiet(ActionView::Fail(Failure::Aborted("The registration is over."@))),
        ),
        (_, EventView::Failed(cause)) => (
            RegisterStateView::Done,
            quiet(ActionView::Fail(Failure::Aborted(cause))),
        ),
        (RegisterStateView::AwaitUsername, EventView::Entered(input)) => if trimmed(input).len()
            == 0 {
            (
                RegisterStateView::Done,
                quiet(ActionView::Fail(Failure::Validation("Username cannot be empty."@))),
            )
        } else {
            (
                RegisterStateView::AwaitEmail { username: trimmed(input) },
                quiet(ActionView::Ask { prompt: "› Enter your email:"@, masked: false }),
            )
        },
        (RegisterStateView::AwaitEmail { username }, EventView::Entered(input)) => if trimmed(
            input,
        ).len() == 0 {
            (
                RegisterStateView::Done,
                quiet(ActionView::Fail(Failure::Validation("Email cannot be empty."@))),
            )
        } else {
            (
                RegisterStateView::AwaitPassword { username, email: trimmed(input) },
                quiet(ActionView::Ask { prompt: "› Enter your password:"@, masked: true }),
            )
        },
        (RegisterStateView::AwaitPassword { username, email }, EventView::Entered(password)) => (
            RegisterStateView::AwaitAnswer,
            quiet(
                ActionView::Post {
                    url: api_url + "/auth/register"@,
                    fields: seq![
                        ("username"@, username),
                        ("email"@, email),
                        ("password"@, password),
                    ],
                    with_session: false,
                },
            ),
        ),
        (RegisterStateView::AwaitAnswer, EventView::Response { status, body, set_cookie }) => (
            RegisterStateView::Done,
            register_verdict(status, member_or_absent(json_member(body, "message"@))),
        ),
        _ => (
            RegisterStateView::Done,
            quiet(ActionView::Fail(Failure::Aborted("Unexpected answer."@))),
        ),
    }
}

/// Opens a registration.
pub fn begin_registration() -> (r: (RegisterState, Step))
    ensures
        r.0@ == RegisterStateView::AwaitUsername,
        r.1@ == register_opening(),
{
    let mut say: Vec<String> = Vec::new();
    push_line(&mut say, String::from_str("○ Create a new account"));
    assert(texts(say@) =~= seq!["○ Create a new account"@]);
    (
        RegisterState::AwaitUsername,
        saying(
            say,
            Action::Ask { prompt: String::from_str("› Enter your username:"), masked: false },
        ),
    )
}

/// Decides how the service's answer ends the registration.
pub fn decide_registration(status: u16, message: &Member) -> (s: Step)
    ensures
        s@ == register_verdict(status, message@),
{
    if success(status) {
        let mut say: Vec<String> = Vec::new();
        push_line(&mut say, String::from_str("✔ Registration successful!"));
        push_line(
            &mut say,
            String::from_str(
                "◌ Please check your email to verify your account before logging in.",
            ),
        );
        assert(texts(say@) =~= seq![
            "✔ Registration successful!"@,
            "◌ Please check your email to verify your account before logging in."@,
        ]);
        saying(say, Action::Succeed)
    } else {
        let text = match message {
            Member::Text(m) => join("Registration failed: ", m.as_str()),
            _ => join("Registration failed: ", "Registration failed."),
        };
        silent(Action::Fail(AuthError::Server(text)))
    }
}

/// A step that fails with a message.
fn refuse(text: &str) -> (r: (RegisterState, Step))
    ensures
        r.0@ == RegisterStateView::Done,
        r.1@ == quiet(ActionView::Fail(Failure::Validation(text@))),
{
    (
        RegisterState::Done,
        silent(Action::Fail(AuthError::Validation(String::from_str(text)))),
    )
}

/// A step that fails because the event does not fit the state.
fn out_of_step() -> (r: (RegisterState, Step))
    ensures
        r.0@ == RegisterStateView::Done,
        r.1@ == quiet(ActionView::Fail(Failure::Aborted("Unexpected answer."@))),
{
    (
        RegisterState::Done,
        silent(Action::Fail(AuthError::Aborted(String::from_str("Unexpected answer.")))),
    )
}

/// A step that fails because the prompt or the request failed.
fn abort(cause: String) -> (r: (RegisterState, Step))
    ensures
        r.0@ == RegisterStateView::Done,
        r.1@ == quiet(ActionView::Fail(Failure::Aborted(cause@))),
{
    (RegisterState::Done, silent(Action::Fail(AuthError::Aborted(cause))))
}

/// Moves the registration on by one event.
pub fn register_step(state: RegisterState, event: Event, api_url: &str) -> (r: (
    RegisterState,
    Step,
))
    ensures
        (r.0@, r.1@) == register_next(state@, event@, api_url@),
{
    match state {
        RegisterState::Done => (
            RegisterState::Done,
            silent(Action::Fail(AuthError::Aborted(String::from_str("The registration is over.")))),
        ),
        RegisterState::AwaitUsername => match event {
            Event::Failed(cause) => abort(cause),
            Event::Entered(input) => {
                let name = trim(&chars_of(input.as_str()));
                if name.len() == 0 {
                    refuse("Username cannot be empty.")
                } else {
                    (
                        RegisterState::AwaitEmail { username: string_of(&name) },
                        silent(
                            Action::Ask {
                                prompt: String::from_str("› Enter your email:"),
                                masked: false,
                            },
                        ),
                    )
                }
            },
            _ => out_of_step(),
        },
        RegisterState::AwaitEmail { username } => match event {
            Event::Failed(cause) => abort(cause),
            Event::Entered(input) => {
                let email = trim(&chars_of(input.as_str()));
                if email.len() == 0 {
                    refuse("Email cannot be empty.")
                } else {
                    (
                        RegisterState::AwaitPassword { username, email: string_of(&email) },
                        silent(
                            Action::Ask {
                                prompt: String::from_str("› Enter your password:"),
                                masked: true,
                            },
                        ),
                    )
                }
            },
            _ => out_of_step(),
        },
        RegisterState::AwaitPassword { username, email } => match event {
            Event::Failed(cause) => abort(cause),
            Event::Entered(password) => {
                let mut fields: Vec<Field> = Vec::new();
                push_field(&mut fields, "username", username.as_str());
                push_field(&mut fields, "email", email.as_str());
                push_field(&mut fields, "password", password.as_str());
                assert(fields_view(fields@) =~= seq![
                    ("username"@, username@),
                    ("email"@, email@),
                    ("password"@, password@),
                ]);
                (
                    RegisterState::AwaitAnswer,
                    silent(
                        Action::Post {
                            url: join(api_url, "/auth/register"),
                            fields,
                            with_session: false,
                        },
                    ),
                )
            },
            _ => out_of_step(),
        },
        RegisterState::AwaitAnswer => match event {
            Event::Failed(cause) => abort(cause),
            Event::Response { status, body, set_cookie } => {
                let message = lenient(read_member(body.as_str(), "message"));
                (RegisterState::Done, decide_registration(status, &message))
            },
            _ => out_of_step(),
        },
    }
}

} // verus!
