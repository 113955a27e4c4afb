//! Login with email and password: two prompts, one request, and a verdict
//! that is a session, the pivot to the second-factor challenge, or a
//! failure. An unverified email lets the user ask for a new verification
//! mail; the attempt has failed all the same.

use crate::callback::{cookie_token, parse_token_from_header};
use crate::error::{AuthError, Failure};
use crate::flow::{
    fields_view, is_success, join, push_field, push_line, quiet, saying, silent, success, texts,
    Action, ActionView, Event, EventView, Field, Step, StepView,
};
use crate::json::{
    json_member, lenient, member_or_absent, read_member, reading_view, text_of, Member,
    MemberView,
};
use crate::model::text_view;
use crate::text::{chars_of, same_chars, string_of, trim, trimmed};
use vstd::prelude::*;
use vstd::string::StringExecFns;

verus! {

/// Where a password login stands.
#[derive(Clone, Debug)]
pub enum PasswordState {
    /// The user is being asked for the email.
    AwaitEmail,
    /// The user is being asked for the password.
    AwaitPassword { email: String },
    /// The credentials are with the service.
    AwaitAnswer { email: String },
    /// The user is being asked whether to send the verification mail again.
    OfferResend { email: String },
    /// The request for a new verification mail is with the service.
    AwaitResend,
    /// The login is over.
    Done,
}

/// A `PasswordState` as contracts see it.
pub enum PasswordStateView {
    AwaitEmail,
    AwaitPassword { email: Seq<char> },
    AwaitAnswer { email: Seq<char> },
    OfferResend { email: Seq<char> },
    AwaitResend,
    Done,
}

impl View for PasswordState {
    type V = PasswordStateView;

    open spec fn view(&self) -> PasswordStateView {
        match self {
            PasswordState::AwaitEmail => PasswordStateView::AwaitEmail,
            PasswordState::AwaitPassword { email } => PasswordStateView::AwaitPassword {
                email: email@,
            },
            PasswordState::AwaitAnswer { email } => PasswordStateView::AwaitAnswer {
                email: email@,
            },
            PasswordState::OfferResend { email } => PasswordStateView::OfferResend {
                email: email@,
            },
            PasswordState::AwaitResend => PasswordStateView::AwaitResend,
            PasswordState::Done => PasswordStateView::Done,
        }
    }
}

/// The failure of a login with an unverified email.
pub open spec fn unverified() -> ActionView {
    ActionView::Fail(Failure::Unauthorized("Please verify your email before logging in."@))
}

/// The opening move: the user is asked for the email.
pub open spec fn password_opening() -> StepView {
    quiet(ActionView::Ask { prompt: "› Enter your email:"@, masked: false })
}

/// What follows the email that the user typed: an empty one ends the
/// login, any other is kept without the white space around it.
pub open spec fn after_email(input: Seq<char>) -> (PasswordStateView, ActionView) {
    if trimmed(input).len() == 0 {
        (
            PasswordStateView::Done,
            ActionView::Fail(Failure::Validation("Email cannot be empty."@)),
        )
    } else {
        (
            PasswordStateView::AwaitPassword { email: trimmed(input) },
            ActionView::Ask { prompt: "› Enter your password:"@, masked: true },
        )
    }
}

/// What follows the password that the user typed: an empty one ends the
/// login, any other goes to the service as it is, with the email.
pub open spec fn after_password(api_url: Seq<char>, email: Seq<char>, password: Seq<char>) -> (
    PasswordStateView,
    ActionView,
) {
    if password.len() == 0 {
        (
            PasswordStateView::Done,
            ActionView::Fail(Failure::Validation("Password cannot be empty."@)),
        )
    } else {
        (
            PasswordStateView::AwaitAnswer { email },
            ActionView::Post {
                url: api_url + "/auth/login"@,
                fields: seq![("email"@, email), ("password"@, password)],
                with_session: false,
            },
        )
    }
}

/// What the service's answer to the credentials means. `required` is what
/// reading the body's member `2fa_required` gave, `pending` its member
/// `2fa_token`, `message` and `code` its members `message` and
/// `error_code`, `session` the session token of the answer's cookie.
///
/// On success a body that is no JSON fails the login with the parser's
/// words; the flag `true` pivots to the challenge, for which the body must
/// name the token; without the flag the cookie must hold the session. On
/// failure the code `EMAIL_NOT_VERIFIED` leads to the offer of a new
/// verification mail; anything else fails with the service's message.
pub open spec fn login_verdict(
    status: u16,
    required: Result<MemberView, Seq<char>>,
    pending: MemberView,
    message: MemberView,
    code: MemberView,
    session: Option<Seq<char>>,
) -> ActionView {
    if is_success(status) {
        match required {
            Err(complaint) => ActionView::Fail(Failure::Server(complaint)),
            Ok(MemberView::Flag(true)) => match pending {
                MemberView::Text(token) => ActionView::Challenge { token },
                _ => ActionView::Fail(
                    Failure::Server("2FA is required but no token was provided by the server."@),
                ),
            },
            Ok(_) => match session {
                Some(token) => ActionView::Commit { token, notice: "✔ Login successful!"@ },
                None => ActionView::Fail(
                    Failure::Server("Login token not found in server response."@),
                ),
            },
        }
    } else if code == MemberView::Text("EMAIL_NOT_VERIFIED"@) {
        ActionView::Confirm {
            question:
                "Your email is not verified. Would you like to resend the verification email?"@,
            default: true,
        }
    } else {
        ActionView::Fail(
            Failure::Server(
                "Login failed: "@ + match text_of(message) {
                    Some(m) => m,
                    None => "Invalid credentials."@,
                },
            ),
        )
    }
}

/// What follows the user's answer to the offer: the request for a new
/// mail, or the failure at once.
pub open spec fn after_offer(api_url: Seq<char>, email: Seq<char>, resend: bool) -> (
    PasswordStateView,
    ActionView,
) {
    if resend {
        (
            PasswordStateView::AwaitResend,
            ActionView::Post {
                url: api_url + "/auth/resend-verification"@,
                fields: seq![("email"@, email)],
                with_session: false,
            },
        )
    } else {
        (PasswordStateView::Done, unverified())
    }
}

/// The line that tells how the request for a new mail went.
pub open spec fn resend_report(status: u16) -> Seq<char> {
    if is_success(status) {
        "✔ Verification email sent (if account exists)."@
    } else {
        "✗ Could not send verification email."@
    }
}

/// The password login as a machine: from a state and what was reported,
/// the next state and what to do.
pub open spec fn password_next(
    state: PasswordStateView,
    event: EventView,
    api_url: Seq<char>,
) -> (PasswordStateView, StepView) {
    match (state, event) {
        (PasswordStateView::Done, _) => (
            PasswordStateView::Done,
            quiet(ActionView::Fail(Failure::Aborted("The login is over."@))),
        ),
        (_, EventView::Failed(cause)) => (
            PasswordStateView::Done,
            quiet(ActionView::Fail(Failure::Aborted(cause))),
        ),
        (PasswordStateView::AwaitEmail, EventView::Entered(input)) => (
            after_email(input).0,
            quiet(after_email(input).1),
        ),
        (PasswordStateView::AwaitPassword { email }, EventView::Entered(password)) => (
            after_password(api_url, email, password).0,
            quiet(after_password(api_url, email, password).1),
        ),
        (
            PasswordStateView::AwaitAnswer { email },
            EventView::Response { status, body, set_cookie },
        ) => {
            let verdict = login_verdict(
                status,
                json_member(body, "2fa_required"@),
                member_or_absent(json_member(body, "2fa_token"@)),
                member_or_absent(json_member(body, "message"@)),
                member_or_absent(json_member(body, "error_code"@)),
                cookie_token(set_cookie),
            );
            (
                if verdict is Confirm {
                    PasswordStateView::OfferResend { email }
                } else {
                    PasswordStateView::Done
                },
                quiet(verdict),
            )
        },
        (PasswordStateView::OfferResend { email }, EventView::Answered(resend)) => (
            after_offer(api_url, email, resend).0,
            quiet(after_offer(api_url, email, resend).1),
        ),
        (PasswordStateView::AwaitResend, EventView::Response { status, body, set_cookie }) => (
            PasswordStateView::Done,
            StepView { say: seq![resend_report(status)], action: unverified() },
        ),
        _ => (
            PasswordStateView::Done,
            quiet(ActionView::Fail(Failure::Aborted("Unexpected answer."@))),
        ),
    }
}

/// Opens a password login.
pub fn begin_password_login() -> (r: (PasswordState, Step))
    ensures
        r.0@ == PasswordStateView::AwaitEmail,
        r.1@ == password_opening(),
{
    (
        PasswordState::AwaitEmail,
        silent(Action::Ask { prompt: String::from_str("› Enter your email:"), masked: false }),
    )
}

/// Decides what follows the email that the user typed.
pub fn check_email(input: &str) -> (r: (PasswordState, Action))
    ensures
        (r.0@, r.1@) == after_email(input@),
{
    let email = trim(&chars_of(input));
    if email.len() == 0 {
        (
            PasswordState::Done,
            Action::Fail(AuthError::Validation(String::from_str("Email cannot be empty."))),
        )
    } else {
        (
            PasswordState::AwaitPassword { email: string_of(&email) },
            Action::Ask { prompt: String::from_str("› Enter your password:"), masked: true },
        )
    }
}

/// Decides what follows the password that the user typed.
pub fn check_password(api_url: &str, email: String, password: &str) -> (r: (
    PasswordState,
    Action,
))
    ensures
        (r.0@, r.1@) == after_password(api_url@, email@, password@),
{
    if chars_of(password).len() == 0 {
        return (
            PasswordState::Done,
            Action::Fail(AuthError::Validation(String::from_str("Password cannot be empty."))),
        );
    }
    let mut fields: Vec<Field> = Vec::new();
    push_field(&mut fields, "email", email.as_str());
    push_field(&mut fields, "password", password);
    assert(fields_view(fields@) =~= seq![("email"@, email@), ("password"@, password@)]);
    (
        PasswordState::AwaitAnswer { email },
        Action::Post { url: join(api_url, "/auth/login"), fields, with_session: false },
    )
}

/// Tells whether a member is the text `EMAIL_NOT_VERIFIED`.
fn is_unverified_code(code: &Member) -> (b: bool)
    ensures
        b == (code@ == MemberView::Text("EMAIL_NOT_VERIFIED"@)),
{
    match code {
        Member::Text(c) => same_chars(&chars_of(c.as_str()), &chars_of("EMAIL_NOT_VERIFIED")),
        _ => false,
    }
}

/// Decides what the service's answer to the credentials means.
pub fn decide_login(
    status: u16,
    required: Result<Member, String>,
    pending: Member,
    message: &Member,
    code: &Member,
    session: Option<String>,
) -> (a: Action)
    ensures
        a@ == login_verdict(
            status,
            reading_view(required),
            pending@,
            message@,
            code@,
            text_view(session),
        ),
{
    if success(status) {
        match required {
            Err(complaint) => Action::Fail(AuthError::Server(complaint)),
            Ok(Member::Flag(true)) => match pending {
                Member::Text(token) => Action::Challenge { token },
                _ => Action::Fail(
                    AuthError::Server(
                        String::from_str(
                            "2FA is required but no token was provided by the server.",
                        ),
                    ),
                ),
            },
            Ok(_) => match session {
                Some(token) => Action::Commit {
                    token,
                    notice: String::from_str("✔ Login successful!"),
                },
                None => Action::Fail(
                    AuthError::Server(
                        String::from_str("Login token not found in server response."),
                    ),
                ),
            },
        }
    } else if is_unverified_code(code) {
        Action::Confirm {
            question: String::from_str(
                "Your email is not verified. Would you like to resend the verification email?",
            ),
            default: true,
        }
    } else {
        let text = match message {
            Member::Text(m) => join("Login failed: ", m.as_str()),
            _ => join("Login failed: ", "Invalid credentials."),
        };
        Action::Fail(AuthError::Server(text))
    }
}

/// The failure of a login with an unverified email.
fn fail_unverified() -> (a: Action)
    ensures
        a@ == unverified(),
{
    Action::Fail(
        AuthError::Unauthorized(String::from_str("Please verify your email before logging in.")),
    )
}

/// Decides what follows the user's answer to the offer of a new mail.
pub fn answer_offer(api_url: &str, email: &str, resend: bool) -> (r: (PasswordState, Action))
    ensures
        (r.0@, r.1@) == after_offer(api_url@, email@, resend),
{
    if resend {
        let mut fields: Vec<Field> = Vec::new();
        push_field(&mut fields, "email", email);
        assert(fields_view(fields@) =~= seq![("email"@, email@)]);
        (
            PasswordState::AwaitResend,
            Action::Post {
                url: join(api_url, "/auth/resend-verification"),
                fields,
                with_session: false,
            },
        )
    } else {
        (PasswordState::Done, fail_unverified())
    }
}

/// The line that tells how the request for a new mail went.
pub fn report_resend(status: u16) -> (s: String)
    ensures
        s@ == resend_report(status),
{
    if success(status) {
        String::from_str("✔ Verification email sent (if account exists).")
    } else {
        String::from_str("✗ Could not send verification email.")
    }
}

/// A step that fails because the event does not fit the state.
fn out_of_step() -> (r: (PasswordState, Step))
    ensures
        r.0@ == PasswordStateView::Done,
        r.1@ == quiet(ActionView::Fail(Failure::Aborted("Unexpected answer."@))),
{
    (
        PasswordState::Done,
        silent(Action::Fail(AuthError::Aborted(String::from_str("Unexpected answer.")))),
    )
}

/// Moves the password login on by one event.
pub fn password_step(state: PasswordState, event: Event, api_url: &str) -> (r: (
    PasswordState,
    Step,
))
    ensures
        (r.0@, r.1@) == password_next(state@, event@, api_url@),
{
    match state {
        PasswordState::Done => (
            PasswordState::Done,
            silent(Action::Fail(AuthError::Aborted(String::from_str("The login is over.")))),
        ),
        PasswordState::AwaitEmail => match event {
            Event::Failed(cause) => (
                PasswordState::Done,
                silent(Action::Fail(AuthError::Aborted(cause))),
            ),
            Event::Entered(input) => {
                let (next, action) = check_email(input.as_str());
                (next, silent(action))
            },
            _ => out_of_step(),
        },
        PasswordState::AwaitPassword { email } => match event {
            Event::Failed(cause) => (
                PasswordState::Done,
                silent(Action::Fail(AuthError::Aborted(cause))),
            ),
            Event::Entered(password) => {
                let (next, action) = check_password(api_url, email, password.as_str());
                (next, silent(action))
            },
            _ => out_of_step(),
        },
        PasswordState::AwaitAnswer { email } => match event {
            Event::Failed(cause) => (
                PasswordState::Done,
                silent(Action::Fail(AuthError::Aborted(cause))),
            ),
            Event::Response { status, body, set_cookie } => {
                let session = match &set_cookie {
                    Some(h) => parse_token_from_header(Some(h.as_str())),
                    None => parse_token_from_header(None),
                };
                let required = read_member(body.as_str(), "2fa_required");
                let pending = lenient(read_member(body.as_str(), "2fa_token"));
                let message = lenient(read_member(body.as_str(), "message"));
                let code = lenient(read_member(body.as_str(), "error_code"));
                let action = decide_login(status, required, pending, &message, &code, session);
                let next = match action {
                    Action::Confirm { .. } => PasswordState::OfferResend { email },
                    _ => PasswordState::Done,
                };
                (next, silent(action))
            },
            _ => out_of_step(),
        },
        PasswordState::OfferResend { email } => match event {
            Event::Failed(cause) => (
                PasswordState::Done,
                silent(Action::Fail(AuthError::Aborted(cause))),
            ),
            Event::Answered(resend) => {
                let (next, action) = answer_offer(api_url, email.as_str(), resend);
                (next, silent(action))
            },
            _ => out_of_step(),
        },
        PasswordState::AwaitResend => match event {
            Event::Failed(cause) => (
                PasswordState::Done,
                silent(Action::Fail(AuthError::Aborted(cause))),
            ),
            Event::Response { status, body, set_cookie } => {
                let mut say: Vec<String> = Vec::new();
                push_line(&mut say, report_resend(status));
                assert(texts(say@) =~= seq![resend_report(status)]);
                (PasswordState::Done, saying(say, fail_unverified()))
            },
            _ => out_of_step(),
        },
    }
}

/// Where the service asks for the second factor, no session is committed:
/// the login pivots to the challenge, or fails for want of its token.
pub proof fn lemma_required_factor_never_commits(
    status: u16,
    pending: MemberView,
    message: MemberView,
    code: MemberView,
    session: Option<Seq<char>>,
)
    ensures
        !(login_verdict(status, Ok(MemberView::Flag(true)), pending, message, code, session)
            is Commit),
        is_success(status) ==> (pending matches MemberView::Text(token) ==> login_verdict(
            status,
            Ok(MemberView::Flag(true)),
            pending,
            message,
            code,
            session,
        ) == (ActionView::Challenge { token })),
{
}

/// Empty credentials never reach the service: an empty email or an empty
/// password is answered with a failure, not with a request.
pub proof fn lemma_empty_credentials_are_not_sent(
    api_url: Seq<char>,
    email: Seq<char>,
    input: Seq<char>,
)
    ensures
        trimmed(input).len() == 0 ==> password_next(
            PasswordStateView::AwaitEmail,
            EventView::Entered(input),
            api_url,
        ).1.action == ActionView::Fail(Failure::Validation("Email cannot be empty."@)),
        input.len() == 0 ==> password_next(
            PasswordStateView::AwaitPassword { email },
            EventView::Entered(input),
            api_url,
        ).1.action == ActionView::Fail(Failure::Validation("Password cannot be empty."@)),
{
}

/// A password login ends exactly where its action is final, and commits a
/// session only on the service's answer to the credentials.
pub proof fn lemma_password_login_ends_once(
    state: PasswordStateView,
    event: EventView,
    api_url: Seq<char>,
)
    ensures
        password_next(state, event, api_url).0 is Done <==> password_next(
            state,
            event,
            api_url,
        ).1.action.is_final(),
        password_next(state, event, api_url).1.action is Commit ==> state is AwaitAnswer
            && event is Response,
{
}

} // verus!
