//! Enrollment of a second factor: the service hands out a secret, the user
//! proves with one code that the authenticator holds it, and the service
//! answers with recovery codes, which are shown once. Until the proof
//! succeeds no secret is in force.

use crate::decimal::{decimal, decimal_of};
use crate::error::{AuthError, Failure};
use crate::flow::{
    fields_view, is_success, join, join3, push_field, push_line, quiet, saying, silent, success,
    texts, Action, ActionView, Event, EventView, Field, Step, StepView,
};
use crate::json::{
    items_view, json_member, lenient, member_or_absent, read_member, reading_view, text_of,
    Member, MemberView,
};
use crate::text::{chars_of, string_of, trim, trimmed};
use vstd::prelude::*;
use vstd::string::StringExecFns;

verus! {

/// Where an enrollment stands.
#[derive(Clone, Debug)]
pub enum EnrollState {
    /// The request for a secret is with the service.
    AwaitSecret,
    /// The user is being asked for a code made with the secret.
    AwaitCode { secret: String },
    /// Secret and code are with the service.
    AwaitVerdict,
    /// The enrollment is over.
    Done,
}

/// An `EnrollState` as contracts see it.
pub enum EnrollStateView {
    AwaitSecret,
    AwaitCode { secret: Seq<char> },
    AwaitVerdict,
    Done,
}

impl View for EnrollState {
    type V = EnrollStateView;

    open spec fn view(&self) -> EnrollStateView {
        match self {
            EnrollState::AwaitSecret => EnrollStateView::AwaitSecret,
            EnrollState::AwaitCode { secret } => EnrollStateView::AwaitCode { secret: secret@ },
            EnrollState::AwaitVerdict => EnrollStateView::AwaitVerdict,
            EnrollState::Done => EnrollStateView::Done,
        }
    }
}

/// The opening move: the service is asked for a secret.
pub open spec fn enroll_opening(api_url: Seq<char>) -> StepView {
    StepView {
        say: seq!["◌ Contacting the server to set up 2FA..."@],
        action: ActionView::Post {
            url: api_url + "/auth/2fa/setup"@,
            fields: Seq::empty(),
            with_session: true,
        },
    }
}

/// What is shown with a secret: where to enter it, and the secret itself.
pub open spec fn secret_lines(secret: Seq<char>) -> Seq<Seq<char>> {
    seq![
        "\n○ Two-Factor Authentication Setup"@,
        "1. Open an authenticator app (like Google Authenticator, Authy, or 1Password)."@,
        "2. Choose to add a new account via manual entry or secret key."@,
        "3. Enter the following secret key when prompted:"@,
        "\n   "@ + secret,
        "\n4. After adding the account, your app will generate a 6-digit code."@,
    ]
}

/// What follows the service's answer to the request for a secret: `secret`
/// is what reading the body's member `secret` gave. A failure status fails
/// with the body as it came; a body that is no JSON, or names no secret,
/// fails as well. Otherwise the secret is shown and the user asked for a
/// code.
pub open spec fn after_setup(
    status: u16,
    body: Seq<char>,
    secret: Result<MemberView, Seq<char>>,
) -> (EnrollStateView, StepView) {
    if !is_success(status) {
        (
            EnrollStateView::Done,
            quiet(
                ActionView::Fail(
                    Failure::Server(
                        "Failed to initialize 2FA setup. Are you logged in? Server response: "@
                            + body,
                    ),
                ),
            ),
        )
    } else {
        match secret {
            Err(complaint) => (
                EnrollStateView::Done,
                quiet(ActionView::Fail(Failure::Server(complaint))),
            ),
            Ok(MemberView::Text(key)) => (
                EnrollStateView::AwaitCode { secret: key },
                StepView {
                    say: secret_lines(key),
                    action: ActionView::Ask {
                        prompt:
                            "› Enter the code from your app to verify and complete the setup:"@,
                        masked: false,
                    },
                },
            ),
            Ok(_) => (
                EnrollStateView::Done,
                quiet(
                    ActionView::Fail(
                        Failure::Server(
                            "No secret key received from the server. The API response may have changed."@,
                        ),
                    ),
                ),
            ),
        }
    }
}

/// What is done with the code that the user typed: an empty one ends the
/// enrollment, any other goes to the service with the secret.
pub open spec fn after_code(api_url: Seq<char>, secret: Seq<char>, input: Seq<char>) -> (
    EnrollStateView,
    StepView,
) {
    if trimmed(input).len() == 0 {
        (
            EnrollStateView::Done,
            quiet(
                ActionView::Fail(
                    Failure::Validation("Verification code cannot be empty. Setup cancelled."@),
                ),
            ),
        )
    } else {
        (
            EnrollStateView::AwaitVerdict,
            StepView {
                say: seq!["◌ Verifying code with the server..."@],
                action: ActionView::Post {
                    url: api_url + "/auth/2fa/verify"@,
                    fields: seq![("secret"@, secret), ("code"@, trimmed(input))],
                    with_session: true,
                },
            },
        )
    }
}

/// The lines for the first `n` items of a list of recovery codes: each
/// item that is text, with its place in the list counted from one.
pub open spec fn code_lines(items: Seq<Option<Seq<char>>>, n: int) -> Seq<Seq<char>>
    decreases n,
{
    if n <= 0 || n > items.len() {
        Seq::empty()
    } else {
        match items[n - 1] {
            Some(code) => code_lines(items, n - 1).push(
                "  "@ + decimal(n as nat) + ". "@ + code,
            ),
            None => code_lines(items, n - 1),
        }
    }
}

/// What is shown when the enrollment succeeded: that it did, and the
/// recovery codes where the service sent a list of them.
pub open spec fn success_lines(codes: MemberView) -> Seq<Seq<char>> {
    match codes {
        MemberView::List(items) => seq![
            "✔ 2FA enabled successfully!"@,
            "\nIMPORTANT: Save these recovery codes in a safe place:"@,
            "These can be used to access your account if you lose your 2FA device."@,
        ] + code_lines(items, items.len() as int),
        _ => seq!["✔ 2FA enabled successfully!"@],
    }
}

/// How the service's answer to secret and code ends the enrollment.
/// `codes` is what reading the body's member `recovery_codes` gave,
/// `message` its member `message`.
pub open spec fn enroll_verdict(
    status: u16,
    codes: Result<MemberView, Seq<char>>,
    message: MemberView,
) -> StepView {
    if is_success(status) {
        match codes {
            Err(complaint) => quiet(ActionView::Fail(Failure::Server(complaint))),
            Ok(list) => StepView { say: success_lines(list), action: ActionView::Succeed },
        }
    } else {
        quiet(
            ActionView::Fail(
                Failure::Server(
                    "2FA setup failed: "@ + match text_of(message) {
                        Some(m) => m,
                        None => "Verification failed."@,
                    },
                ),
            ),
        )
    }
}

/// The enrollment as a machine: from a state and what was reported, the
/// next state and what to do.
pub open spec fn enroll_next(state: EnrollStateView, event: EventView, api_url: Seq<char>) -> (
    EnrollStateView,
    StepView,
) {
    match (state, event) {
        (EnrollStateView::Done, _) => (
            EnrollStateView::Done,
            quiet(ActionView::Fail(Failure::Aborted("The setup is over."@))),
        ),
        (_, EventView::Failed(cause)) => (
            EnrollStateView::Done,
            quiet(ActionView::Fail(Failure::Aborted(cause))),
        ),
        (EnrollStateView::AwaitSecret, EventView::Response { status, body, set_cookie }) =>
            after_setup(status, body, json_member(body, "secret"@)),
        (EnrollStateView::AwaitCode { secret }, EventView::Entered(input)) => after_code(
            api_url,
            secret,
            input,
        ),
        (EnrollStateView::AwaitVerdict, EventView::Response { status, body, set_cookie }) => (
            EnrollStateView::Done,
            enroll_verdict(
                status,
                json_member(body, "recovery_codes"@),
                member_or_absent(json_member(body, "message"@)),
            ),
        ),
        _ => (
            EnrollStateView::Done,
            quiet(ActionView::Fail(Failure::Aborted("Unexpected answer."@))),
        ),
    }
}

/// Opens an enrollment.
pub fn begin_enrollment(api_url: &str) -> (r: (EnrollState, Step))
    ensures
        r.0@ == EnrollStateView::AwaitSecret,
        r.1@ == enroll_opening(api_url@),
{
    let mut say: Vec<String> = Vec::new();
    push_line(&mut say, String::from_str("◌ Contacting the server to set up 2FA..."));
    assert(texts(say@) =~= seq!["◌ Contacting the server to set up 2FA..."@]);
    let fields: Vec<Field> = Vec::new();
    assert(fields_view(fields@) =~= Seq::<(Seq<char>, Seq<char>)>::empty());
    (
        EnrollState::AwaitSecret,
        saying(
            say,
            Action::Post { url: join(api_url, "/auth/2fa/setup"), fields, with_session: true },
        ),
    )
}

/// The lines shown with a secret.
fn show_secret(secret: &str) -> (say: Vec<String>)
    ensures
        texts(say@) == secret_lines(secret@),
{
    let mut say: Vec<String> = Vec::new();
    push_line(&mut say, String::from_str("\n○ Two-Factor Authentication Setup"));
    push_line(
        &mut say,
        String::from_str(
            "1. Open an authenticator app (like Google Authenticator, Authy, or 1Password).",
        ),
    );
    push_line(
        &mut say,
        String::from_str("2. Choose to add a new account via manual entry or secret key."),
    );
    push_line(&mut say, String::from_str("3. Enter the following secret key when prompted:"));
    push_line(&mut say, join("\n   ", secret));
    push_line(
        &mut say,
        String::from_str("\n4. After adding the account, your app will generate a 6-digit code."),
    );
    assert(texts(say@) =~= secret_lines(secret@));
    say
}

/// Decides what follows the service's answer to the request for a secret.
pub fn receive_secret(status: u16, body: &str, secret: Result<Member, String>) -> (r: (
    EnrollState,
    Step,
))
    ensures
        (r.0@, r.1@) == after_setup(status, body@, reading_view(secret)),
{
    if !success(status) {
        return (
            EnrollState::Done,
            silent(
                Action::Fail(
                    AuthError::Server(
                        join(
                            "Failed to initialize 2FA setup. Are you logged in? Server response: ",
                            body,
                        ),
                    ),
                ),
            ),
        );
    }
    match secret {
        Err(complaint) => (EnrollState::Done, silent(Action::Fail(AuthError::Server(complaint)))),
        Ok(Member::Text(key)) => {
            let say = show_secret(key.as_str());
            (
                EnrollState::AwaitCode { secret: key },
                saying(
                    say,
                    Action::Ask {
                        prompt: String::from_str(
                            "› Enter the code from your app to verify and complete the setup:",
                        ),
                        masked: false,
                    },
                ),
            )
        },
        Ok(_) => (
            EnrollState::Done,
            silent(
                Action::Fail(
                    AuthError::Server(
                        String::from_str(
                            "No secret key received from the server. The API response may have changed.",
                        ),
                    ),
                ),
            ),
        ),
    }
}

/// Decides what is done with the code that the user typed.
pub fn submit_code(api_url: &str, secret: &str, input: &str) -> (r: (EnrollState, Step))
    ensures
        (r.0@, r.1@) == after_code(api_url@, secret@, input@),
{
    let code = trim(&chars_of(input));
    if code.len() == 0 {
        return (
            EnrollState::Done,
            silent(
                Action::Fail(
                    AuthError::Validation(
                        String::from_str("Verification code cannot be empty. Setup cancelled."),
                    ),
                ),
            ),
        );
    }
    let code = string_of(&code);
    let mut fields: Vec<Field> = Vec::new();
    push_field(&mut fields, "secret", secret);
    push_field(&mut fields, "code", code.as_str());
    assert(fields_view(fields@) =~= seq![("secret"@, secret@), ("code"@, trimmed(input@))]);
    let mut say: Vec<String> = Vec::new();
    push_line(&mut say, String::from_str("◌ Verifying code with the server..."));
    assert(texts(say@) =~= seq!["◌ Verifying code with the server..."@]);
    (
        EnrollState::AwaitVerdict,
        saying(
            say,
            Action::Post { url: join(api_url, "/auth/2fa/verify"), fields, with_session: true },
        ),
    )
}

/// Adds to `say` the lines for a list of recovery codes.
fn push_code_lines(say: &mut Vec<String>, items: &Vec<Option<String>>)
    ensures
        texts(final(say)@) == texts(old(say)@) + code_lines(
            items_view(items@),
            items@.len() as int,
        ),
{
    let ghost before = texts(say@);
    let mut i: usize = 0;
    assert(before + code_lines(items_view(items@), 0) =~= before);
    while i < items.len()
        invariant
            i <= items.len(),
            texts(say@) == before + code_lines(items_view(items@), i as int),
        decreases items.len() - i,
    {
        let ghost so_far = code_lines(items_view(items@), i as int);
        assert(items_view(items@)[i as int] == match items@[i as int] {
            Some(s) => Some(s@),
            None => None::<Seq<char>>,
        });
        match &items[i] {
            Some(code) => {
                let number = string_of(&decimal_of(i + 1));
                let mut line = join3("  ", number.as_str(), ". ");
                line.append(code.as_str());
                push_line(say, line);
                assert((before + so_far).push(line@) =~= before + so_far.push(line@));
            },
            None => {},
        }
        i += 1;
    }
}

/// Decides how the service's answer to secret and code ends the enrollment.
pub fn decide_enrollment(status: u16, codes: Result<Member, String>, message: &Member) -> (s:
    Step)
    ensures
        s@ == enroll_verdict(status, reading_view(codes), message@),
{
    if success(status) {
        match codes {
            Err(complaint) => silent(Action::Fail(AuthError::Server(complaint))),
            Ok(Member::List(items)) => {
                let mut say: Vec<String> = Vec::new();
                push_line(&mut say, String::from_str("✔ 2FA enabled successfully!"));
                push_line(
                    &mut say,
                    String::from_str("\nIMPORTANT: Save these recovery codes in a safe place:"),
                );
                push_line(
                    &mut say,
                    String::from_str(
                        "These can be used to access your account if you lose your 2FA device.",
                    ),
                );
                assert(texts(say@) =~= seq![
                    "✔ 2FA enabled successfully!"@,
                    "\nIMPORTANT: Save these recovery codes in a safe place:"@,
                    "These can be used to access your account if you lose your 2FA device."@,
                ]);
                push_code_lines(&mut say, &items);
                saying(say, Action::Succeed)
            },
            Ok(_) => {
                let mut say: Vec<String> = Vec::new();
                push_line(&mut say, String::from_str("✔ 2FA enabled successfully!"));
                assert(texts(say@) =~= seq!["✔ 2FA enabled successfully!"@]);
                saying(say, Action::Succeed)
            },
        }
    } else {
        let text = match message {
            Member::Text(m) => join("2FA setup failed: ", m.as_str()),
            _ => join("2FA setup failed: ", "Verification failed."),
        };
        silent(Action::Fail(AuthError::Server(text)))
    }
}

/// A step that fails because the event does not fit the state.
fn out_of_step() -> (r: (EnrollState, Step))
    ensures
        r.0@ == EnrollStateView::Done,
        r.1@ == quiet(ActionView::Fail(Failure::Aborted("Unexpected answer."@))),
{
    (
        EnrollState::Done,
        silent(Action::Fail(AuthError::Aborted(String::from_str("Unexpected answer.")))),
    )
}

/// Moves the enrollment on by one event.
pub fn enroll_step(state: EnrollState, event: Event, api_url: &str) -> (r: (EnrollState, Step))
    ensures
        (r.0@, r.1@) == enroll_next(state@, event@, api_url@),
{
    match state {
        EnrollState::Done => (
            EnrollState::Done,
            silent(Action::Fail(AuthError::Aborted(String::from_str("The setup is over.")))),
        ),
        EnrollState::AwaitSecret => match event {
            Event::Failed(cause) => (
                EnrollState::Done,
                silent(Action::Fail(AuthError::Aborted(cause))),
            ),
            Event::Response { status, body, set_cookie } => {
                let secret = read_member(body.as_str(), "secret");
                receive_secret(status, body.as_str(), secret)
            },
            _ => out_of_step(),
        },
        EnrollState::AwaitCode { secret } => match event {
            Event::Failed(cause) => (
                EnrollState::Done,
                silent(Action::Fail(AuthError::Aborted(cause))),
            ),
            Event::Entered(input) => submit_code(api_url, secret.as_str(), input.as_str()),
            _ => out_of_step(),
        },
        EnrollState::AwaitVerdict => match event {
            Event::Failed(cause) => (
                EnrollState::Done,
                silent(Action::Fail(AuthError::Aborted(cause))),
            ),
            Event::Response { status, body, set_cookie } => {
                let codes = read_member(body.as_str(), "recovery_codes");
                let message = lenient(read_member(body.as_str(), "message"));
                (EnrollState::Done, decide_enrollment(status, codes, &message))
            },
            _ => out_of_step(),
        },
    }
}

/// A failed verification shows no recovery codes and ends the enrollment:
/// whatever the body holds, a failure status gives a failure and no line.
pub proof fn lemma_failed_verification_shows_nothing(
    status: u16,
    codes: Result<MemberView, Seq<char>>,
    message: MemberView,
)
    requires
        !is_success(status),
    ensures
        enroll_verdict(status, codes, message).action is Fail,
        enroll_verdict(status, codes, message).say.len() == 0,
{
}

/// An enrollment ends exactly where its action is final, and succeeds only
/// on the service's answer to secret and code.
pub proof fn lemma_enrollment_ends_once(
    state: EnrollStateView,
    event: EventView,
    api_url: Seq<char>,
)
    ensures
        enroll_next(state, event, api_url).0 is Done <==> enroll_next(
            state,
            event,
            api_url,
        ).1.action.is_final(),
        enroll_next(state, event, api_url).1.action is Succeed ==> state is AwaitVerdict && (
        event matches EventView::Response { status, .. } && is_success(status)),
        !(enroll_next(state, event, api_url).1.action is Commit),
{
}

} // verus!
