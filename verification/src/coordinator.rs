//! One login through the browser, from the coordinator's side: it starts
//! the listener, sends the browser to the service, waits for the callback
//! up to a deadline, and ends in exactly one way: a session, the pivot to
//! the second-factor challenge, or a failure. Nothing is retried.

use crate::decimal::{decimal, decimal_of, lemma_decimal_shape};
use crate::error::{AuthError, Failure};
use crate::flow::{join, join3, push_line, texts, Action, ActionView};
use crate::model::{AuthCallbackResult, CallbackOutcome, LOCAL_PORT};
use crate::text::{chars_of, same_chars, string_of};
use crate::urlencode::{
    encoded_text, escaped, lemma_ascii_is_encoded_by_character, lemma_encoded_text_concat,
    lemma_unreserved_text_stays, percent_encode, percent_encoded,
};
use vstd::prelude::*;
use vstd::string::StringExecFns;
use vstd::utf8::{encode_utf8, is_ascii_chars};

verus! {

/// How many seconds the callback is waited for.
pub const CALLBACK_DEADLINE: u64 = 120;

/// How an attempt was resolved by what the listener handed on.
#[derive(Clone, Copy, Debug, PartialEq, Eq, Structural)]
pub enum Resolution {
    Success,
    TwoFactor,
    Error,
}

/// Where an attempt stands.
#[derive(Clone, Debug)]
pub enum AttemptState {
    /// Nothing has been started.
    Idle,
    /// The listener runs and the browser is being opened on `url`.
    ListenerStarted { url: String },
    /// The callback is awaited.
    AwaitingCallback,
    /// The listener handed on an outcome; the attempt is over.
    Resolved(Resolution),
    /// The deadline passed; the attempt is over.
    TimedOut,
}

/// An `AttemptState` as contracts see it.
pub enum AttemptStateView {
    Idle,
    ListenerStarted { url: Seq<char> },
    AwaitingCallback,
    Resolved(Resolution),
    TimedOut,
}

impl View for AttemptState {
    type V = AttemptStateView;

    open spec fn view(&self) -> AttemptStateView {
        match self {
            AttemptState::Idle => AttemptStateView::Idle,
            AttemptState::ListenerStarted { url } => AttemptStateView::ListenerStarted {
                url: url@,
            },
            AttemptState::AwaitingCallback => AttemptStateView::AwaitingCallback,
            AttemptState::Resolved(r) => AttemptStateView::Resolved(*r),
            AttemptState::TimedOut => AttemptStateView::TimedOut,
        }
    }
}

impl AttemptStateView {
    /// The attempt is over.
    pub open spec fn is_terminal(self) -> bool {
        self is Resolved || self is TimedOut
    }
}

/// What the surrounding program reports to the coordinator.
#[derive(Clone, Debug)]
pub enum AttemptEvent {
    /// The user chose the provider; the service is at `api_url`.
    Begin { api_url: String, provider: String },
    /// The browser was opened.
    BrowserOpened,
    /// The browser could not be opened.
    BrowserFailed,
    /// The listener handed on an outcome.
    Delivered(AuthCallbackResult),
    /// The deadline passed without an outcome.
    DeadlineElapsed,
}

/// An `AttemptEvent` as contracts see it.
pub enum AttemptEventView {
    Begin { api_url: Seq<char>, provider: Seq<char> },
    BrowserOpened,
    BrowserFailed,
    Delivered(CallbackOutcome),
    DeadlineElapsed,
}

impl View for AttemptEvent {
    type V = AttemptEventView;

    open spec fn view(&self) -> AttemptEventView {
        match self {
            AttemptEvent::Begin { api_url, provider } => AttemptEventView::Begin {
                api_url: api_url@,
                provider: provider@,
            },
            AttemptEvent::BrowserOpened => AttemptEventView::BrowserOpened,
            AttemptEvent::BrowserFailed => AttemptEventView::BrowserFailed,
            AttemptEvent::Delivered(o) => AttemptEventView::Delivered(o@),
            AttemptEvent::DeadlineElapsed => AttemptEventView::DeadlineElapsed,
        }
    }
}

/// What the coordinator asks for.
#[derive(Clone, Debug)]
pub enum AttemptAction {
    /// Start the listener on `port` as a worker of its own, then open `url`
    /// in the browser.
    Launch { port: u16, url: String },
    /// Wait for the listener's outcome, `seconds` at most.
    Await { seconds: u64 },
    /// Stop the listener if `cancel_listener` says so, which is safe
    /// whether or not it still runs, then carry out the verdict.
    Conclude { cancel_listener: bool, verdict: Action },
    /// Nothing: the event does not concern the attempt as it stands.
    Nothing,
}

/// An `AttemptAction` as contracts see it.
pub enum AttemptActionView {
    Launch { port: u16, url: Seq<char> },
    Await { seconds: u64 },
    Conclude { cancel_listener: bool, verdict: ActionView },
    Nothing,
}

impl View for AttemptAction {
    type V = AttemptActionView;

    open spec fn view(&self) -> AttemptActionView {
        match self {
            AttemptAction::Launch { port, url } => AttemptActionView::Launch {
                port: *port,
                url: url@,
            },
            AttemptAction::Await { seconds } => AttemptActionView::Await { seconds: *seconds },
            AttemptAction::Conclude { cancel_listener, verdict } => AttemptActionView::Conclude {
                cancel_listener: *cancel_listener,
                verdict: verdict@,
            },
            AttemptAction::Nothing => AttemptActionView::Nothing,
        }
    }
}

/// One move of the coordinator: lines to show, then an action.
#[derive(Clone, Debug)]
pub struct AttemptStep {
    pub say: Vec<String>,
    pub action: AttemptAction,
}

/// An `AttemptStep` as contracts see it.
pub struct AttemptStepView {
    pub say: Seq<Seq<char>>,
    pub action: AttemptActionView,
}

impl View for AttemptStep {
    type V = AttemptStepView;

    open spec fn view(&self) -> AttemptStepView {
        AttemptStepView { say: texts(self.say@), action: self.action@ }
    }
}

/// The address that the service sends the browser back to.
pub open spec fn callback_uri() -> Seq<char> {
    "http://127.0.0.1:"@ + decimal(LOCAL_PORT as nat) + "/auth/callback"@
}

/// The address that the browser is sent to: the provider's entry of the
/// service, with the callback address percent-encoded in the query.
pub open spec fn authorization_url(api_url: Seq<char>, provider: Seq<char>) -> Seq<char> {
    api_url + "/auth/"@ + provider + "?client=cli&redirect_uri="@ + percent_encoded(
        encode_utf8(callback_uri()),
    )
}

/// Writes the address that the browser is sent to.
pub fn authorization_url_for(api_url: &str, provider: &str) -> (url: String)
    ensures
        url@ == authorization_url(api_url@, provider@),
{
    let port = string_of(&decimal_of(LOCAL_PORT as usize));
    let callback = join3("http://127.0.0.1:", port.as_str(), "/auth/callback");
    let encoded = percent_encode(callback.as_str());
    let mut url = join3(api_url, "/auth/", provider);
    url.append("?client=cli&redirect_uri=");
    url.append(encoded.as_str());
    url
}

/// What an outcome of the listener means for the attempt.
pub open spec fn resolution(outcome: CallbackOutcome) -> (Resolution, ActionView) {
    match outcome {
        CallbackOutcome::Error(reason) => (
            Resolution::Error,
            if reason == "port"@ {
                ActionView::Fail(Failure::PortBind)
            } else {
                ActionView::Fail(Failure::Server("Login failed: "@ + reason))
            },
        ),
        CallbackOutcome::Success(token) => (
            Resolution::Success,
            ActionView::Commit { token, notice: "✔ Login successful!"@ },
        ),
        CallbackOutcome::TwoFactorPending(token) => (
            Resolution::TwoFactor,
            ActionView::Challenge { token },
        ),
    }
}

/// Decides what an outcome of the listener means for the attempt.
pub fn resolve(outcome: AuthCallbackResult) -> (r: (Resolution, Action))
    ensures
        (r.0, r.1@) == resolution(outcome@),
{
    match outcome {
        AuthCallbackResult::Error(reason) => {
            if same_chars(&chars_of(reason.as_str()), &chars_of("port")) {
                (Resolution::Error, Action::Fail(AuthError::PortBind))
            } else {
                (
                    Resolution::Error,
                    Action::Fail(AuthError::Server(join("Login failed: ", reason.as_str()))),
                )
            }
        },
        AuthCallbackResult::Success(token) => (
            Resolution::Success,
            Action::Commit { token, notice: String::from_str("✔ Login successful!") },
        ),
        AuthCallbackResult::TwoFactor(token) => (
            Resolution::TwoFactor,
            Action::Challenge { token },
        ),
    }
}

/// The lines shown while the callback is awaited; where the browser could
/// not be opened they give the address to visit.
pub open spec fn waiting_lines(url: Seq<char>, opened: bool) -> Seq<Seq<char>> {
    if opened {
        seq!["◌ Waiting for authentication..."@]
    } else {
        seq![
            "Could not open browser automatically."@,
            "Please visit this URL to log in:\n"@ + url,
            "◌ Waiting for authentication..."@,
        ]
    }
}

/// A move that leaves the attempt as it is.
pub open spec fn stay(state: AttemptStateView) -> (AttemptStateView, AttemptStepView) {
    (state, AttemptStepView { say: Seq::empty(), action: AttemptActionView::Nothing })
}

/// A move that ends the attempt: the listener is stopped, the verdict
/// carried out.
pub open spec fn conclude(verdict: ActionView) -> AttemptStepView {
    AttemptStepView {
        say: Seq::empty(),
        action: AttemptActionView::Conclude { cancel_listener: true, verdict },
    }
}

/// The coordinator as a machine: from a state and what was reported, the
/// next state and what to do. An event that the state does not await
/// changes nothing.
pub open spec fn attempt_next(state: AttemptStateView, event: AttemptEventView) -> (
    AttemptStateView,
    AttemptStepView,
) {
    match (state, event) {
        (AttemptStateView::Idle, AttemptEventView::Begin { api_url, provider }) => (
            AttemptStateView::ListenerStarted { url: authorization_url(api_url, provider) },
            AttemptStepView {
                say: seq!["○ Opening your browser to complete login..."@],
                action: AttemptActionView::Launch {
                    port: LOCAL_PORT,
                    url: authorization_url(api_url, provider),
                },
            },
        ),
        (AttemptStateView::ListenerStarted { url }, AttemptEventView::BrowserOpened) => (
            AttemptStateView::AwaitingCallback,
            AttemptStepView {
                say: waiting_lines(url, true),
                action: AttemptActionView::Await { seconds: CALLBACK_DEADLINE },
            },
        ),
        (AttemptStateView::ListenerStarted { url }, AttemptEventView::BrowserFailed) => (
            AttemptStateView::AwaitingCallback,
            AttemptStepView {
                say: waiting_lines(url, false),
                action: AttemptActionView::Await { seconds: CALLBACK_DEADLINE },
            },
        ),
        (AttemptStateView::AwaitingCallback, AttemptEventView::DeadlineElapsed) => (
            AttemptStateView::TimedOut,
            conclude(ActionView::Fail(Failure::Timeout)),
        ),
        (AttemptStateView::AwaitingCallback, AttemptEventView::Delivered(outcome)) => (
            AttemptStateView::Resolved(resolution(outcome).0),
            conclude(resolution(outcome).1),
        ),
        _ => stay(state),
    }
}

/// A move that leaves the attempt as it is.
fn ignore(state: AttemptState) -> (r: (AttemptState, AttemptStep))
    ensures
        (r.0@, r.1@) == stay(state@),
{
    let step = AttemptStep { say: Vec::new(), action: AttemptAction::Nothing };
    assert(step@.say =~= Seq::<Seq<char>>::empty());
    (state, step)
}

/// A move that ends the attempt.
fn finish(verdict: Action) -> (s: AttemptStep)
    ensures
        s@ == conclude(verdict@),
{
    let step = AttemptStep {
        say: Vec::new(),
        action: AttemptAction::Conclude { cancel_listener: true, verdict },
    };
    assert(step@.say =~= Seq::<Seq<char>>::empty());
    step
}

/// The lines shown while the callback is awaited.
fn waiting(url: &str, opened: bool) -> (say: Vec<String>)
    ensures
        texts(say@) == waiting_lines(url@, opened),
{
    let mut say: Vec<String> = Vec::new();
    if !opened {
        push_line(&mut say, String::from_str("Could not open browser automatically."));
        push_line(&mut say, join("Please visit this URL to log in:\n", url));
    }
    push_line(&mut say, String::from_str("◌ Waiting for authentication..."));
    assert(texts(say@) =~= waiting_lines(url@, opened));
    say
}

/// Moves the attempt on by one event.
pub fn attempt_step(state: AttemptState, event: AttemptEvent) -> (r: (AttemptState, AttemptStep))
    ensures
        (r.0@, r.1@) == attempt_next(state@, event@),
{
    match state {
        AttemptState::Idle => match event {
            AttemptEvent::Begin { api_url, provider } => {
                let url = authorization_url_for(api_url.as_str(), provider.as_str());
                let mut say: Vec<String> = Vec::new();
                push_line(
                    &mut say,
                    String::from_str("○ Opening your browser to complete login..."),
                );
                assert(texts(say@) =~= seq!["○ Opening your browser to complete login..."@]);
                (
                    AttemptState::ListenerStarted { url: url.clone() },
                    AttemptStep { say, action: AttemptAction::Launch { port: LOCAL_PORT, url } },
                )
            },
            _ => ignore(AttemptState::Idle),
        },
        AttemptState::ListenerStarted { url } => match event {
            AttemptEvent::BrowserOpened => (
                AttemptState::AwaitingCallback,
                AttemptStep {
                    say: waiting(url.as_str(), true),
                    action: AttemptAction::Await { seconds: CALLBACK_DEADLINE },
                },
            ),
            AttemptEvent::BrowserFailed => (
                AttemptState::AwaitingCallback,
                AttemptStep {
                    say: waiting(url.as_str(), false),
                    action: AttemptAction::Await { seconds: CALLBACK_DEADLINE },
                },
            ),
            _ => ignore(AttemptState::ListenerStarted { url }),
        },
        AttemptState::AwaitingCallback => match event {
            AttemptEvent::DeadlineElapsed => (
                AttemptState::TimedOut,
                finish(Action::Fail(AuthError::Timeout)),
            ),
            AttemptEvent::Delivered(outcome) => {
                let (how, verdict) = resolve(outcome);
                (AttemptState::Resolved(how), finish(verdict))
            },
            _ => ignore(AttemptState::AwaitingCallback),
        },
        AttemptState::Resolved(how) => ignore(AttemptState::Resolved(how)),
        AttemptState::TimedOut => ignore(AttemptState::TimedOut),
    }
}

/// An attempt times out on the passing of the deadline and on nothing
/// else, and every wait it asks for is the full deadline.
pub proof fn lemma_timeout_needs_the_deadline(state: AttemptStateView, event: AttemptEventView)
    ensures
        attempt_next(state, event).0 is TimedOut && !(state is TimedOut) <==> state
            is AwaitingCallback && event is DeadlineElapsed,
        attempt_next(state, event).1.action matches AttemptActionView::Await { seconds }
            ==> seconds == 120,
        state is AwaitingCallback && !(event is DeadlineElapsed) && !(event is Delivered)
            ==> attempt_next(state, event) == stay(state),
{
}

/// A port that could not be bound fails the attempt on the listener's
/// word, without the deadline passing.
pub proof fn lemma_port_conflict_fails_at_once()
    ensures
        attempt_next(
            AttemptStateView::AwaitingCallback,
            AttemptEventView::Delivered(CallbackOutcome::Error("port"@)),
        ) == (
            AttemptStateView::Resolved(Resolution::Error),
            conclude(ActionView::Fail(Failure::PortBind)),
        ),
{
}

/// An attempt ends exactly once: the move that ends it stops the listener
/// and carries a final verdict; before it no verdict is given, and after
/// it nothing happens any more.
pub proof fn lemma_attempt_ends_once(state: AttemptStateView, event: AttemptEventView)
    ensures
        attempt_next(state, event).1.action is Conclude <==> !state.is_terminal() && attempt_next(
            state,
            event,
        ).0.is_terminal(),
        attempt_next(state, event).1.action matches AttemptActionView::Conclude {
            cancel_listener,
            verdict,
        } ==> cancel_listener && verdict.is_final(),
        state.is_terminal() ==> attempt_next(state, event) == stay(state),
{
}

/// The callback address as it stands in the query: the colon and the
/// slashes are escaped, all else stands as it is.
pub open spec fn encoded_callback_uri() -> Seq<char> {
    "http%3A%2F%2F127.0.0.1%3A"@ + decimal(LOCAL_PORT as nat) + "%2Fauth%2Fcallback"@
}

/// The encoding of the text in front of the port.
proof fn lemma_encoded_front()
    ensures
        encoded_text("http://127.0.0.1:"@) == "http%3A%2F%2F127.0.0.1%3A"@,
        is_ascii_chars("http://127.0.0.1:"@),
{
    reveal_strlit("http://127.0.0.1:");
    reveal_strlit("http%3A%2F%2F127.0.0.1%3A");
    reveal_strlit("http");
    reveal_strlit(":");
    reveal_strlit("//");
    reveal_strlit("127.0.0.1");
    let a = "http"@;
    let b = ":"@;
    let c = "//"@;
    let d = "127.0.0.1"@;
    assert("http://127.0.0.1:"@ =~= a + b + c + d + b);
    lemma_unreserved_text_stays(a);
    lemma_unreserved_text_stays(d);
    assert(encoded_text(b) =~= seq!['%', '3', 'A']) by {
        assert(b.drop_last() =~= Seq::<char>::empty());
        assert(encoded_text(b) == encoded_text(b.drop_last()) + escaped(b.last() as u8));
    }
    assert(encoded_text(c) =~= seq!['%', '2', 'F', '%', '2', 'F']) by {
        let c1 = c.drop_last();
        assert(c1.drop_last() =~= Seq::<char>::empty());
        assert(encoded_text(c1) == encoded_text(c1.drop_last()) + escaped(c1.last() as u8));
        assert(encoded_text(c) == encoded_text(c1) + escaped(c.last() as u8));
    }
    lemma_encoded_text_concat(a, b);
    lemma_encoded_text_concat(a + b, c);
    lemma_encoded_text_concat(a + b + c, d);
    lemma_encoded_text_concat(a + b + c + d, b);
    assert(a + encoded_text(b) + encoded_text(c) + d + encoded_text(b)
        =~= "http%3A%2F%2F127.0.0.1%3A"@);
}

/// The encoding of the text behind the port.
proof fn lemma_encoded_back()
    ensures
        encoded_text("/auth/callback"@) == "%2Fauth%2Fcallback"@,
        is_ascii_chars("/auth/callback"@),
{
    reveal_strlit("/auth/callback");
    reveal_strlit("%2Fauth%2Fcallback");
    reveal_strlit("/");
    reveal_strlit("auth");
    reveal_strlit("callback");
    let a = "/"@;
    let b = "auth"@;
    let c = "callback"@;
    assert("/auth/callback"@ =~= a + b + a + c);
    lemma_unreserved_text_stays(b);
    lemma_unreserved_text_stays(c);
    assert(encoded_text(a) =~= seq!['%', '2', 'F']) by {
        assert(a.drop_last() =~= Seq::<char>::empty());
        assert(encoded_text(a) == encoded_text(a.drop_last()) + escaped(a.last() as u8));
    }
    lemma_encoded_text_concat(a, b);
    lemma_encoded_text_concat(a + b, a);
    lemma_encoded_text_concat(a + b + a, c);
    assert(encoded_text(a) + b + encoded_text(a) + c =~= "%2Fauth%2Fcallback"@);
}

/// The address that the browser is sent to names the callback address in
/// its escaped form, whatever the service's address and the provider are.
pub proof fn lemma_authorization_url(api_url: Seq<char>, provider: Seq<char>)
    ensures
        authorization_url(api_url, provider) == api_url + "/auth/"@ + provider
            + "?client=cli&redirect_uri="@ + encoded_callback_uri(),
{
    let front = "http://127.0.0.1:"@;
    let port = decimal(LOCAL_PORT as nat);
    let back = "/auth/callback"@;
    lemma_encoded_front();
    lemma_encoded_back();
    lemma_decimal_shape(LOCAL_PORT as nat);
    lemma_unreserved_text_stays(port);
    lemma_encoded_text_concat(front, port);
    lemma_encoded_text_concat(front + port, back);
    assert(is_ascii_chars(callback_uri())) by {
        assert forall|i: int| 0 <= i < callback_uri().len() implies '\0'
            <= #[trigger] callback_uri()[i] <= '\u{7f}' by {
            if i < front.len() {
                assert(callback_uri()[i] == front[i]);
            } else if i < front.len() + port.len() {
                assert(callback_uri()[i] == port[i - front.len()]);
            } else {
                assert(callback_uri()[i] == back[i - front.len() - port.len()]);
            }
        }
    }
    lemma_ascii_is_encoded_by_character(callback_uri());
}

} // verus!
