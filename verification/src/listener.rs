//! The loopback listener of a browser login. It binds the port, takes one
//! connection, reads one request, always answers with the same page, and
//! hands on at most one outcome. Then it is closed and holds nothing.

use crate::callback::{
    callback_outcome, callback_query, lemma_no_token_no_outcome,
    lemma_pending_token_without_session, lemma_session_token_wins, parse_token_from_request,
};
use crate::decimal::{decimal, decimal_of};
use crate::model::{outcome_view, text_view, AuthCallbackResult, CallbackOutcome, LOCAL_PORT};
use crate::split::split;
use crate::text::{has_prefix, string_of};
use vstd::prelude::*;
use vstd::string::StringExecFns;
use vstd::utf8::encode_utf8;

verus! {

/// How many bytes of a request are read.
pub const REQUEST_LIMIT: usize = 2048;

/// The page that every connection is answered with.
pub const CONFIRMATION_PAGE: &'static str =
    "<!DOCTYPE html>\n<html lang=\"en\">\n<head>\n<meta charset=\"utf-8\">\n<title>Wayclip</title>\n</head>\n<body>\n<h1>Login complete</h1>\n<p>You can close this tab and return to the terminal.</p>\n</body>\n</html>\n";

/// The response that carries `page`: status 200, the type, the length of
/// the page in bytes, an empty line, the page.
pub open spec fn confirmation_response(page: Seq<char>) -> Seq<char> {
    "HTTP/1.1 200 OK\r\nContent-Type: text/html\r\nContent-Length: "@ + decimal(
        encode_utf8(page).len(),
    ) + "\r\n\r\n"@ + page
}

/// Writes the response that carries `page`.
pub fn render_confirmation(page: &str) -> (r: String)
    ensures
        r@ == confirmation_response(page@),
{
    let mut r = String::from_str("HTTP/1.1 200 OK\r\nContent-Type: text/html\r\nContent-Length: ");
    let length = string_of(&decimal_of(page.as_bytes().len()));
    r.append(length.as_str());
    r.append("\r\n\r\n");
    r.append(page);
    r
}

/// Where the listener stands.
#[derive(Clone, Copy, Debug, PartialEq, Eq, Structural)]
pub enum ListenerState {
    /// The port is being bound.
    Binding,
    /// The port is bound; a connection is awaited.
    Listening,
    /// The one connection is open; its request is awaited.
    Connected,
    /// The listener is done: no port, no connection.
    Closed,
}

impl ListenerState {
    /// The listener occupies the port in this state.
    pub open spec fn holds_port(self) -> bool {
        self == ListenerState::Listening || self == ListenerState::Connected
    }
}

/// What the surrounding program reports to the listener.
#[derive(Clone, Debug)]
pub enum ListenerEvent {
    BindFailed,
    Bound,
    AcceptFailed,
    Accepted,
    ReadFailed,
    /// The request as text, as far as it was read.
    Received(String),
}

/// A `ListenerEvent` as contracts see it.
pub enum ListenerEventView {
    BindFailed,
    Bound,
    AcceptFailed,
    Accepted,
    ReadFailed,
    Received(Seq<char>),
}

impl View for ListenerEvent {
    type V = ListenerEventView;

    open spec fn view(&self) -> ListenerEventView {
        match self {
            ListenerEvent::BindFailed => ListenerEventView::BindFailed,
            ListenerEvent::Bound => ListenerEventView::Bound,
            ListenerEvent::AcceptFailed => ListenerEventView::AcceptFailed,
            ListenerEvent::Accepted => ListenerEventView::Accepted,
            ListenerEvent::ReadFailed => ListenerEventView::ReadFailed,
            ListenerEvent::Received(s) => ListenerEventView::Received(s@),
        }
    }
}

/// What the listener asks for.
#[derive(Clone, Debug)]
pub enum ListenerAction {
    /// Bind the loopback interface on this port.
    Bind { port: u16 },
    /// Take one connection.
    Accept,
    /// Read the request once, up to this many bytes.
    Read { limit: usize },
    /// Write the reply, if any, and close the connection; hand on the
    /// outcome, if any; release the port and stop.
    Finish { reply: Option<String>, outcome: Option<AuthCallbackResult> },
}

/// A `ListenerAction` as contracts see it.
pub enum ListenerActionView {
    Bind { port: u16 },
    Accept,
    Read { limit: usize },
    Finish { reply: Option<Seq<char>>, outcome: Option<CallbackOutcome> },
}

impl View for ListenerAction {
    type V = ListenerActionView;

    open spec fn view(&self) -> ListenerActionView {
        match self {
            ListenerAction::Bind { port } => ListenerActionView::Bind { port: *port },
            ListenerAction::Accept => ListenerActionView::Accept,
            ListenerAction::Read { limit } => ListenerActionView::Read { limit: *limit },
            ListenerAction::Finish { reply, outcome } => ListenerActionView::Finish {
                reply: text_view(*reply),
                outcome: outcome_view(*outcome),
            },
        }
    }
}

/// The end of a listener that served no connection.
pub open spec fn finish_unserved(outcome: Option<CallbackOutcome>) -> ListenerActionView {
    ListenerActionView::Finish { reply: None, outcome }
}

/// The end of a listener that served its connection.
pub open spec fn finish_served(outcome: Option<CallbackOutcome>) -> ListenerActionView {
    ListenerActionView::Finish {
        reply: Some(confirmation_response(CONFIRMATION_PAGE@)),
        outcome,
    }
}

/// The listener as a machine: from a state and what was reported, the next
/// state and what to do.
///
/// A port that cannot be bound ends the listener at once with the outcome
/// `Error("port")`. A connection, once taken, is always answered with the
/// page, whatever was read; an outcome goes with it only where the request
/// resolves to one.
pub open spec fn listener_next(state: ListenerState, event: ListenerEventView) -> (
    ListenerState,
    ListenerActionView,
) {
    match (state, event) {
        (ListenerState::Binding, ListenerEventView::Bound) => (
            ListenerState::Listening,
            ListenerActionView::Accept,
        ),
        (ListenerState::Binding, ListenerEventView::BindFailed) => (
            ListenerState::Closed,
            finish_unserved(Some(CallbackOutcome::Error("port"@))),
        ),
        (ListenerState::Listening, ListenerEventView::Accepted) => (
            ListenerState::Connected,
            ListenerActionView::Read { limit: REQUEST_LIMIT },
        ),
        (ListenerState::Connected, ListenerEventView::Received(request)) => (
            ListenerState::Closed,
            finish_served(callback_outcome(request)),
        ),
        (ListenerState::Connected, _) => (ListenerState::Closed, finish_served(None)),
        _ => (ListenerState::Closed, finish_unserved(None)),
    }
}

/// Starts a listener: the port is to be bound.
pub fn open_listener() -> (r: (ListenerState, ListenerAction))
    ensures
        r.0 == ListenerState::Binding,
        r.1@ == (ListenerActionView::Bind { port: LOCAL_PORT }),
{
    (ListenerState::Binding, ListenerAction::Bind { port: LOCAL_PORT })
}

/// Moves the listener on by one event.
pub fn listener_step(state: ListenerState, event: ListenerEvent) -> (r: (
    ListenerState,
    ListenerAction,
))
    ensures
        (r.0, r.1@) == listener_next(state, event@),
{
    match state {
        ListenerState::Binding => match event {
            ListenerEvent::Bound => (ListenerState::Listening, ListenerAction::Accept),
            ListenerEvent::BindFailed => (
                ListenerState::Closed,
                ListenerAction::Finish {
                    reply: None,
                    outcome: Some(AuthCallbackResult::Error(String::from_str("port"))),
                },
            ),
            _ => (ListenerState::Closed, ListenerAction::Finish { reply: None, outcome: None }),
        },
        ListenerState::Listening => match event {
            ListenerEvent::Accepted => (
                ListenerState::Connected,
                ListenerAction::Read { limit: REQUEST_LIMIT },
            ),
            _ => (ListenerState::Closed, ListenerAction::Finish { reply: None, outcome: None }),
        },
        ListenerState::Connected => {
            let reply = Some(render_confirmation(CONFIRMATION_PAGE));
            match event {
                ListenerEvent::Received(request) => (
                    ListenerState::Closed,
                    ListenerAction::Finish {
                        reply,
                        outcome: parse_token_from_request(request.as_str()),
                    },
                ),
                _ => (ListenerState::Closed, ListenerAction::Finish { reply, outcome: None }),
            }
        },
        ListenerState::Closed => (
            ListenerState::Closed,
            ListenerAction::Finish { reply: None, outcome: None },
        ),
    }
}

/// What a listener does over a series of events, from `state` on: one
/// action for each event until it is closed.
pub open spec fn listener_run(state: ListenerState, events: Seq<ListenerEventView>) -> Seq<
    ListenerActionView,
>
    decreases events.len(),
{
    if events.len() == 0 || state == ListenerState::Closed {
        Seq::empty()
    } else {
        seq![listener_next(state, events[0]).1] + listener_run(
            listener_next(state, events[0]).0,
            events.drop_first(),
        )
    }
}

/// The outcomes that a series of actions hands on, in order.
pub open spec fn delivered(actions: Seq<ListenerActionView>) -> Seq<CallbackOutcome>
    decreases actions.len(),
{
    if actions.len() == 0 {
        Seq::empty()
    } else {
        match actions.last() {
            ListenerActionView::Finish { outcome: Some(o), .. } => delivered(
                actions.drop_last(),
            ).push(o),
            _ => delivered(actions.drop_last()),
        }
    }
}

/// The replies that a series of actions writes, in order.
pub open spec fn replies(actions: Seq<ListenerActionView>) -> Seq<Seq<char>>
    decreases actions.len(),
{
    if actions.len() == 0 {
        Seq::empty()
    } else {
        match actions.last() {
            ListenerActionView::Finish { reply: Some(r), .. } => replies(actions.drop_last()).push(
                r,
            ),
            _ => replies(actions.drop_last()),
        }
    }
}

/// Where a listener stands after a series of events, from `state` on.
pub open spec fn listener_after(state: ListenerState, events: Seq<ListenerEventView>)
    -> ListenerState
    decreases events.len(),
{
    if events.len() == 0 || state == ListenerState::Closed {
        state
    } else {
        listener_after(listener_next(state, events[0]).0, events.drop_first())
    }
}

/// The listener stops exactly where it is closed, and a closed listener
/// holds no port.
pub proof fn lemma_finish_closes(state: ListenerState, event: ListenerEventView)
    ensures
        listener_next(state, event).1 is Finish <==> listener_next(state, event).0
            == ListenerState::Closed,
        listener_next(state, event).1 is Finish ==> !listener_next(state, event).0.holds_port(),
        !(listener_next(state, event).1 is Bind),
{
}

/// Only the last action of a run can be the end of the listener.
proof fn lemma_run_finishes_last(state: ListenerState, events: Seq<ListenerEventView>)
    ensures
        forall|i: int|
            0 <= i < listener_run(state, events).len() - 1 ==> !(#[trigger] listener_run(
                state,
                events,
            )[i] is Finish),
    decreases events.len(),
{
    if events.len() > 0 && state != ListenerState::Closed {
        let next = listener_next(state, events[0]);
        lemma_run_finishes_last(next.0, events.drop_first());
        let rest = listener_run(next.0, events.drop_first());
        let run = listener_run(state, events);
        assert(run == seq![next.1] + rest);
        assert forall|i: int| 0 <= i < run.len() - 1 implies !(#[trigger] run[i] is Finish) by {
            if i > 0 {
                assert(run[i] == rest[i - 1]);
            }
        }
    }
}

/// Actions of which none is the end of the listener hand on nothing and
/// write nothing.
proof fn lemma_unfinished_is_silent(actions: Seq<ListenerActionView>)
    requires
        forall|i: int| 0 <= i < actions.len() ==> !(#[trigger] actions[i] is Finish),
    ensures
        delivered(actions).len() == 0,
        replies(actions).len() == 0,
    decreases actions.len(),
{
    if actions.len() > 0 {
        lemma_unfinished_is_silent(actions.drop_last());
    }
}

/// Whatever is reported to it, and in whatever order, a listener hands on
/// at most one outcome and writes at most one reply.
pub proof fn lemma_listener_delivers_at_most_once(
    state: ListenerState,
    events: Seq<ListenerEventView>,
)
    ensures
        delivered(listener_run(state, events)).len() <= 1,
        replies(listener_run(state, events)).len() <= 1,
{
    let run = listener_run(state, events);
    if run.len() > 0 {
        lemma_run_finishes_last(state, events);
        lemma_unfinished_is_silent(run.drop_last());
    }
}

/// A listener that binds, takes a connection and reads a request that
/// resolves to an outcome hands on that outcome, once, and answers with the
/// page, once.
pub proof fn lemma_callback_is_delivered_once(request: Seq<char>, outcome: CallbackOutcome)
    requires
        callback_outcome(request) == Some(outcome),
    ensures
        delivered(
            listener_run(
                ListenerState::Binding,
                seq![
                    ListenerEventView::Bound,
                    ListenerEventView::Accepted,
                    ListenerEventView::Received(request),
                ],
            ),
        ) == seq![outcome],
        replies(
            listener_run(
                ListenerState::Binding,
                seq![
                    ListenerEventView::Bound,
                    ListenerEventView::Accepted,
                    ListenerEventView::Received(request),
                ],
            ),
        ) == seq![confirmation_response(CONFIRMATION_PAGE@)],
{
    let events = seq![
        ListenerEventView::Bound,
        ListenerEventView::Accepted,
        ListenerEventView::Received(request),
    ];
    lemma_served_run(request);
    let run = listener_run(ListenerState::Binding, events);
    let head = seq![ListenerActionView::Accept, ListenerActionView::Read { limit: REQUEST_LIMIT }];
    assert(run.drop_last() == head);
    lemma_unfinished_is_silent(head);
    assert(delivered(run) == delivered(head).push(outcome));
    assert(replies(run) == replies(head).push(confirmation_response(CONFIRMATION_PAGE@)));
}

/// The run of a listener that binds, takes a connection and reads a
/// request: it accepts, reads, and ends with the page and what the request
/// resolves to.
pub proof fn lemma_served_run(request: Seq<char>)
    ensures
        listener_run(
            ListenerState::Binding,
            seq![
                ListenerEventView::Bound,
                ListenerEventView::Accepted,
                ListenerEventView::Received(request),
            ],
        ) == seq![
            ListenerActionView::Accept,
            ListenerActionView::Read { limit: REQUEST_LIMIT },
            finish_served(callback_outcome(request)),
        ],
{
    let e1 = seq![
        ListenerEventView::Bound,
        ListenerEventView::Accepted,
        ListenerEventView::Received(request),
    ];
    let e2 = seq![ListenerEventView::Accepted, ListenerEventView::Received(request)];
    let e3 = seq![ListenerEventView::Received(request)];
    assert(e1.drop_first() == e2);
    assert(e2.drop_first() == e3);
    assert(e3.drop_first() == Seq::<ListenerEventView>::empty());
    assert(listener_run(ListenerState::Closed, e3.drop_first()) == Seq::<
        ListenerActionView,
    >::empty());
    assert(listener_run(ListenerState::Connected, e3) == seq![
        finish_served(callback_outcome(request)),
    ]);
    assert(listener_run(ListenerState::Listening, e2) == seq![
        ListenerActionView::Read { limit: REQUEST_LIMIT },
        finish_served(callback_outcome(request)),
    ]);
}

/// A request that resolves to nothing is answered with the page all the
/// same, and nothing is handed on.
pub proof fn lemma_unmatched_request_is_served_silently(request: Seq<char>)
    requires
        callback_outcome(request) is None,
    ensures
        listener_next(ListenerState::Connected, ListenerEventView::Received(request)) == (
            ListenerState::Closed,
            finish_served(None),
        ),
        delivered(
            listener_run(
                ListenerState::Binding,
                seq![
                    ListenerEventView::Bound,
                    ListenerEventView::Accepted,
                    ListenerEventView::Received(request),
                ],
            ),
        ).len() == 0,
{
    lemma_served_run(request);
    let run = listener_run(
        ListenerState::Binding,
        seq![
            ListenerEventView::Bound,
            ListenerEventView::Accepted,
            ListenerEventView::Received(request),
        ],
    );
    let head = seq![ListenerActionView::Accept, ListenerActionView::Read { limit: REQUEST_LIMIT }];
    assert(run.drop_last() == head);
    lemma_unfinished_is_silent(head);
}

/// A port that cannot be bound ends the listener with its first action:
/// the outcome `Error("port")`, no connection awaited.
pub proof fn lemma_bind_failure_is_reported_at_once()
    ensures
        listener_next(ListenerState::Binding, ListenerEventView::BindFailed) == (
            ListenerState::Closed,
            finish_unserved(Some(CallbackOutcome::Error("port"@))),
        ),
{
}

/// A listener is closed after three events at the latest, whatever they
/// are, and stays closed: the port is free for the next attempt.
pub proof fn lemma_listener_releases_port(events: Seq<ListenerEventView>)
    requires
        events.len() >= 3,
    ensures
        listener_after(ListenerState::Binding, events) == ListenerState::Closed,
        !listener_after(ListenerState::Binding, events).holds_port(),
{
    let s1 = listener_next(ListenerState::Binding, events[0]).0;
    let e1 = events.drop_first();
    let s2 = listener_next(s1, e1[0]).0;
    let e2 = e1.drop_first();
    let s3 = listener_next(s2, e2[0]).0;
    assert(s1 == ListenerState::Closed || s1 == ListenerState::Listening);
    assert(s2 == ListenerState::Closed || s2 == ListenerState::Connected);
    assert(s3 == ListenerState::Closed);
    lemma_closed_stays(e1);
    lemma_closed_stays(e2);
    lemma_closed_stays(e2.drop_first());
    assert(listener_after(ListenerState::Binding, events) == listener_after(s1, e1));
    if s1 != ListenerState::Closed {
        assert(listener_after(s1, e1) == listener_after(s2, e2));
        if s2 != ListenerState::Closed {
            assert(listener_after(s2, e2) == listener_after(s3, e2.drop_first()));
        }
    }
}

/// A closed listener stays closed.
proof fn lemma_closed_stays(events: Seq<ListenerEventView>)
    ensures
        listener_after(ListenerState::Closed, events) == ListenerState::Closed,
{
}

/// The events of a listener that binds, takes a connection and reads
/// `request`.
pub open spec fn served(request: Seq<char>) -> Seq<ListenerEventView> {
    seq![
        ListenerEventView::Bound,
        ListenerEventView::Accepted,
        ListenerEventView::Received(request),
    ]
}

/// A connection whose query has `token=` first in its `k`-th parameter is
/// resolved with the session token that stands there, exactly once.
pub proof fn lemma_session_token_resolves_once(request: Seq<char>, query: Seq<char>, k: int)
    requires
        callback_query(request) == Some(query),
        0 <= k < split(query, '&').len(),
        has_prefix(split(query, '&')[k], "token="@),
        forall|j: int| 0 <= j < k ==> !has_prefix(#[trigger] split(query, '&')[j], "token="@),
    ensures
        delivered(listener_run(ListenerState::Binding, served(request))) == seq![
            CallbackOutcome::Success(split(query, '&')[k].skip("token="@.len() as int)),
        ],
{
    lemma_session_token_wins(query, k);
    lemma_callback_is_delivered_once(
        request,
        CallbackOutcome::Success(split(query, '&')[k].skip("token="@.len() as int)),
    );
}

/// A connection whose query has no parameter that begins with `token=`,
/// and `2fa_token=` first in its `k`-th, is resolved with the pending
/// challenge whose token stands there, exactly once.
pub proof fn lemma_pending_token_resolves_once(request: Seq<char>, query: Seq<char>, k: int)
    requires
        callback_query(request) == Some(query),
        0 <= k < split(query, '&').len(),
        forall|j: int|
            0 <= j < split(query, '&').len() ==> !has_prefix(
                #[trigger] split(query, '&')[j],
                "token="@,
            ),
        has_prefix(split(query, '&')[k], "2fa_token="@),
        forall|j: int| 0 <= j < k ==> !has_prefix(#[trigger] split(query, '&')[j], "2fa_token="@),
    ensures
        delivered(listener_run(ListenerState::Binding, served(request))) == seq![
            CallbackOutcome::TwoFactorPending(
                split(query, '&')[k].skip("2fa_token="@.len() as int),
            ),
        ],
{
    lemma_pending_token_without_session(query, k);
    lemma_callback_is_delivered_once(
        request,
        CallbackOutcome::TwoFactorPending(split(query, '&')[k].skip("2fa_token="@.len() as int)),
    );
}

/// A connection whose request has no query, or a query in which no
/// parameter begins with `token=` or `2fa_token=`, gets the page and
/// resolves nothing.
pub proof fn lemma_unmatched_query_resolves_nothing(request: Seq<char>)
    requires
        callback_query(request) matches Some(query) ==> forall|j: int|
            0 <= j < split(query, '&').len() ==> !has_prefix(
                #[trigger] split(query, '&')[j],
                "token="@,
            ) && !has_prefix(split(query, '&')[j], "2fa_token="@),
    ensures
        delivered(listener_run(ListenerState::Binding, served(request))).len() == 0,
        replies(listener_run(ListenerState::Binding, served(request))) == seq![
            confirmation_response(CONFIRMATION_PAGE@),
        ],
{
    match callback_query(request) {
        Some(query) => {
            lemma_no_token_no_outcome(query);
        },
        None => {},
    }
    lemma_unmatched_request_is_served_silently(request);
    lemma_served_run(request);
    let run = listener_run(ListenerState::Binding, served(request));
    let head = seq![ListenerActionView::Accept, ListenerActionView::Read { limit: REQUEST_LIMIT }];
    assert(run.drop_last() == head);
    lemma_unfinished_is_silent(head);
    assert(replies(run) == replies(head).push(confirmation_response(CONFIRMATION_PAGE@)));
}

/// A listener is used once: from its start it takes at most three actions,
/// a connection is taken first if at all, a request read second if at all,
/// and never a port bound again.
pub proof fn lemma_listener_is_single_use(events: Seq<ListenerEventView>)
    ensures
        listener_run(ListenerState::Binding, events).len() <= 3,
        forall|i: int|
            0 <= i < listener_run(ListenerState::Binding, events).len() ==> !(
            #[trigger] listener_run(ListenerState::Binding, events)[i] is Bind),
        forall|i: int|
            0 <= i < listener_run(ListenerState::Binding, events).len() && listener_run(
                ListenerState::Binding,
                events,
            )[i] is Accept ==> i == 0,
        forall|i: int|
            0 <= i < listener_run(ListenerState::Binding, events).len() && listener_run(
                ListenerState::Binding,
                events,
            )[i] is Read ==> i == 1,
{
    let run = listener_run(ListenerState::Binding, events);
    if events.len() > 0 {
        let s1 = listener_next(ListenerState::Binding, events[0]).0;
        let e1 = events.drop_first();
        let r1 = listener_run(s1, e1);
        assert(run == seq![listener_next(ListenerState::Binding, events[0]).1] + r1);
        if e1.len() > 0 && s1 != ListenerState::Closed {
            let s2 = listener_next(s1, e1[0]).0;
            let e2 = e1.drop_first();
            let r2 = listener_run(s2, e2);
            assert(r1 == seq![listener_next(s1, e1[0]).1] + r2);
            if e2.len() > 0 && s2 != ListenerState::Closed {
                let s3 = listener_next(s2, e2[0]).0;
                let r3 = listener_run(s3, e2.drop_first());
                assert(r2 == seq![listener_next(s2, e2[0]).1] + r3);
                assert(s3 == ListenerState::Closed);
                assert(r3.len() == 0);
            }
        }
    }
}

} // verus!
