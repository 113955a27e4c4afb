use wayclip_cli::callback::{parse_token_from_header, parse_token_from_request};
use wayclip_cli::listener::{
    listener_step, open_listener, render_confirmation, ListenerAction, ListenerEvent,
    ListenerState, CONFIRMATION_PAGE, REQUEST_LIMIT,
};
use wayclip_cli::model::{AuthCallbackResult, LOCAL_PORT};

fn success(r: Option<AuthCallbackResult>) -> String {
    match r {
        Some(AuthCallbackResult::Success(t)) => t,
        other => panic!("expected a session token, got {:?}", other),
    }
}

fn pending(r: Option<AuthCallbackResult>) -> String {
    match r {
        Some(AuthCallbackResult::TwoFactor(t)) => t,
        other => panic!("expected a pending challenge, got {:?}", other),
    }
}

#[test]
fn session_token_is_read_from_the_request_line() {
    let r = parse_token_from_request(
        "GET /auth/callback?token=abc123 HTTP/1.1\r\nHost: 127.0.0.1:54321\r\n\r\n",
    );
    assert_eq!(success(r), "abc123");
}

#[test]
fn first_session_token_wins() {
    let r = parse_token_from_request("GET /auth/callback?x=1&token=A&token=B HTTP/1.1\r\n");
    assert_eq!(success(r), "A");
}

#[test]
fn session_token_wins_over_pending_challenge() {
    let r = parse_token_from_request("GET /auth/callback?2fa_token=Y&token=X HTTP/1.1\r\n");
    assert_eq!(success(r), "X");
    let r = parse_token_from_request("GET /auth/callback?token=X&2fa_token=Y HTTP/1.1\r\n");
    assert_eq!(success(r), "X");
}

#[test]
fn pending_challenge_is_read_without_session_token() {
    let r = parse_token_from_request("GET /auth/callback?2fa_token=tfa-9 HTTP/1.1\r\n\r\n");
    assert_eq!(pending(r), "tfa-9");
    let r = parse_token_from_request("GET /auth/callback?a=b&2fa_token=Y&2fa_token=Z HTTP/1.1");
    assert_eq!(pending(r), "Y");
}

#[test]
fn empty_token_is_a_token() {
    let r = parse_token_from_request("GET /auth/callback?token= HTTP/1.1\r\n");
    assert_eq!(success(r), "");
}

#[test]
fn request_without_known_parameter_gives_nothing() {
    for request in [
        "",
        "\n",
        "GET /auth/callback HTTP/1.1\r\n",
        "GET /auth/callback? HTTP/1.1\r\n",
        "GET /auth/callback?code=1&state=2 HTTP/1.1\r\n",
        "GET /auth/callback?xtoken=1 HTTP/1.1\r\n",
        "GET /auth/callback?Token=1 HTTP/1.1\r\n",
        "GET /other?token=abc HTTP/1.1\r\n",
        "/auth/callback?token=abc",
        "GET\r\n/auth/callback?token=abc HTTP/1.1\r\n",
    ] {
        assert!(parse_token_from_request(request).is_none(), "{:?}", request);
    }
}

#[test]
fn only_the_first_line_is_read() {
    let r = parse_token_from_request("GET / HTTP/1.1\r\nReferer: /auth/callback?token=abc\r\n");
    assert!(r.is_none());
}

#[test]
fn query_ends_at_the_second_question_mark() {
    let r = parse_token_from_request("GET /auth/callback?token=a?b&2fa_token=c HTTP/1.1\r\n");
    assert_eq!(success(r), "a");
}

#[test]
fn request_padded_with_zero_bytes_is_read() {
    let mut request = String::from("GET /auth/callback?token=t0k HTTP/1.1\r\nHost: x\r\n\r\n");
    while request.len() < 2048 {
        request.push('\0');
    }
    assert_eq!(success(parse_token_from_request(&request)), "t0k");
}

#[test]
fn the_callback_path_may_stand_anywhere_on_the_line() {
    let r = parse_token_from_request("GET\t/cb?token=q /auth/callback");
    assert_eq!(success(r), "q");
}

#[test]
fn cookie_token_is_read() {
    assert_eq!(
        parse_token_from_header(Some("token=abc; Path=/; HttpOnly")),
        Some("abc".to_string())
    );
    assert_eq!(
        parse_token_from_header(Some("Path=/;  token=a=b ;HttpOnly")),
        Some("a=b".to_string())
    );
    assert_eq!(parse_token_from_header(Some("token=")), Some(String::new()));
    assert_eq!(
        parse_token_from_header(Some("token; token=second")),
        Some("second".to_string())
    );
}

#[test]
fn cookie_without_token_gives_nothing() {
    assert_eq!(parse_token_from_header(None), None);
    assert_eq!(parse_token_from_header(Some("")), None);
    assert_eq!(parse_token_from_header(Some("session=abc; Path=/")), None);
    assert_eq!(parse_token_from_header(Some("Token=abc")), None);
    assert_eq!(parse_token_from_header(Some("token")), None);
    assert_eq!(parse_token_from_header(Some("xtoken=abc")), None);
}

#[test]
fn confirmation_response_has_the_length_in_bytes() {
    assert_eq!(
        render_confirmation("<p>ok</p>"),
        "HTTP/1.1 200 OK\r\nContent-Type: text/html\r\nContent-Length: 9\r\n\r\n<p>ok</p>"
    );
    assert_eq!(
        render_confirmation("é✔"),
        "HTTP/1.1 200 OK\r\nContent-Type: text/html\r\nContent-Length: 5\r\n\r\né✔"
    );
    assert_eq!(
        render_confirmation(""),
        "HTTP/1.1 200 OK\r\nContent-Type: text/html\r\nContent-Length: 0\r\n\r\n"
    );
    let long = "x".repeat(1203);
    assert!(render_confirmation(&long).contains("Content-Length: 1203\r\n\r\nxxx"));
}

fn finish(a: ListenerAction) -> (Option<String>, Option<AuthCallbackResult>) {
    match a {
        ListenerAction::Finish { reply, outcome } => (reply, outcome),
        other => panic!("expected the listener to finish, got {:?}", other),
    }
}

#[test]
fn listener_binds_the_fixed_port_first() {
    let (state, action) = open_listener();
    assert_eq!(state, ListenerState::Binding);
    assert!(matches!(action, ListenerAction::Bind { port } if port == LOCAL_PORT));
    assert_eq!(LOCAL_PORT, 54321);
}

#[test]
fn listener_reports_a_taken_port_at_once() {
    let (state, action) = listener_step(ListenerState::Binding, ListenerEvent::BindFailed);
    assert_eq!(state, ListenerState::Closed);
    let (reply, outcome) = finish(action);
    assert_eq!(reply, None);
    assert!(matches!(outcome, Some(AuthCallbackResult::Error(r)) if r == "port"));
}

#[test]
fn listener_serves_one_connection_and_delivers_once() {
    let (s1, a1) = listener_step(ListenerState::Binding, ListenerEvent::Bound);
    assert_eq!(s1, ListenerState::Listening);
    assert!(matches!(a1, ListenerAction::Accept));
    let (s2, a2) = listener_step(s1, ListenerEvent::Accepted);
    assert_eq!(s2, ListenerState::Connected);
    assert!(matches!(a2, ListenerAction::Read { limit } if limit == REQUEST_LIMIT));
    assert_eq!(REQUEST_LIMIT, 2048);
    let request = "GET /auth/callback?token=X HTTP/1.1\r\n\r\n".to_string();
    let (s3, a3) = listener_step(s2, ListenerEvent::Received(request.clone()));
    assert_eq!(s3, ListenerState::Closed);
    let (reply, outcome) = finish(a3);
    assert_eq!(reply, Some(render_confirmation(CONFIRMATION_PAGE)));
    assert!(matches!(outcome, Some(AuthCallbackResult::Success(t)) if t == "X"));
    let (s4, a4) = listener_step(s3, ListenerEvent::Received(request));
    assert_eq!(s4, ListenerState::Closed);
    let (reply, outcome) = finish(a4);
    assert_eq!(reply, None);
    assert!(outcome.is_none());
}

#[test]
fn listener_delivers_a_pending_challenge() {
    let request = "GET /auth/callback?2fa_token=Y HTTP/1.1\r\n\r\n".to_string();
    let (state, action) = listener_step(ListenerState::Connected, ListenerEvent::Received(request));
    assert_eq!(state, ListenerState::Closed);
    let (reply, outcome) = finish(action);
    assert_eq!(reply, Some(render_confirmation(CONFIRMATION_PAGE)));
    assert!(matches!(outcome, Some(AuthCallbackResult::TwoFactor(t)) if t == "Y"));
}

#[test]
fn listener_serves_the_page_without_an_outcome() {
    let request = "GET /auth/callback?nothing=here HTTP/1.1\r\n\r\n".to_string();
    let (state, action) = listener_step(ListenerState::Connected, ListenerEvent::Received(request));
    assert_eq!(state, ListenerState::Closed);
    let (reply, outcome) = finish(action);
    assert_eq!(reply, Some(render_confirmation(CONFIRMATION_PAGE)));
    assert!(outcome.is_none());
    let (state, action) = listener_step(ListenerState::Connected, ListenerEvent::ReadFailed);
    assert_eq!(state, ListenerState::Closed);
    let (reply, outcome) = finish(action);
    assert_eq!(reply, Some(render_confirmation(CONFIRMATION_PAGE)));
    assert!(outcome.is_none());
}

#[test]
fn listener_stops_when_no_connection_comes() {
    let (state, action) = listener_step(ListenerState::Listening, ListenerEvent::AcceptFailed);
    assert_eq!(state, ListenerState::Closed);
    let (reply, outcome) = finish(action);
    assert_eq!(reply, None);
    assert!(outcome.is_none());
}

#[test]
fn two_listeners_in_a_row_each_start_afresh() {
    for _ in 0..2 {
        let (state, _) = open_listener();
        let (state, _) = listener_step(state, ListenerEvent::Bound);
        let (state, _) = listener_step(state, ListenerEvent::Accepted);
        let (state, _) = listener_step(state, ListenerEvent::ReadFailed);
        assert_eq!(state, ListenerState::Closed);
    }
}
