use wayclip_cli::coordinator::{
    attempt_step, authorization_url_for, AttemptAction, AttemptEvent, AttemptState, Resolution,
    CALLBACK_DEADLINE,
};
use wayclip_cli::error::AuthError;
use wayclip_cli::flow::Action;
use wayclip_cli::model::AuthCallbackResult;

fn begin() -> (AttemptState, String) {
    let (state, step) = attempt_step(
        AttemptState::Idle,
        AttemptEvent::Begin {
            api_url: "https://api.example.com".to_string(),
            provider: "github".to_string(),
        },
    );
    assert_eq!(step.say, vec!["○ Opening your browser to complete login...".to_string()]);
    match step.action {
        AttemptAction::Launch { port, url } => {
            assert_eq!(port, 54321);
            (state, url)
        }
        other => panic!("expected a launch, got {:?}", other),
    }
}

fn awaiting() -> AttemptState {
    let (state, _) = begin();
    let (state, _) = attempt_step(state, AttemptEvent::BrowserOpened);
    state
}

fn verdict(action: AttemptAction) -> Action {
    match action {
        AttemptAction::Conclude { cancel_listener, verdict } => {
            assert!(cancel_listener);
            verdict
        }
        other => panic!("expected a conclusion, got {:?}", other),
    }
}

#[test]
fn authorization_url_carries_the_encoded_callback() {
    assert_eq!(
        authorization_url_for("https://api.example.com", "google"),
        "https://api.example.com/auth/google?client=cli&redirect_uri=http%3A%2F%2F127.0.0.1%3A54321%2Fauth%2Fcallback"
    );
}

#[test]
fn attempt_launches_listener_and_browser() {
    let (state, url) = begin();
    assert_eq!(url, authorization_url_for("https://api.example.com", "github"));
    assert!(matches!(state, AttemptState::ListenerStarted { url: u } if u == url));
}

#[test]
fn attempt_waits_the_full_deadline() {
    let (state, _) = begin();
    let (state, step) = attempt_step(state, AttemptEvent::BrowserOpened);
    assert!(matches!(state, AttemptState::AwaitingCallback));
    assert_eq!(step.say, vec!["◌ Waiting for authentication...".to_string()]);
    assert!(matches!(step.action, AttemptAction::Await { seconds: 120 }));
    assert_eq!(CALLBACK_DEADLINE, 120);
}

#[test]
fn browser_failure_prints_the_url_and_goes_on() {
    let (state, url) = begin();
    let (state, step) = attempt_step(state, AttemptEvent::BrowserFailed);
    assert!(matches!(state, AttemptState::AwaitingCallback));
    assert_eq!(
        step.say,
        vec![
            "Could not open browser automatically.".to_string(),
            format!("Please visit this URL to log in:\n{}", url),
            "◌ Waiting for authentication...".to_string(),
        ]
    );
    assert!(matches!(step.action, AttemptAction::Await { seconds: 120 }));
}

#[test]
fn attempt_times_out_only_on_the_deadline() {
    let (state, step) = attempt_step(awaiting(), AttemptEvent::BrowserOpened);
    assert!(matches!(state, AttemptState::AwaitingCallback));
    assert!(matches!(step.action, AttemptAction::Nothing));
    let (state, step) = attempt_step(state, AttemptEvent::DeadlineElapsed);
    assert!(matches!(state, AttemptState::TimedOut));
    match verdict(step.action) {
        Action::Fail(e) => {
            assert!(matches!(e, AuthError::Timeout));
            assert_eq!(e.message(), "Login timed out. Please try again.");
        }
        other => panic!("expected a failure, got {:?}", other),
    }
}

#[test]
fn port_conflict_fails_without_waiting() {
    let (state, step) = attempt_step(
        awaiting(),
        AttemptEvent::Delivered(AuthCallbackResult::Error("port".to_string())),
    );
    assert!(matches!(state, AttemptState::Resolved(Resolution::Error)));
    match verdict(step.action) {
        Action::Fail(e) => {
            assert!(matches!(e, AuthError::PortBind));
            assert_eq!(
                e.message(),
                "Could not start local server on port 54321. Is another process using it?"
            );
        }
        other => panic!("expected a failure, got {:?}", other),
    }
}

#[test]
fn other_listener_errors_are_shown_as_they_are() {
    let (state, step) = attempt_step(
        awaiting(),
        AttemptEvent::Delivered(AuthCallbackResult::Error("denied by provider".to_string())),
    );
    assert!(matches!(state, AttemptState::Resolved(Resolution::Error)));
    match verdict(step.action) {
        Action::Fail(e) => {
            assert!(matches!(e, AuthError::Server(_)));
            assert_eq!(e.message(), "Login failed: denied by provider");
        }
        other => panic!("expected a failure, got {:?}", other),
    }
}

#[test]
fn session_token_is_committed() {
    let (state, step) = attempt_step(
        awaiting(),
        AttemptEvent::Delivered(AuthCallbackResult::Success("sess".to_string())),
    );
    assert!(matches!(state, AttemptState::Resolved(Resolution::Success)));
    match verdict(step.action) {
        Action::Commit { token, notice } => {
            assert_eq!(token, "sess");
            assert_eq!(notice, "✔ Login successful!");
        }
        other => panic!("expected a commit, got {:?}", other),
    }
}

#[test]
fn pending_challenge_pivots_to_the_second_factor() {
    let (state, step) = attempt_step(
        awaiting(),
        AttemptEvent::Delivered(AuthCallbackResult::TwoFactor("tfa".to_string())),
    );
    assert!(matches!(state, AttemptState::Resolved(Resolution::TwoFactor)));
    assert!(matches!(verdict(step.action), Action::Challenge { token } if token == "tfa"));
}

#[test]
fn finished_attempt_ignores_what_comes_later() {
    let (state, _) = attempt_step(awaiting(), AttemptEvent::DeadlineElapsed);
    let (state, step) = attempt_step(
        state,
        AttemptEvent::Delivered(AuthCallbackResult::Success("late".to_string())),
    );
    assert!(matches!(state, AttemptState::TimedOut));
    assert!(matches!(step.action, AttemptAction::Nothing));
    assert!(step.say.is_empty());
}

#[test]
fn two_attempts_in_a_row_are_independent() {
    for token in ["one", "two"] {
        let (state, step) = attempt_step(
            awaiting(),
            AttemptEvent::Delivered(AuthCallbackResult::Success(token.to_string())),
        );
        assert!(matches!(state, AttemptState::Resolved(Resolution::Success)));
        assert!(matches!(verdict(step.action), Action::Commit { token: t, .. } if t == token));
    }
}
