use wayclip_cli::enroll::{begin_enrollment, decide_enrollment, enroll_step, EnrollState};
use wayclip_cli::error::AuthError;
use wayclip_cli::flow::{Action, Event, Field, Step};
use wayclip_cli::json::Member;
use wayclip_cli::login::{login_method, login_options, LoginMethod};
use wayclip_cli::password::{
    begin_password_login, decide_login, password_step, PasswordState,
};
use wayclip_cli::register::{begin_registration, register_step, RegisterState};
use wayclip_cli::two_factor::{
    begin_challenge, challenge_step, decide_challenge, request_challenge, ChallengeState,
};

const API: &str = "https://api.example.com";

fn pairs(fields: &[Field]) -> Vec<(String, String)> {
    fields.iter().map(|f| (f.name.clone(), f.value.clone())).collect()
}

fn pair(a: &str, b: &str) -> (String, String) {
    (a.to_string(), b.to_string())
}

fn response(status: u16, body: &str, set_cookie: Option<&str>) -> Event {
    Event::Response {
        status,
        body: body.to_string(),
        set_cookie: set_cookie.map(|s| s.to_string()),
    }
}

fn failure(step: &Step) -> &AuthError {
    match &step.action {
        Action::Fail(e) => e,
        other => panic!("expected a failure, got {:?}", other),
    }
}

fn awaiting_answer() -> PasswordState {
    let (state, _) = begin_password_login();
    let (state, _) = password_step(state, Event::Entered("a@b.com".to_string()), API);
    let (state, _) = password_step(state, Event::Entered("x".to_string()), API);
    state
}

#[test]
fn login_menu_offers_five_ways() {
    assert_eq!(
        login_options(),
        vec!["GitHub", "Google", "Discord", "Email/Password", "Register new account"]
    );
    assert!(matches!(login_method("GitHub"), Some(LoginMethod::OAuthProvider(p)) if p == "github"));
    assert!(matches!(login_method("Google"), Some(LoginMethod::OAuthProvider(p)) if p == "google"));
    assert!(
        matches!(login_method("Discord"), Some(LoginMethod::OAuthProvider(p)) if p == "discord")
    );
    assert!(matches!(login_method("Email/Password"), Some(LoginMethod::PasswordEmail)));
    assert!(matches!(login_method("Register new account"), Some(LoginMethod::EmailRegistration)));
    assert!(login_method("github").is_none());
    assert!(login_method("").is_none());
}

#[test]
fn password_login_asks_for_email_then_password() {
    let (state, step) = begin_password_login();
    assert!(matches!(state, PasswordState::AwaitEmail));
    assert!(step.say.is_empty());
    assert!(
        matches!(&step.action, Action::Ask { prompt, masked: false } if prompt == "› Enter your email:")
    );
    let (state, step) = password_step(state, Event::Entered("  a@b.com \n".to_string()), API);
    assert!(matches!(&state, PasswordState::AwaitPassword { email } if email == "a@b.com"));
    assert!(
        matches!(&step.action, Action::Ask { prompt, masked: true } if prompt == "› Enter your password:")
    );
    let (state, step) = password_step(state, Event::Entered(" x ".to_string()), API);
    assert!(matches!(&state, PasswordState::AwaitAnswer { email } if email == "a@b.com"));
    match &step.action {
        Action::Post { url, fields, with_session } => {
            assert_eq!(url, "https://api.example.com/auth/login");
            assert_eq!(pairs(fields), vec![pair("email", "a@b.com"), pair("password", " x ")]);
            assert!(!with_session);
        }
        other => panic!("expected a request, got {:?}", other),
    }
}

#[test]
fn empty_email_is_refused_before_any_request() {
    let (state, _) = begin_password_login();
    let (state, step) = password_step(state, Event::Entered("   ".to_string()), API);
    assert!(matches!(state, PasswordState::Done));
    let e = failure(&step);
    assert!(matches!(e, AuthError::Validation(_)));
    assert_eq!(e.message(), "Email cannot be empty.");
}

#[test]
fn empty_password_is_refused_before_any_request() {
    let (state, _) = begin_password_login();
    let (state, _) = password_step(state, Event::Entered("a@b.com".to_string()), API);
    let (state, step) = password_step(state, Event::Entered(String::new()), API);
    assert!(matches!(state, PasswordState::Done));
    let e = failure(&step);
    assert!(matches!(e, AuthError::Validation(_)));
    assert_eq!(e.message(), "Password cannot be empty.");
}

#[test]
fn required_second_factor_pivots_and_never_commits() {
    let body = "{\"2fa_required\":true,\"2fa_token\":\"abc\"}";
    let (state, step) =
        password_step(awaiting_answer(), response(200, body, Some("token=leak")), API);
    assert!(matches!(state, PasswordState::Done));
    assert!(matches!(&step.action, Action::Challenge { token } if token == "abc"));

    let (state, step) = begin_challenge("abc".to_string());
    assert!(matches!(&state, ChallengeState::AwaitCode { token } if token == "abc"));
    assert_eq!(step.say, vec!["○ Two-Factor Authentication Required".to_string()]);
    let (state, step) = challenge_step(state, Event::Entered("123456".to_string()), API);
    assert!(matches!(state, ChallengeState::AwaitVerdict));
    match &step.action {
        Action::Post { fields, .. } => {
            assert_eq!(pairs(fields), vec![pair("2fa_token", "abc"), pair("code", "123456")]);
        }
        other => panic!("expected a request, got {:?}", other),
    }
    let (state, step) = challenge_step(state, response(200, "", Some("token=final; Path=/")), API);
    assert!(matches!(state, ChallengeState::Done));
    match &step.action {
        Action::Commit { token, notice } => {
            assert_eq!(token, "final");
            assert_eq!(notice, "✔ 2FA authentication successful!");
        }
        other => panic!("expected a commit, got {:?}", other),
    }
}

#[test]
fn required_second_factor_without_token_fails() {
    let (_, step) = password_step(
        awaiting_answer(),
        response(200, "{\"2fa_required\":true}", Some("token=t")),
        API,
    );
    assert_eq!(
        failure(&step).message(),
        "2FA is required but no token was provided by the server."
    );
    let (_, step) = password_step(
        awaiting_answer(),
        response(200, "{\"2fa_required\":true,\"2fa_token\":17}", None),
        API,
    );
    assert_eq!(
        failure(&step).message(),
        "2FA is required but no token was provided by the server."
    );
}

#[test]
fn login_without_second_factor_commits_the_cookie_token() {
    for body in ["{}", "{\"2fa_required\":false}", "{\"2fa_required\":\"true\"}", "[1,2]", "null"] {
        let (state, step) = password_step(
            awaiting_answer(),
            response(201, body, Some("token=sess; HttpOnly")),
            API,
        );
        assert!(matches!(state, PasswordState::Done));
        match &step.action {
            Action::Commit { token, notice } => {
                assert_eq!(token, "sess");
                assert_eq!(notice, "✔ Login successful!");
            }
            other => panic!("expected a commit for {}, got {:?}", body, other),
        }
    }
}

#[test]
fn login_without_cookie_token_fails() {
    let (_, step) = password_step(awaiting_answer(), response(200, "{}", None), API);
    let e = failure(&step);
    assert!(matches!(e, AuthError::Server(_)));
    assert_eq!(e.message(), "Login token not found in server response.");
}

#[test]
fn login_with_unreadable_body_fails_with_the_parser_words() {
    let body = "<html>oops</html>";
    let (state, step) = password_step(awaiting_answer(), response(200, body, Some("token=t")), API);
    assert!(matches!(state, PasswordState::Done));
    let e = failure(&step);
    assert!(matches!(e, AuthError::Server(_)));
    let expected = serde_json::from_str::<serde_json::Value>(body).unwrap_err().to_string();
    assert_eq!(e.message(), expected);
}

#[test]
fn rejected_login_shows_the_server_message() {
    let (state, step) = password_step(
        awaiting_answer(),
        response(401, "{\"message\":\"Wrong password.\",\"error_code\":\"BAD\"}", None),
        API,
    );
    assert!(matches!(state, PasswordState::Done));
    assert_eq!(failure(&step).message(), "Login failed: Wrong password.");
    for body in ["", "not json", "{\"message\":5}", "{\"msg\":\"x\"}"] {
        let (_, step) = password_step(awaiting_answer(), response(500, body, None), API);
        assert_eq!(failure(&step).message(), "Login failed: Invalid credentials.");
    }
}

#[test]
fn unverified_email_offers_a_new_mail_and_fails_either_way() {
    let body = "{\"message\":\"Verify first\",\"error_code\":\"EMAIL_NOT_VERIFIED\"}";
    let (state, step) = password_step(awaiting_answer(), response(403, body, None), API);
    assert!(matches!(&state, PasswordState::OfferResend { email } if email == "a@b.com"));
    match &step.action {
        Action::Confirm { question, default } => {
            assert_eq!(
                question,
                "Your email is not verified. Would you like to resend the verification email?"
            );
            assert!(default);
        }
        other => panic!("expected a question, got {:?}", other),
    }
    let (declined, step) = password_step(state.clone(), Event::Answered(false), API);
    assert!(matches!(declined, PasswordState::Done));
    let e = failure(&step);
    assert!(matches!(e, AuthError::Unauthorized(_)));
    assert_eq!(e.message(), "Please verify your email before logging in.");

    let (state, step) = password_step(state, Event::Answered(true), API);
    assert!(matches!(state, PasswordState::AwaitResend));
    match &step.action {
        Action::Post { url, fields, with_session } => {
            assert_eq!(url, "https://api.example.com/auth/resend-verification");
            assert_eq!(pairs(fields), vec![pair("email", "a@b.com")]);
            assert!(!with_session);
        }
        other => panic!("expected a request, got {:?}", other),
    }
    let (sent, step) = password_step(state.clone(), response(200, "", None), API);
    assert!(matches!(sent, PasswordState::Done));
    assert_eq!(step.say, vec!["✔ Verification email sent (if account exists).".to_string()]);
    assert_eq!(failure(&step).message(), "Please verify your email before logging in.");
    let (_, step) = password_step(state, response(500, "", None), API);
    assert_eq!(step.say, vec!["✗ Could not send verification email.".to_string()]);
    assert!(matches!(failure(&step), AuthError::Unauthorized(_)));
}

#[test]
fn failed_prompt_or_request_aborts_the_login() {
    let (state, step) =
        password_step(awaiting_answer(), Event::Failed("connection refused".to_string()), API);
    assert!(matches!(state, PasswordState::Done));
    let e = failure(&step);
    assert!(matches!(e, AuthError::Aborted(_)));
    assert_eq!(e.message(), "connection refused");
    let (state, step) = password_step(state, Event::Entered("again".to_string()), API);
    assert!(matches!(state, PasswordState::Done));
    assert!(matches!(failure(&step), AuthError::Aborted(_)));
}

#[test]
fn decide_login_reads_its_arguments_only() {
    let a = decide_login(
        200,
        Ok(Member::Flag(true)),
        Member::Text("abc".to_string()),
        &Member::Absent,
        &Member::Absent,
        Some("sess".to_string()),
    );
    assert!(matches!(a, Action::Challenge { token } if token == "abc"));
    let a = decide_login(
        299,
        Ok(Member::Flag(false)),
        Member::Text("abc".to_string()),
        &Member::Absent,
        &Member::Absent,
        Some("sess".to_string()),
    );
    assert!(matches!(a, Action::Commit { token, .. } if token == "sess"));
    let a = decide_login(
        300,
        Ok(Member::Flag(true)),
        Member::Text("abc".to_string()),
        &Member::Text("moved".to_string()),
        &Member::Other,
        Some("sess".to_string()),
    );
    assert!(matches!(&a, Action::Fail(e) if e.message() == "Login failed: moved"));
    let a = decide_login(
        199,
        Err("bad".to_string()),
        Member::Absent,
        &Member::Absent,
        &Member::Text("EMAIL_NOT_VERIFIED".to_string()),
        None,
    );
    assert!(matches!(a, Action::Confirm { .. }));
    let a = decide_login(200, Err("bad".to_string()), Member::Absent, &Member::Absent, &Member::Absent, None);
    assert!(matches!(&a, Action::Fail(AuthError::Server(m)) if m == "bad"));
}

#[test]
fn empty_code_is_refused_before_any_request() {
    for input in ["", "  ", "\t\n"] {
        let (state, _) = begin_challenge("abc".to_string());
        let (next, step) = challenge_step(state, Event::Entered(input.to_string()), API);
        assert!(matches!(next, ChallengeState::Done));
        let e = failure(&step);
        assert!(matches!(e, AuthError::Validation(_)));
        assert_eq!(e.message(), "2FA code cannot be empty.");
    }
}

#[test]
fn code_goes_out_trimmed_with_the_token() {
    match request_challenge(API, "tfa-token", " 123 456 \n") {
        Action::Post { url, fields, with_session } => {
            assert_eq!(url, "https://api.example.com/auth/2fa/authenticate");
            assert_eq!(pairs(&fields), vec![pair("2fa_token", "tfa-token"), pair("code", "123 456")]);
            assert!(!with_session);
        }
        other => panic!("expected a request, got {:?}", other),
    }
}

#[test]
fn failed_challenge_shows_the_server_message_and_ends() {
    let (state, step) = challenge_step(
        ChallengeState::AwaitVerdict,
        response(401, "{\"message\":\"Challenge expired\"}", Some("token=no")),
        API,
    );
    assert!(matches!(state, ChallengeState::Done));
    let e = failure(&step);
    assert!(matches!(e, AuthError::Server(_)));
    assert_eq!(e.message(), "2FA authentication failed: Challenge expired");
    let (_, step) =
        challenge_step(ChallengeState::AwaitVerdict, response(400, "garbage", None), API);
    assert_eq!(failure(&step).message(), "2FA authentication failed: Invalid 2FA code.");
    let (state, step) = challenge_step(state, Event::Entered("123456".to_string()), API);
    assert!(matches!(state, ChallengeState::Done));
    assert!(matches!(failure(&step), AuthError::Aborted(_)));
}

#[test]
fn successful_challenge_without_cookie_fails() {
    let a = decide_challenge(200, None, &Member::Text("ignored".to_string()));
    assert!(matches!(&a, Action::Fail(e) if e.message() == "2FA token not found in response."));
}

#[test]
fn enrollment_shows_the_secret_and_asks_for_a_code() {
    let (state, step) = begin_enrollment(API);
    assert!(matches!(state, EnrollState::AwaitSecret));
    assert_eq!(step.say, vec!["◌ Contacting the server to set up 2FA...".to_string()]);
    match &step.action {
        Action::Post { url, fields, with_session } => {
            assert_eq!(url, "https://api.example.com/auth/2fa/setup");
            assert!(fields.is_empty());
            assert!(with_session);
        }
        other => panic!("expected a request, got {:?}", other),
    }
    let (state, step) =
        enroll_step(state, response(200, "{\"secret\":\"JBSWY3DP\",\"qr\":\"...\"}", None), API);
    assert!(matches!(&state, EnrollState::AwaitCode { secret } if secret == "JBSWY3DP"));
    assert_eq!(
        step.say,
        vec![
            "\n○ Two-Factor Authentication Setup".to_string(),
            "1. Open an authenticator app (like Google Authenticator, Authy, or 1Password)."
                .to_string(),
            "2. Choose to add a new account via manual entry or secret key.".to_string(),
            "3. Enter the following secret key when prompted:".to_string(),
            "\n   JBSWY3DP".to_string(),
            "\n4. After adding the account, your app will generate a 6-digit code.".to_string(),
        ]
    );
    assert!(matches!(&step.action, Action::Ask { prompt, masked: false }
        if prompt == "› Enter the code from your app to verify and complete the setup:"));
    let (state, step) = enroll_step(state, Event::Entered(" 654321 ".to_string()), API);
    assert!(matches!(state, EnrollState::AwaitVerdict));
    assert_eq!(step.say, vec!["◌ Verifying code with the server...".to_string()]);
    match &step.action {
        Action::Post { url, fields, with_session } => {
            assert_eq!(url, "https://api.example.com/auth/2fa/verify");
            assert_eq!(pairs(fields), vec![pair("secret", "JBSWY3DP"), pair("code", "654321")]);
            assert!(with_session);
        }
        other => panic!("expected a request, got {:?}", other),
    }
    let body = "{\"recovery_codes\":[\"aaa\",7,\"ccc\"]}";
    let (state, step) = enroll_step(state, response(200, body, None), API);
    assert!(matches!(state, EnrollState::Done));
    assert!(matches!(step.action, Action::Succeed));
    assert_eq!(
        step.say,
        vec![
            "✔ 2FA enabled successfully!".to_string(),
            "\nIMPORTANT: Save these recovery codes in a safe place:".to_string(),
            "These can be used to access your account if you lose your 2FA device.".to_string(),
            "  1. aaa".to_string(),
            "  3. ccc".to_string(),
        ]
    );
}

#[test]
fn recovery_codes_are_numbered_in_decimal() {
    let items: Vec<Option<String>> = (0..12).map(|i| Some(format!("c{}", i))).collect();
    let step = decide_enrollment(200, Ok(Member::List(items)), &Member::Absent);
    assert_eq!(step.say.len(), 15);
    assert_eq!(step.say[3], "  1. c0");
    assert_eq!(step.say[12], "  10. c9");
    assert_eq!(step.say[14], "  12. c11");
}

#[test]
fn enrollment_without_codes_still_succeeds() {
    let step = decide_enrollment(200, Ok(Member::Absent), &Member::Absent);
    assert!(matches!(step.action, Action::Succeed));
    assert_eq!(step.say, vec!["✔ 2FA enabled successfully!".to_string()]);
    let step = decide_enrollment(200, Err("EOF while parsing".to_string()), &Member::Absent);
    assert_eq!(failure(&step).message(), "EOF while parsing");
    assert!(step.say.is_empty());
}

#[test]
fn failed_verification_shows_no_recovery_codes() {
    let body = "{\"message\":\"Invalid code\",\"recovery_codes\":[\"aaa\",\"bbb\"]}";
    let (state, step) = enroll_step(EnrollState::AwaitVerdict, response(400, body, None), API);
    assert!(matches!(state, EnrollState::Done));
    assert!(step.say.is_empty());
    let e = failure(&step);
    assert!(matches!(e, AuthError::Server(_)));
    assert_eq!(e.message(), "2FA setup failed: Invalid code");
    let (_, step) = enroll_step(EnrollState::AwaitVerdict, response(500, "", None), API);
    assert!(step.say.is_empty());
    assert_eq!(failure(&step).message(), "2FA setup failed: Verification failed.");
}

#[test]
fn enrollment_fails_without_a_secret() {
    let (state, step) = enroll_step(EnrollState::AwaitSecret, response(401, "no session", None), API);
    assert!(matches!(state, EnrollState::Done));
    assert_eq!(
        failure(&step).message(),
        "Failed to initialize 2FA setup. Are you logged in? Server response: no session"
    );
    let (_, step) = enroll_step(EnrollState::AwaitSecret, response(200, "{\"secret\":1}", None), API);
    assert_eq!(
        failure(&step).message(),
        "No secret key received from the server. The API response may have changed."
    );
    let (_, step) = enroll_step(EnrollState::AwaitSecret, response(200, "{", None), API);
    let expected = serde_json::from_str::<serde_json::Value>("{").unwrap_err().to_string();
    assert_eq!(failure(&step).message(), expected);
}

#[test]
fn empty_enrollment_code_cancels_the_setup() {
    let state = EnrollState::AwaitCode { secret: "S".to_string() };
    let (state, step) = enroll_step(state, Event::Entered("  ".to_string()), API);
    assert!(matches!(state, EnrollState::Done));
    let e = failure(&step);
    assert!(matches!(e, AuthError::Validation(_)));
    assert_eq!(e.message(), "Verification code cannot be empty. Setup cancelled.");
}

#[test]
fn registration_collects_three_answers() {
    let (state, step) = begin_registration();
    assert_eq!(step.say, vec!["○ Create a new account".to_string()]);
    assert!(
        matches!(&step.action, Action::Ask { prompt, masked: false } if prompt == "› Enter your username:")
    );
    let (state, step) = register_step(state, Event::Entered(" kim ".to_string()), API);
    assert!(
        matches!(&step.action, Action::Ask { prompt, masked: false } if prompt == "› Enter your email:")
    );
    let (state, step) = register_step(state, Event::Entered("k@x.org".to_string()), API);
    assert!(
        matches!(&step.action, Action::Ask { prompt, masked: true } if prompt == "› Enter your password:")
    );
    let (state, step) = register_step(state, Event::Entered("pw".to_string()), API);
    assert!(matches!(state, RegisterState::AwaitAnswer));
    match &step.action {
        Action::Post { url, fields, with_session } => {
            assert_eq!(url, "https://api.example.com/auth/register");
            assert_eq!(
                pairs(fields),
                vec![pair("username", "kim"), pair("email", "k@x.org"), pair("password", "pw")]
            );
            assert!(!with_session);
        }
        other => panic!("expected a request, got {:?}", other),
    }
    let (done, step) = register_step(state.clone(), response(201, "{}", None), API);
    assert!(matches!(done, RegisterState::Done));
    assert!(matches!(step.action, Action::Succeed));
    assert_eq!(
        step.say,
        vec![
            "✔ Registration successful!".to_string(),
            "◌ Please check your email to verify your account before logging in.".to_string(),
        ]
    );
    let (_, step) =
        register_step(state.clone(), response(409, "{\"message\":\"Name taken\"}", None), API);
    assert_eq!(failure(&step).message(), "Registration failed: Name taken");
    let (_, step) = register_step(state, response(500, "", None), API);
    assert_eq!(failure(&step).message(), "Registration failed: Registration failed.");
}

#[test]
fn registration_refuses_empty_name_and_email() {
    let (state, _) = begin_registration();
    let (_, step) = register_step(state.clone(), Event::Entered(" ".to_string()), API);
    assert_eq!(failure(&step).message(), "Username cannot be empty.");
    let (state, _) = register_step(state, Event::Entered("kim".to_string()), API);
    let (state, step) = register_step(state, Event::Entered("".to_string()), API);
    assert!(matches!(state, RegisterState::Done));
    assert_eq!(failure(&step).message(), "Email cannot be empty.");
}
