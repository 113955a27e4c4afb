//! The ways to log in, and the menu that offers them.

use crate::flow::{push_line, texts};
use crate::text::{chars_of, same_chars};
use vstd::prelude::*;
use vstd::string::StringExecFns;

verus! {

/// How the user logs in; chosen once for an attempt.
#[derive(Clone, Debug)]
pub enum LoginMethod {
    /// Through the named identity provider, in the browser.
    OAuthProvider(String),
    /// With email and password.
    PasswordEmail,
    /// By registering a new account with email and password.
    EmailRegistration,
}

/// A `LoginMethod` as contracts see it.
pub enum LoginMethodView {
    OAuthProvider(Seq<char>),
    PasswordEmail,
    EmailRegistration,
}

impl View for LoginMethod {
    type V = LoginMethodView;

    open spec fn view(&self) -> LoginMethodView {
        match self {
            LoginMethod::OAuthProvider(name) => LoginMethodView::OAuthProvider(name@),
            LoginMethod::PasswordEmail => LoginMethodView::PasswordEmail,
            LoginMethod::EmailRegistration => LoginMethodView::EmailRegistration,
        }
    }
}

/// The entries of the menu, in the order shown.
pub open spec fn login_choices() -> Seq<Seq<char>> {
    seq!["GitHub"@, "Google"@, "Discord"@, "Email/Password"@, "Register new account"@]
}

/// The method that a menu entry stands for: a provider's entry gives the
/// provider's name in lower case. Text that is no entry stands for none.
pub open spec fn method_of(choice: Seq<char>) -> Option<LoginMethodView> {
    if choice == "GitHub"@ {
        Some(LoginMethodView::OAuthProvider("github"@))
    } else if choice == "Google"@ {
        Some(LoginMethodView::OAuthProvider("google"@))
    } else if choice == "Discord"@ {
        Some(LoginMethodView::OAuthProvider("discord"@))
    } else if choice == "Email/Password"@ {
        Some(LoginMethodView::PasswordEmail)
    } else if choice == "Register new account"@ {
        Some(LoginMethodView::EmailRegistration)
    } else {
        None
    }
}

/// The view of a method that may be absent.
pub open spec fn method_view(m: Option<LoginMethod>) -> Option<LoginMethodView> {
    match m {
        Some(m) => Some(m@),
        None => None,
    }
}

/// The entries of the login menu.
pub fn login_options() -> (v: Vec<String>)
    ensures
        texts(v@) == login_choices(),
{
    let mut v: Vec<String> = Vec::new();
    push_line(&mut v, String::from_str("GitHub"));
    push_line(&mut v, String::from_str("Google"));
    push_line(&mut v, String::from_str("Discord"));
    push_line(&mut v, String::from_str("Email/Password"));
    push_line(&mut v, String::from_str("Register new account"));
    assert(texts(v@) =~= login_choices());
    v
}

/// Tells whether `choice` is the text `entry`.
fn is_entry(choice: &Vec<char>, entry: &str) -> (b: bool)
    ensures
        b == (choice@ == entry@),
{
    same_chars(choice, &chars_of(entry))
}

/// The method that the chosen menu entry stands for.
pub fn login_method(choice: &str) -> (m: Option<LoginMethod>)
    ensures
        method_view(m) == method_of(choice@),
{
    let c = chars_of(choice);
    if is_entry(&c, "GitHub") {
        Some(LoginMethod::OAuthProvider(String::from_str("github")))
    } else if is_entry(&c, "Google") {
        Some(LoginMethod::OAuthProvider(String::from_str("google")))
    } else if is_entry(&c, "Discord") {
        Some(LoginMethod::OAuthProvider(String::from_str("discord")))
    } else if is_entry(&c, "Email/Password") {
        Some(LoginMethod::PasswordEmail)
    } else if is_entry(&c, "Register new account") {
        Some(LoginMethod::EmailRegistration)
    } else {
        None
    }
}

/// Every entry of the menu stands for a method.
pub proof fn lemma_every_choice_has_a_method(i: int)
    requires
        0 <= i < login_choices().len(),
    ensures
        method_of(login_choices()[i]) is Some,
{
}

} // verus!
