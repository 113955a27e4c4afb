//! The vocabulary of the dialogues with the user and the service: what the
//! surrounding program reports, and what it is asked to do next.

use crate::error::{AuthError, Failure};
use crate::model::text_view;
use vstd::prelude::*;
use vstd::string::StringExecFns;

verus! {

/// The texts of `v`, in order, as contracts see them.
pub open spec fn texts(v: Seq<String>) -> Seq<Seq<char>> {
    Seq::new(v.len(), |i: int| v[i]@)
}

/// One string member of the JSON object that a request carries.
#[derive(Clone, Debug)]
pub struct Field {
    pub name: String,
    pub value: String,
}

/// The members of a request body as contracts see them: name and value.
pub open spec fn fields_view(v: Seq<Field>) -> Seq<(Seq<char>, Seq<char>)> {
    Seq::new(v.len(), |i: int| (v[i].name@, v[i].value@))
}

/// What the surrounding program reports back.
#[derive(Clone, Debug)]
pub enum Event {
    /// The user answered a prompt.
    Entered(String),
    /// The user answered a yes-or-no question.
    Answered(bool),
    /// The service answered a request; `set_cookie` is the value of that
    /// header where the answer has one.
    Response { status: u16, body: String, set_cookie: Option<String> },
    /// The prompt or the request failed; the text is the cause.
    Failed(String),
}

/// An `Event` as contracts see it.
pub enum EventView {
    Entered(Seq<char>),
    Answered(bool),
    Response { status: u16, body: Seq<char>, set_cookie: Option<Seq<char>> },
    Failed(Seq<char>),
}

impl View for Event {
    type V = EventView;

    open spec fn view(&self) -> EventView {
        match self {
            Event::Entered(s) => EventView::Entered(s@),
            Event::Answered(b) => EventView::Answered(*b),
            Event::Response { status, body, set_cookie } => EventView::Response {
                status: *status,
                body: body@,
                set_cookie: text_view(*set_cookie),
            },
            Event::Failed(s) => EventView::Failed(s@),
        }
    }
}

/// What the surrounding program is asked to do next.
#[derive(Clone, Debug)]
pub enum Action {
    /// Ask the user for a line of text; `masked` hides what is typed.
    Ask { prompt: String, masked: bool },
    /// Ask the user a yes-or-no question.
    Confirm { question: String, default: bool },
    /// Send a POST request with a JSON object of these members; with no
    /// members, without a body. `with_session` sends the stored session
    /// along.
    Post { url: String, fields: Vec<Field>, with_session: bool },
    /// Store the session token; once it is stored, show the notice. The
    /// dialogue is over.
    Commit { token: String, notice: String },
    /// Go on with the second-factor challenge that this token stands for.
    /// This dialogue is over.
    Challenge { token: String },
    /// The dialogue is over and went well.
    Succeed,
    /// The dialogue is over and failed.
    Fail(AuthError),
}

/// An `Action` as contracts see it.
pub enum ActionView {
    Ask { prompt: Seq<char>, masked: bool },
    Confirm { question: Seq<char>, default: bool },
    Post { url: Seq<char>, fields: Seq<(Seq<char>, Seq<char>)>, with_session: bool },
    Commit { token: Seq<char>, notice: Seq<char> },
    Challenge { token: Seq<char> },
    Succeed,
    Fail(Failure),
}

impl View for Action {
    type V = ActionView;

    open spec fn view(&self) -> ActionView {
        match self {
            Action::Ask { prompt, masked } => ActionView::Ask { prompt: prompt@, masked: *masked },
            Action::Confirm { question, default } => ActionView::Confirm {
                question: question@,
                default: *default,
            },
            Action::Post { url, fields, with_session } => ActionView::Post {
                url: url@,
                fields: fields_view(fields@),
                with_session: *with_session,
            },
            Action::Commit { token, notice } => ActionView::Commit {
                token: token@,
                notice: notice@,
            },
            Action::Challenge { token } => ActionView::Challenge { token: token@ },
            Action::Succeed => ActionView::Succeed,
            Action::Fail(e) => ActionView::Fail(e@),
        }
    }
}

impl ActionView {
    /// The action ends the dialogue.
    pub open spec fn is_final(self) -> bool {
        self is Commit || self is Challenge || self is Succeed || self is Fail
    }
}

/// One move of a dialogue: lines to show, then an action.
#[derive(Clone, Debug)]
pub struct Step {
    pub say: Vec<String>,
    pub action: Action,
}

/// A `Step` as contracts see it.
pub struct StepView {
    pub say: Seq<Seq<char>>,
    pub action: ActionView,
}

impl View for Step {
    type V = StepView;

    open spec fn view(&self) -> StepView {
        StepView { say: texts(self.say@), action: self.action@ }
    }
}

/// A step that shows nothing.
pub open spec fn quiet(action: ActionView) -> StepView {
    StepView { say: Seq::empty(), action }
}

/// A step that shows nothing.
pub fn silent(action: Action) -> (s: Step)
    ensures
        s@ == quiet(action@),
{
    let s = Step { say: Vec::new(), action };
    assert(s@.say =~= Seq::<Seq<char>>::empty());
    s
}

/// A step that shows `lines` first.
pub fn saying(lines: Vec<String>, action: Action) -> (s: Step)
    ensures
        s@ == (StepView { say: texts(lines@), action: action@ }),
{
    Step { say: lines, action }
}

/// Adds a line to `lines`.
pub fn push_line(lines: &mut Vec<String>, line: String)
    ensures
        texts(final(lines)@) == texts(old(lines)@).push(line@),
{
    lines.push(line);
    assert(texts(lines@) =~= texts(old(lines)@).push(line@));
}

/// Adds a member to `fields`.
pub fn push_field(fields: &mut Vec<Field>, name: &str, value: &str)
    ensures
        fields_view(final(fields)@) == fields_view(old(fields)@).push((name@, value@)),
{
    fields.push(Field { name: String::from_str(name), value: String::from_str(value) });
    assert(fields_view(fields@) =~= fields_view(old(fields)@).push((name@, value@)));
}

/// `a` followed by `b`.
pub fn join(a: &str, b: &str) -> (s: String)
    ensures
        s@ == a@ + b@,
{
    let mut s = String::from_str(a);
    s.append(b);
    s
}

/// `a`, `b` and `c` in a row.
pub fn join3(a: &str, b: &str, c: &str) -> (s: String)
    ensures
        s@ == a@ + b@ + c@,
{
    let mut s = String::from_str(a);
    s.append(b);
    s.append(c);
    s
}

/// A status code in the range of success.
pub open spec fn is_success(status: u16) -> bool {
    200 <= status < 300
}

/// Tells whether a status code says success.
pub fn success(status: u16) -> (b: bool)
    ensures
        b == is_success(status),
{
    200 <= status && status < 300
}

} // verus!
