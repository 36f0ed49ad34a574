//! The lecture list: checks the session on the main page, then reads the
//! to-do page and answers with the lectures it lists.

use vstd::prelude::*;
use crate::clients::{main_page, todo};
use crate::exchange::{
    error_action, fail, Action, ActionView, ReadAs, Reply, ReplyBody, ReplyBodyView, ReplyView,
};
use crate::handler::error_messages::{
    MAIN_PAGE_UNAVAILABLE, NO_CREDENTIALS, PARSE_ERROR, SESSION_EXPIRED, TODO_PAGE_UNAVAILABLE,
};
use crate::html::css_selector_accepts;
use crate::models::lecture::{
    page_lectures, Lecture, GO_LECTURE_PATTERN, SUBJECT_SELECTOR, TITLE_SELECTOR,
    TODO_SELECTOR,
};
use crate::exchange::Fault;
use crate::pattern::{self, regex_accepts};
use crate::text::{contains, contains_seq};
use crate::utils::{is_success, FetchedResponse, HeaderList};

verus! {

/// The notice that the site shows in place of the to-do list once the
/// session has ended.
pub const SESSION_ENDED_NOTICE: &'static str = "접속이 종료 되었습니다.";

/// Marks a whole HTML document, which the site sends in place of the to-do
/// fragment when it cannot serve it.
pub const DOCUMENT_MARKER: &'static str = "DOCTYPE";

/// Where the lecture list stands.
pub enum Stage {
    /// The main page was requested with this session cookie.
    AwaitMainPage { cookie: String },
    /// The to-do page was requested.
    AwaitTodo,
}

/// Where the lecture list stands, by value.
pub enum StageView {
    AwaitMainPage { cookie: Seq<char> },
    AwaitTodo,
}

impl View for Stage {
    type V = StageView;

    open spec fn view(&self) -> StageView {
        match self {
            Stage::AwaitMainPage { cookie } => StageView::AwaitMainPage { cookie: cookie@ },
            Stage::AwaitTodo => StageView::AwaitTodo,
        }
    }
}

/// An optional stage, by value.
pub open spec fn stage_view(s: Option<Stage>) -> Option<StageView> {
    match s {
        Some(t) => Some(t@),
        None => None,
    }
}

/// The first step of the lecture list for a session cookie: the main page is
/// requested.
pub open spec fn begins(cookie: Seq<char>, next: Option<StageView>, a: ActionView) -> bool {
    &&& next == Some(StageView::AwaitMainPage { cookie })
    &&& a == ActionView::Send(main_page::main_page_request(cookie), ReadAs::Status)
}

/// The lecture list goes from stage `s`, on response `resp`, to stage `next`
/// with action `a`.
pub open spec fn steps(s: StageView, resp: FetchedResponse, next: Option<StageView>, a: ActionView) -> bool {
    match s {
        StageView::AwaitMainPage { cookie } => if !is_success(resp.status) {
            next is None && a == error_action(MAIN_PAGE_UNAVAILABLE@, 503)
        } else {
            next == Some(StageView::AwaitTodo) && a == ActionView::Send(
                todo::todo_request(cookie),
                ReadAs::Text,
            )
        },
        StageView::AwaitTodo => next is None && todo_outcome(resp, a),
    }
}

impl Stage {
    /// Takes the response to the last request.
    pub fn step(self, resp: &FetchedResponse) -> (r: (Option<Stage>, Action))
        ensures
            steps(self@, *resp, stage_view(r.0), r.1@),
    {
        match self {
            Stage::AwaitMainPage { cookie } => on_main_page(cookie, resp),
            Stage::AwaitTodo => (None, on_todo(resp)),
        }
    }
}

/// The to-do page says that the session has ended.
pub fn is_session_expired(body: &str) -> (r: bool)
    ensures
        r == contains_seq(body@, SESSION_ENDED_NOTICE@),
{
    contains(body, SESSION_ENDED_NOTICE)
}

/// The to-do page is a fragment, not a whole document.
pub fn is_body_valid(body: &str) -> (r: bool)
    ensures
        r == !contains_seq(body@, DOCUMENT_MARKER@),
{
    !contains(body, DOCUMENT_MARKER)
}

/// Starts the lecture list for the client's session cookie: without one the
/// client is refused, else the main page is requested.
pub fn handle(cookie: Option<String>) -> (r: (Option<Stage>, Action))
    ensures
        cookie is None ==> r.0 is None && r.1@ == error_action(NO_CREDENTIALS@, 401),
        cookie matches Some(c) ==> {
            &&& r.0 matches Some(Stage::AwaitMainPage { cookie: k }) && k@ == c@
            &&& r.1@ == ActionView::Send(main_page::main_page_request(c@), ReadAs::Status)
        },
{
    match cookie {
        None => (None, fail(NO_CREDENTIALS, 401)),
        Some(c) => {
            let request = main_page::request(c.as_str());
            (Some(Stage::AwaitMainPage { cookie: c }), Action::Send(request, ReadAs::Status))
        },
    }
}

/// After the main page: unless it answered with success, the site is
/// unavailable; else the to-do page is requested.
pub fn on_main_page(cookie: String, page: &FetchedResponse) -> (r: (Option<Stage>, Action))
    ensures
        !is_success(page.status) ==> r.0 is None && r.1@ == error_action(
            MAIN_PAGE_UNAVAILABLE@,
            503,
        ),
        is_success(page.status) ==> {
            &&& r.0 matches Some(Stage::AwaitTodo)
            &&& r.1@ == ActionView::Send(todo::todo_request(cookie@), ReadAs::Text)
        },
{
    if !page.ok() {
        return (None, fail(MAIN_PAGE_UNAVAILABLE, 503));
    }
    (Some(Stage::AwaitTodo), Action::Send(todo::request(cookie.as_str()), ReadAs::Text))
}

/// A to-do page that the lecture list can be read from: served with success,
/// in a live session, and as a fragment.
pub open spec fn todo_page_readable(todo: FetchedResponse) -> bool {
    &&& is_success(todo.status)
    &&& !contains_seq(todo.body@, SESSION_ENDED_NOTICE@)
    &&& !contains_seq(todo.body@, DOCUMENT_MARKER@)
}

/// The to-do page's selectors are all accepted.
pub open spec fn todo_selectors_accepted() -> bool {
    css_selector_accepts(TODO_SELECTOR@) && css_selector_accepts(TITLE_SELECTOR@)
        && css_selector_accepts(SUBJECT_SELECTOR@)
}

/// What may follow the to-do page: the lectures it lists, or why there are
/// none.
pub open spec fn todo_outcome(todo: FetchedResponse, a: ActionView) -> bool {
    if !is_success(todo.status) {
        a == error_action(TODO_PAGE_UNAVAILABLE@, 503)
    } else if contains_seq(todo.body@, SESSION_ENDED_NOTICE@) {
        a == error_action(SESSION_EXPIRED@, 401)
    } else if contains_seq(todo.body@, DOCUMENT_MARKER@) {
        a == error_action(PARSE_ERROR@, 503)
    } else if !regex_accepts(GO_LECTURE_PATTERN@) {
        a == ActionView::Abort(Fault::PatternRefused)
    } else if !todo_selectors_accepted() {
        a == error_action(PARSE_ERROR@, 500)
    } else {
        a == ActionView::Reply(
            ReplyView {
                status: 200,
                headers: Seq::empty(),
                body: ReplyBodyView::Lectures(page_lectures(todo.body@)),
            },
        )
    }
}

/// After the to-do page: the lectures it lists, or why there are none.
pub fn on_todo(todo: &FetchedResponse) -> (r: Action)
    ensures
        todo_outcome(*todo, r@),
{
    if !todo.ok() {
        return fail(TODO_PAGE_UNAVAILABLE, 503);
    }
    let body = todo.body.as_str();
    if is_session_expired(body) {
        return fail(SESSION_EXPIRED, 401);
    }
    if !is_body_valid(body) {
        return fail(PARSE_ERROR, 503);
    }
    if pattern::compile(GO_LECTURE_PATTERN).is_err() {
        return Action::Abort(Fault::PatternRefused);
    }
    match Lecture::extract_lectures(body) {
        None => fail(PARSE_ERROR, 500),
        Some(lectures) => {
            let reply = Reply {
                status: 200,
                headers: HeaderList::new(),
                body: ReplyBody::Lectures(lectures),
            };
            Action::Reply(reply)
        },
    }
}

} // verus!
