//! Routing: picks the handler for a request, runs its exchange with the
//! site step by step, and puts the CORS headers on every reply.

use vstd::prelude::*;
use crate::exchange::{action_is_sendable, Action, ActionView, Event, HttpMethod, Reply, ReplyView};
use crate::handler::{lectures, login, preflight};
use crate::handlers::{not_found, reset, video, view};
use crate::models::video_request_data::VideoRequestData;
use crate::models::view_request_data::ViewRequestData;
use crate::text::equals;

verus! {

/// The only origin allowed to read the service's replies.
pub const FRONTEND_ORIGIN: &'static str = "https://psvm203.github.io";

/// The handler that a request goes to.
#[derive(Clone, Copy, PartialEq, Eq, Debug)]
pub enum Route {
    Preflight,
    Login,
    Lectures,
    View,
    Video,
    Reset,
    NotFound,
}

/// The handler for a method and a path: every `OPTIONS` request is a
/// preflight; `POST /login`, `GET /lectures`, `POST /view`, `GET /video` and
/// `POST /reset` have their handlers; anything else is not found.
pub open spec fn route_spec(method: HttpMethod, path: Seq<char>) -> Route {
    if method == HttpMethod::Options {
        Route::Preflight
    } else if method == HttpMethod::Post && path == "/login"@ {
        Route::Login
    } else if method == HttpMethod::Get && path == "/lectures"@ {
        Route::Lectures
    } else if method == HttpMethod::Post && path == "/view"@ {
        Route::View
    } else if method == HttpMethod::Get && path == "/video"@ {
        Route::Video
    } else if method == HttpMethod::Post && path == "/reset"@ {
        Route::Reset
    } else {
        Route::NotFound
    }
}

/// The handler for a request's method and path.
pub fn route(method: HttpMethod, path: &str) -> (r: Route)
    ensures
        r == route_spec(method, path@),
{
    match method {
        HttpMethod::Options => Route::Preflight,
        HttpMethod::Post => if equals(path, "/login") {
            Route::Login
        } else if equals(path, "/view") {
            Route::View
        } else if equals(path, "/reset") {
            Route::Reset
        } else {
            Route::NotFound
        },
        HttpMethod::Get => if equals(path, "/lectures") {
            Route::Lectures
        } else if equals(path, "/video") {
            Route::Video
        } else {
            Route::NotFound
        },
        HttpMethod::Other => Route::NotFound,
    }
}

/// The CORS headers that every reply carries.
pub open spec fn cors_headers() -> Seq<(Seq<char>, Seq<char>)> {
    seq![
        ("Access-Control-Allow-Origin"@, FRONTEND_ORIGIN@),
        ("Access-Control-Allow-Credentials"@, "true"@),
        ("Vary"@, "Origin"@),
    ]
}

/// A reply with the CORS headers set after its own.
pub open spec fn with_cors(r: ReplyView) -> ReplyView {
    ReplyView { headers: r.headers + cors_headers(), ..r }
}

/// A character's code with ASCII capitals taken to small letters.
pub open spec fn folded_code(c: char) -> u32 {
    if 65 <= (c as u32) <= 90 {
        ((c as u32) + 32) as u32
    } else {
        c as u32
    }
}

/// Two header names are the same name: HTTP compares them without regard
/// to ASCII case.
pub open spec fn same_header_name(a: Seq<char>, b: Seq<char>) -> bool {
    &&& a.len() == b.len()
    &&& forall|i: int| 0 <= i < a.len() ==> #[trigger] folded_code(a[i]) == folded_code(b[i])
}

/// The value that a header list gives a name: that of the last entry with
/// the same name (in any ASCII case), as setting the entries one after
/// another leaves it.
pub open spec fn header_value(h: Seq<(Seq<char>, Seq<char>)>, name: Seq<char>) -> Option<Seq<char>>
    decreases h.len(),
{
    if h.len() == 0 {
        None
    } else if same_header_name(h.last().0, name) {
        Some(h.last().1)
    } else {
        header_value(h.drop_last(), name)
    }
}

proof fn lemma_header_value_append(a: Seq<(Seq<char>, Seq<char>)>, b: Seq<(Seq<char>, Seq<char>)>, name: Seq<char>)
    ensures
        header_value(a + b, name) == match header_value(b, name) {
            Some(v) => Some(v),
            None => header_value(a, name),
        },
    decreases b.len(),
{
    if b.len() == 0 {
        assert(a + b =~= a);
    } else {
        assert((a + b).drop_last() =~= a + b.drop_last());
        assert((a + b).last() == b.last());
        lemma_header_value_append(a, b.drop_last(), name);
    }
}

/// Setting the CORS headers on a reply that already carries them gives
/// every header name the value it had.
pub proof fn lemma_cors_twice(r: ReplyView, name: Seq<char>)
    ensures
        header_value(with_cors(with_cors(r)).headers, name) == header_value(with_cors(r).headers, name),
{
    lemma_header_value_append(r.headers, cors_headers(), name);
    lemma_header_value_append(r.headers + cors_headers(), cors_headers(), name);
}

/// An action with the CORS headers set on its reply, if it has one.
pub open spec fn cors_action(a: ActionView) -> ActionView {
    match a {
        ActionView::Reply(r) => ActionView::Reply(with_cors(r)),
        _ => a,
    }
}

/// Sets the CORS headers on a reply: the frontend's origin may read it, with
/// credentials, and the reply varies by origin.
pub fn set_cors(reply: Reply) -> (r: Reply)
    ensures
        r@ == with_cors(reply@),
{
    let Reply { status, headers, body } = reply;
    let headers = headers.with("Access-Control-Allow-Origin", FRONTEND_ORIGIN).with(
        "Access-Control-Allow-Credentials",
        "true",
    ).with("Vary", "Origin");
    let r = Reply { status, headers, body };
    assert(r@.headers =~= reply@.headers + cors_headers());
    r
}

/// Sets the CORS headers on an action's reply, if it has one.
fn finish(a: Action) -> (r: Action)
    ensures
        r@ == cors_action(a@),
{
    match a {
        Action::Reply(reply) => Action::Reply(set_cors(reply)),
        other => other,
    }
}

/// What the handlers read of the client's request.
pub struct Incoming {
    /// The session cookie the client sent, if any.
    pub cookie: Option<String>,
    /// The body text (read for the login route).
    pub body: String,
    /// The body parsed as a mark-as-watched or reset form, when it parses
    /// (read for those routes).
    pub view_request: Option<ViewRequestData>,
    /// The body parsed as a video form, when it parses (read for that
    /// route).
    pub video_request: Option<VideoRequestData>,
}

/// Where an exchange stands.
pub enum Stage {
    Lectures(lectures::Stage),
    Login(login::Stage),
    View(view::Stage),
    Video(video::Stage),
    Reset(reset::Stage),
}

/// Where an exchange stands, by value.
pub enum StageView {
    Lectures(lectures::StageView),
    Login,
    View(view::StageView),
    Video(video::StageView),
    Reset(reset::StageView),
}

impl View for Stage {
    type V = StageView;

    open spec fn view(&self) -> StageView {
        match self {
            Stage::Lectures(s) => StageView::Lectures(s@),
            Stage::Login(_) => StageView::Login,
            Stage::View(s) => StageView::View(s@),
            Stage::Video(s) => StageView::Video(s@),
            Stage::Reset(s) => StageView::Reset(s@),
        }
    }
}

/// An optional stage, by value.
pub open spec fn stage_view(s: Option<Stage>) -> Option<StageView> {
    match s {
        Some(t) => Some(t@),
        None => None,
    }
}

/// A stage that the exchange can be in: handlers that hand over to the
/// lecture list do so at this level.
pub open spec fn wf(s: StageView) -> bool {
    match s {
        StageView::View(v) => view::wf(v) && !(v is Lectures),
        StageView::Reset(v) => reset::wf(v) && !(v is Lectures),
        StageView::Video(v) => video::wf(v),
        _ => true,
    }
}

/// The event that stage `s` waits for.
pub open spec fn accepts(s: StageView, e: Event) -> bool {
    match s {
        StageView::View(v) => view::accepts(v, e),
        StageView::Reset(v) => reset::accepts(v, e),
        StageView::Video(v) => video::accepts(v, e),
        _ => e is Response,
    }
}

/// The exchange's stage for a mark-as-watched stage.
pub open spec fn lift_view(n: Option<view::StageView>) -> Option<StageView> {
    match n {
        Some(view::StageView::Lectures(l)) => Some(StageView::Lectures(l)),
        Some(v) => Some(StageView::View(v)),
        None => None,
    }
}

/// The exchange's stage for a reset stage.
pub open spec fn lift_reset(n: Option<reset::StageView>) -> Option<StageView> {
    match n {
        Some(reset::StageView::Lectures(l)) => Some(StageView::Lectures(l)),
        Some(v) => Some(StageView::Reset(v)),
        None => None,
    }
}

/// The exchange's stage for a video stage.
pub open spec fn lift_video(n: Option<video::StageView>) -> Option<StageView> {
    match n {
        Some(v) => Some(StageView::Video(v)),
        None => None,
    }
}

/// The exchange's stage for a lecture list stage.
pub open spec fn lift_lectures(n: Option<lectures::StageView>) -> Option<StageView> {
    match n {
        Some(v) => Some(StageView::Lectures(v)),
        None => None,
    }
}

/// How the exchange for a route starts: the route's handler starts, and its
/// reply, if any, carries the CORS headers.
pub open spec fn begins(route: Route, input: Incoming, next: Option<StageView>, a: ActionView) -> bool {
    match route {
        Route::Preflight => next is None && a == ActionView::Reply(
            with_cors(preflight::preflight_reply()),
        ),
        Route::NotFound => next is None && a == ActionView::Reply(
            with_cors(crate::exchange::error_reply(crate::handler::error_messages::NOT_FOUND@, 404)),
        ),
        Route::Login => {
            &&& next == Some(StageView::Login)
            &&& a == cors_action(
                ActionView::Send(
                    crate::clients::login::login_request(Some(input.body@)),
                    crate::exchange::ReadAs::TextAndCookies,
                ),
            )
        },
        Route::Lectures => match input.cookie {
            None => next is None && a == cors_action(
                crate::exchange::error_action(crate::handler::error_messages::NO_CREDENTIALS@, 401),
            ),
            Some(c) => exists|n: Option<lectures::StageView>, a0: ActionView|
                lectures::begins(c@, n, a0) && next == lift_lectures(n) && a == cors_action(a0),
        },
        Route::View => exists|n: Option<view::StageView>, a0: ActionView|
            view::begins(input.view_request, input.cookie, n, a0) && next == lift_view(n) && a
                == cors_action(a0),
        Route::Video => exists|n: Option<video::StageView>, a0: ActionView|
            video::begins(input.video_request, input.cookie, n, a0) && next == lift_video(n) && a
                == cors_action(a0),
        Route::Reset => exists|n: Option<reset::StageView>, a0: ActionView|
            reset::begins(input.view_request, input.cookie, n, a0) && next == lift_reset(n) && a
                == cors_action(a0),
    }
}

/// The exchange goes from stage `s`, on event `e`, to stage `next` with
/// action `a`: the current handler steps, and its reply, if any, carries the
/// CORS headers.
pub open spec fn steps(s: StageView, e: Event, next: Option<StageView>, a: ActionView) -> bool {
    match s {
        StageView::Lectures(l) => match e {
            Event::Response(resp) => exists|n: Option<lectures::StageView>, a0: ActionView|
                lectures::steps(l, resp, n, a0) && next == lift_lectures(n) && a == cors_action(a0),
            _ => false,
        },
        StageView::Login => match e {
            Event::Response(resp) => exists|a0: ActionView|
                login::on_login_outcome(resp, a0) && next is None && a == cors_action(a0),
            _ => false,
        },
        StageView::View(v) => exists|n: Option<view::StageView>, a0: ActionView|
            view::steps(v, e, n, a0) && next == lift_view(n) && a == cors_action(a0),
        StageView::Video(v) => exists|n: Option<video::StageView>, a0: ActionView|
            video::steps(v, e, n, a0) && next == lift_video(n) && a == cors_action(a0),
        StageView::Reset(v) => exists|n: Option<reset::StageView>, a0: ActionView|
            reset::steps(v, e, n, a0) && next == lift_reset(n) && a == cors_action(a0),
    }
}

fn lift_view_stage(n: Option<view::Stage>) -> (r: Option<Stage>)
    ensures
        stage_view(r) == lift_view(view::stage_view(n)),
        (n matches Some(v) && view::wf(v@)) ==> (r matches Some(s) && wf(s@)),
{
    match n {
        Some(view::Stage::Lectures(l)) => Some(Stage::Lectures(l)),
        Some(v) => Some(Stage::View(v)),
        None => None,
    }
}

fn lift_reset_stage(n: Option<reset::Stage>) -> (r: Option<Stage>)
    ensures
        stage_view(r) == lift_reset(reset::stage_view(n)),
        (n matches Some(v) && reset::wf(v@)) ==> (r matches Some(s) && wf(s@)),
{
    match n {
        Some(reset::Stage::Lectures(l)) => Some(Stage::Lectures(l)),
        Some(v) => Some(Stage::Reset(v)),
        None => None,
    }
}

/// Starts the exchange for a route.
pub fn begin(route: Route, input: Incoming) -> (r: (Option<Stage>, Action))
    ensures
        begins(route, input, stage_view(r.0), r.1@),
        r.0 matches Some(s) ==> wf(s@),
{
    match route {
        Route::Preflight => {
            let reply = preflight::handle();
            let a = finish(Action::Reply(reply));
            assert(a@ == ActionView::Reply(with_cors(preflight::preflight_reply())));
            (None, a)
        },
        Route::NotFound => (None, finish(Action::Reply(not_found::handle()))),
        Route::Login => {
            let (_, a) = login::handle(input.body);
            (Some(Stage::Login(login::Stage::AwaitLogin)), finish(a))
        },
        Route::Lectures => {
            let ghost cookie = input.cookie;
            let (n, a) = lectures::handle(input.cookie);
            proof {
                if let Some(c) = cookie {
                    assert(lectures::begins(c@, lectures::stage_view(n), a@));
                }
            }
            let next = match n {
                Some(l) => Some(Stage::Lectures(l)),
                None => None,
            };
            (next, finish(a))
        },
        Route::View => {
            let (n, a) = view::handle(input.view_request, input.cookie);
            (lift_view_stage(n), finish(a))
        },
        Route::Video => {
            let (n, a) = video::handle(input.video_request, input.cookie);
            let next = match n {
                Some(v) => Some(Stage::Video(v)),
                None => None,
            };
            (next, finish(a))
        },
        Route::Reset => {
            let (n, a) = reset::handle(input.view_request, input.cookie);
            (lift_reset_stage(n), finish(a))
        },
    }
}

impl Stage {
    /// Whether this stage waits for `e`.
    pub fn accepts(&self, e: &Event) -> (r: bool)
        ensures
            r == accepts(self@, *e),
    {
        match self {
            Stage::View(v) => v.accepts(e),
            Stage::Reset(v) => v.accepts(e),
            Stage::Video(v) => v.accepts(e),
            _ => matches!(e, Event::Response(_)),
        }
    }

    /// Takes what came back for the last request.
    pub fn advance(self, e: Event) -> (r: (Option<Stage>, Action))
        requires
            wf(self@),
            accepts(self@, e),
        ensures
            steps(self@, e, stage_view(r.0), r.1@),
            r.0 matches Some(s) ==> wf(s@),
    {
        match self {
            Stage::Lectures(l) => match e {
                Event::Response(resp) => {
                    let (n, a) = l.step(&resp);
                    let next = match n {
                        Some(l) => Some(Stage::Lectures(l)),
                        None => None,
                    };
                    (next, finish(a))
                },
                _ => (None, Action::Abort(crate::exchange::Fault::PatternRefused)),
            },
            Stage::Login(_) => match e {
                Event::Response(resp) => (None, finish(login::on_login(&resp))),
                _ => (None, Action::Abort(crate::exchange::Fault::PatternRefused)),
            },
            Stage::View(v) => {
                let (n, a) = v.step(e);
                (lift_view_stage(n), finish(a))
            },
            Stage::Video(v) => {
                let (n, a) = v.step(e);
                let next = match n {
                    Some(v) => Some(Stage::Video(v)),
                    None => None,
                };
                (next, finish(a))
            },
            Stage::Reset(v) => {
                let (n, a) = v.step(e);
                (lift_reset_stage(n), finish(a))
            },
        }
    }
}

/// The bound on the work for one item of a mark-as-watched run: its
/// description, video page, history entry, and at most 2^32 viewing time
/// reports.
pub open spec fn item_budget() -> nat {
    0x1_0000_0008
}

/// How far an exchange is from its end, ordered lexicographically: the
/// phase (opening the week, reading the view form, working through the
/// items, the lecture list), then the work left within the phase.
pub open spec fn rank(s: StageView) -> (nat, nat) {
    match s {
        StageView::Lectures(lectures::StageView::AwaitMainPage { .. }) => (0, 2),
        StageView::Lectures(lectures::StageView::AwaitTodo) => (0, 1),
        StageView::Login => (0, 1),
        StageView::View(v) => match v {
            view::StageView::AwaitConnect { .. } => (3, 0),
            view::StageView::AwaitViewForm { .. } => (2, 0),
            view::StageView::AwaitNavi { lesson } => (1, lesson.items_left() * item_budget()),
            view::StageView::AwaitVideo { lesson, .. } => (
                1,
                (lesson.items_left() * item_budget() - 1) as nat,
            ),
            view::StageView::AwaitHistory { lesson, .. } => (
                1,
                (lesson.items_left() * item_budget() - 2) as nat,
            ),
            view::StageView::AwaitView { lesson, remaining, .. } => (
                1,
                ((lesson.items_left() - 1) * item_budget() + 1 + remaining) as nat,
            ),
            view::StageView::Lectures(_) => (0, 0),
        },
        StageView::Video(v) => match v {
            video::StageView::AwaitConnect { .. } => (3, 0),
            video::StageView::AwaitViewForm { .. } => (2, 0),
            video::StageView::AwaitNavi { lesson, .. } => (1, lesson.items_left()),
        },
        StageView::Reset(v) => match v {
            reset::StageView::AwaitConnect { .. } => (3, 0),
            reset::StageView::AwaitViewForm { .. } => (2, 0),
            reset::StageView::AwaitNavi { lesson } => (1, lesson.items_left() * 6),
            reset::StageView::AwaitList { lesson, .. } => (1, (lesson.items_left() * 6 - 1) as nat),
            reset::StageView::AwaitHistory { lesson, .. } => (
                1,
                (lesson.items_left() * 6 - 2) as nat,
            ),
            reset::StageView::AwaitFirstView { lesson, .. } => (
                1,
                (lesson.items_left() * 6 - 3) as nat,
            ),
            reset::StageView::AwaitSecondView { lesson } => (
                1,
                (lesson.items_left() * 6 - 4) as nat,
            ),
            reset::StageView::Lectures(_) => (0, 0),
        },
    }
}

/// `a` comes strictly before `b` in the lexicographic order of ranks.
pub open spec fn ranks_below(a: (nat, nat), b: (nat, nat)) -> bool {
    a.0 < b.0 || (a.0 == b.0 && a.1 < b.1)
}

/// An action that ends the exchange exactly when it is not a request, and
/// whose reply, if any, can be sent and carries the CORS headers.
pub open spec fn well_ended(next: Option<StageView>, a: ActionView) -> bool {
    &&& (next is Some <==> a is Send)
    &&& action_is_sendable(a)
    &&& (a matches ActionView::Reply(r) ==> r.headers.len() >= 3 && r.headers.subrange(
        r.headers.len() - 3,
        r.headers.len() as int,
    ) == cors_headers())
}

proof fn lemma_cors_well_ended(next: Option<StageView>, a0: ActionView)
    requires
        next is Some <==> a0 is Send,
        action_is_sendable(a0),
    ensures
        well_ended(next, cors_action(a0)),
{
    if let ActionView::Reply(r) = a0 {
        let h = with_cors(r).headers;
        assert(h.subrange(h.len() - 3, h.len() as int) =~= cors_headers());
    }
}

/// Every step of an exchange ends it exactly when it does not send a
/// request; every reply it gives can be sent (error messages carry a status
/// from 400 to 599, empty replies 204, lists 200) and carries the CORS
/// headers; and every stage it moves to is strictly closer to the end, so
/// that every exchange ends after finitely many events.
pub proof fn lemma_exchange_steps_forward(s: StageView, e: Event, next: Option<StageView>, a: ActionView)
    requires
        wf(s),
        accepts(s, e),
        steps(s, e, next, a),
    ensures
        well_ended(next, a),
        next matches Some(n) ==> ranks_below(rank(n), rank(s)),
{
    match s {
        StageView::Lectures(l) => {
            let resp = e->Response_0;
            let (n, a0) = choose|n: Option<lectures::StageView>, a0: ActionView|
                lectures::steps(l, resp, n, a0) && next == lift_lectures(n) && a == cors_action(a0);
            lemma_cors_well_ended(next, a0);
        },
        StageView::Login => {
            let resp = e->Response_0;
            let a0 = choose|a0: ActionView| login::on_login_outcome(resp, a0) && next is None && a
                == cors_action(a0);
            lemma_cors_well_ended(next, a0);
        },
        StageView::View(v) => {
            let (n, a0) = choose|n: Option<view::StageView>, a0: ActionView|
                view::steps(v, e, n, a0) && next == lift_view(n) && a == cors_action(a0);
            lemma_cors_well_ended(next, a0);
        },
        StageView::Video(v) => {
            let (n, a0) = choose|n: Option<video::StageView>, a0: ActionView|
                video::steps(v, e, n, a0) && next == lift_video(n) && a == cors_action(a0);
            lemma_cors_well_ended(next, a0);
        },
        StageView::Reset(v) => {
            let (n, a0) = choose|n: Option<reset::StageView>, a0: ActionView|
                reset::steps(v, e, n, a0) && next == lift_reset(n) && a == cors_action(a0);
            lemma_cors_well_ended(next, a0);
        },
    }
}

/// Every exchange starts by sending a request exactly when it does not end
/// at once, and a reply it starts with can be sent and carries the CORS
/// headers.
pub proof fn lemma_exchange_begins_well(route: Route, input: Incoming, next: Option<StageView>, a: ActionView)
    requires
        begins(route, input, next, a),
    ensures
        well_ended(next, a),
{
    match route {
        Route::Preflight => {
            lemma_cors_well_ended(next, ActionView::Reply(preflight::preflight_reply()));
        },
        Route::NotFound => {
            lemma_cors_well_ended(
                next,
                ActionView::Reply(
                    crate::exchange::error_reply(crate::handler::error_messages::NOT_FOUND@, 404),
                ),
            );
        },
        Route::Login => {
            lemma_cors_well_ended(
                next,
                ActionView::Send(
                    crate::clients::login::login_request(Some(input.body@)),
                    crate::exchange::ReadAs::TextAndCookies,
                ),
            );
        },
        Route::Lectures => {
            match input.cookie {
                None => {
                    lemma_cors_well_ended(
                        next,
                        crate::exchange::error_action(
                            crate::handler::error_messages::NO_CREDENTIALS@,
                            401,
                        ),
                    );
                },
                Some(c) => {
                    let (n, a0) = choose|n: Option<lectures::StageView>, a0: ActionView|
                        lectures::begins(c@, n, a0) && next == lift_lectures(n) && a == cors_action(
                            a0,
                        );
                    lemma_cors_well_ended(next, a0);
                },
            }
        },
        Route::View => {
            let (n, a0) = choose|n: Option<view::StageView>, a0: ActionView|
                view::begins(input.view_request, input.cookie, n, a0) && next == lift_view(n) && a
                    == cors_action(a0);
            lemma_cors_well_ended(next, a0);
        },
        Route::Video => {
            let (n, a0) = choose|n: Option<video::StageView>, a0: ActionView|
                video::begins(input.video_request, input.cookie, n, a0) && next == lift_video(n)
                    && a == cors_action(a0);
            lemma_cors_well_ended(next, a0);
        },
        Route::Reset => {
            let (n, a0) = choose|n: Option<reset::StageView>, a0: ActionView|
                reset::begins(input.view_request, input.cookie, n, a0) && next == lift_reset(n) && a
                    == cors_action(a0);
            lemma_cors_well_ended(next, a0);
        },
    }
}

/// A request that needs the session and comes without the session cookie
/// is refused with 401 "No credentials" before anything is sent to the
/// site: the lecture list always, and the other session routes once their
/// form parsed.
pub proof fn lemma_no_cookie_refused(route: Route, input: Incoming, next: Option<StageView>, a: ActionView)
    requires
        begins(route, input, next, a),
        input.cookie is None,
        route == Route::Lectures || (route == Route::View && input.view_request is Some) || (route
            == Route::Reset && input.view_request is Some) || (route == Route::Video
            && input.video_request is Some),
    ensures
        next is None,
        a == cors_action(
            crate::exchange::error_action(crate::handler::error_messages::NO_CREDENTIALS@, 401),
        ),
{
}

} // verus!
