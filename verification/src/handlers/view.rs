//! Marking a lecture as watched: for each lesson item of the lecture's
//! week, opens a viewing history entry and reports viewing time in steps of
//! `INTERVAL_TIME` seconds until the video's length is covered, then
//! answers with the lecture list.

use vstd::prelude::*;
use crate::clients::{connect, history, navi, video, view, view_form};
use crate::exchange::{error_action, fail, Action, ActionView, Event, Fault, ReadAs};
use crate::handler::error_messages::{
    CONNECT_PAGE_UNAVAILABLE, INVALID_REQUEST_BODY, NO_CREDENTIALS, PARSE_ERROR,
    VIEW_FORM_UNAVAILABLE,
};
use crate::handler::lectures;
use crate::handlers::reset::{items_in, try_extract_items, ITEM_PATTERN};
use crate::handlers::{
    decimal_text, history_form, history_form_spec, navi_form, navi_form_spec, view_form as
    view_form_text, view_form_spec, week_form, week_form_spec, Lesson, LessonView,
};
use crate::html;
use crate::models::view_request_data::ViewRequestData;
use crate::pattern::{self, group, group_spec, regex_accepts, regex_captures};
use crate::text::{chars_of, decimal_digits, lemma_decimal_round_trip, parse_u32, parse_u32_spec};
use crate::utils::{is_success, FetchedResponse};

verus! {

/// The viewing time, in seconds, reported with each report.
pub const INTERVAL_TIME: u32 = 240;

/// Matches the link to the week's lesson list on the connect page and
/// captures the week.
pub const WEEK_PATTERN: &'static str = "\"\\/ilos\\/st\\/course\\/online_list_form\\.acl\\?WEEK_NO=(.*)\"";

/// Selects the element of a video page that declares the video's length.
pub const DURATION_SELECTOR: &'static str = "meta[name=\"duration\"]";

/// The week that the connect page links to.
pub open spec fn week_in(body: Seq<char>) -> Option<Seq<char>> {
    group_spec(regex_captures(WEEK_PATTERN@, body), 1)
}

/// The week that the connect page links to.
pub fn extract_week(body: &str) -> (r: Option<String>)
    requires
        regex_accepts(WEEK_PATTERN@),
    ensures
        r matches Some(w) ==> week_in(body@) == Some(w@),
        r is None ==> week_in(body@) is None,
{
    match pattern::compile(WEEK_PATTERN) {
        Ok(p) => {
            let c = pattern::captures(&p, body);
            group(&c, 1)
        },
        Err(_) => None,
    }
}

/// The video length that a `content` attribute declares, in seconds.
pub fn duration_from_content(content: Option<String>) -> (r: Option<u32>)
    ensures
        content is None ==> r is None,
        content matches Some(c) ==> r == parse_u32_spec(c@),
{
    match content {
        None => None,
        Some(c) => {
            let cs = chars_of(c.as_str());
            parse_u32(&cs)
        },
    }
}

/// The video page, parsed as a whole document.
pub open spec fn video_document(page: Seq<char>) -> html::DocumentView {
    html::DocumentView { source: page, whole: true }
}

/// The video length that a video page declares, in seconds: the `content`
/// of its first `meta name="duration"` element, read as a 32-bit decimal
/// number. `None` when the selector is refused, there is no such element,
/// it has no `content`, or that is not such a number.
pub open spec fn declared_duration(page: Seq<char>) -> Option<u32> {
    let doc = video_document(page);
    if !html::css_selector_accepts(DURATION_SELECTOR@) || html::html_select_count(
        doc,
        DURATION_SELECTOR@,
    ) == 0 {
        None
    } else {
        let first = html::ElementView { document: doc, selector: DURATION_SELECTOR@, index: 0 };
        match html::html_attribute(first, "content"@) {
            Some(c) => parse_u32_spec(c),
            None => None,
        }
    }
}

/// The video length that a video page declares, in seconds (see
/// `declared_duration`).
pub fn extract_video_duration(body: &str) -> (r: Option<u32>)
    ensures
        r == declared_duration(body@),
{
    let document = html::parse_document(body);
    let selector = match html::parse_selector(DURATION_SELECTOR) {
        Ok(s) => s,
        Err(_) => return None,
    };
    let found = html::select_all(&document, &selector);
    if found.len() == 0 {
        return None;
    }
    duration_from_content(html::attribute(&found[0], "content"))
}

/// The number of viewing time reports for a video of this length: enough
/// intervals to cover it, and two more.
pub fn get_fetch_counts(duration: u32) -> (r: u32)
    ensures
        r == duration / INTERVAL_TIME + 2,
        r >= 2,
{
    duration / INTERVAL_TIME + 2
}

/// Where marking as watched stands.
pub enum Stage {
    /// The lecture's week was opened.
    AwaitConnect { cookie: String, subject_id: String },
    /// The week's view form was requested.
    AwaitViewForm { cookie: String, subject_id: String, week: String },
    /// The current item's description was requested.
    AwaitNavi { lesson: Lesson },
    /// The item's video page was requested.
    AwaitVideo { lesson: Lesson, link_seq: String },
    /// A viewing history entry was requested.
    AwaitHistory { lesson: Lesson, link_seq: String, video_page: String },
    /// Viewing time was reported; `remaining` reports are still to come.
    AwaitView { lesson: Lesson, view_body: String, remaining: u32 },
    /// Every item is done; the lecture list answers.
    Lectures(lectures::Stage),
}

/// Where marking as watched stands, by value.
pub enum StageView {
    AwaitConnect { cookie: Seq<char>, subject_id: Seq<char> },
    AwaitViewForm { cookie: Seq<char>, subject_id: Seq<char>, week: Seq<char> },
    AwaitNavi { lesson: LessonView },
    AwaitVideo { lesson: LessonView, link_seq: Seq<char> },
    AwaitHistory { lesson: LessonView, link_seq: Seq<char>, video_page: Seq<char> },
    AwaitView { lesson: LessonView, view_body: Seq<char>, remaining: u32 },
    Lectures(lectures::StageView),
}

impl View for Stage {
    type V = StageView;

    open spec fn view(&self) -> StageView {
        match self {
            Stage::AwaitConnect { cookie, subject_id } => StageView::AwaitConnect {
                cookie: cookie@,
                subject_id: subject_id@,
            },
            Stage::AwaitViewForm { cookie, subject_id, week } => StageView::AwaitViewForm {
                cookie: cookie@,
                subject_id: subject_id@,
                week: week@,
            },
            Stage::AwaitNavi { lesson } => StageView::AwaitNavi { lesson: lesson@ },
            Stage::AwaitVideo { lesson, link_seq } => StageView::AwaitVideo {
                lesson: lesson@,
                link_seq: link_seq@,
            },
            Stage::AwaitHistory { lesson, link_seq, video_page } => StageView::AwaitHistory {
                lesson: lesson@,
                link_seq: link_seq@,
                video_page: video_page@,
            },
            Stage::AwaitView { lesson, view_body, remaining } => StageView::AwaitView {
                lesson: lesson@,
                view_body: view_body@,
                remaining: *remaining,
            },
            Stage::Lectures(l) => StageView::Lectures(l@),
        }
    }
}

/// An optional stage, by value.
pub open spec fn stage_view(s: Option<Stage>) -> Option<StageView> {
    match s {
        Some(t) => Some(t@),
        None => None,
    }
}

/// The stages that work on an item are on one of the run's items.
pub open spec fn wf(s: StageView) -> bool {
    match s {
        StageView::AwaitNavi { lesson } => lesson.on_item(),
        StageView::AwaitVideo { lesson, .. } => lesson.on_item(),
        StageView::AwaitHistory { lesson, .. } => lesson.on_item(),
        StageView::AwaitView { lesson, .. } => lesson.on_item(),
        _ => true,
    }
}

/// The event that stage `s` waits for.
pub open spec fn accepts(s: StageView, e: Event) -> bool {
    match s {
        StageView::AwaitNavi { .. } => e is Navi,
        StageView::AwaitHistory { .. } => e is History,
        _ => e is Response,
    }
}

/// The error reply that ends the exchange.
pub open spec fn ends_with(next: Option<StageView>, a: ActionView, message: Seq<char>, status: u16) -> bool {
    next is None && a == error_action(message, status)
}

/// The reported interval: `INTERVAL_TIME` as a decimal numeral.
pub open spec fn interval() -> Seq<char> {
    decimal_digits(INTERVAL_TIME as nat)
}

/// Work on the run's current item starts with its description; past the
/// last item, the lecture list takes over.
pub open spec fn item_start(lesson: LessonView, next: Option<StageView>, a: ActionView) -> bool {
    if lesson.on_item() {
        &&& next == Some(StageView::AwaitNavi { lesson })
        &&& a == ActionView::Send(
            navi::navi_request(
                lesson.cookie,
                Some(navi_form_spec(lesson.week, lesson.item(), lesson.subject_id)),
            ),
            ReadAs::Navi,
        )
    } else {
        exists|l: Option<lectures::StageView>|
            lectures::begins(lesson.cookie, l, a) && next == Some(StageView::Lectures(l->0))
    }
}

/// How marking as watched starts, given the client's form (when it parsed)
/// and session cookie.
pub open spec fn begins(
    form: Option<ViewRequestData>,
    cookie: Option<String>,
    next: Option<StageView>,
    a: ActionView,
) -> bool {
    match form {
        None => ends_with(next, a, INVALID_REQUEST_BODY@, 404),
        Some(f) => match cookie {
            None => ends_with(next, a, NO_CREDENTIALS@, 401),
            Some(c) => {
                &&& next == Some(StageView::AwaitConnect { cookie: c@, subject_id: f.subject_id@ })
                &&& a == ActionView::Send(
                    connect::connect_request(f.connect_params(), c@),
                    ReadAs::Text,
                )
            },
        },
    }
}

/// Marking as watched goes from stage `s`, on event `e`, to stage `next`
/// with action `a`.
pub open spec fn steps(s: StageView, e: Event, next: Option<StageView>, a: ActionView) -> bool {
    match (s, e) {
        (StageView::AwaitConnect { cookie, subject_id }, Event::Response(resp)) => {
            if !is_success(resp.status) {
                ends_with(next, a, CONNECT_PAGE_UNAVAILABLE@, 503)
            } else if !regex_accepts(WEEK_PATTERN@) {
                next is None && a == ActionView::Abort(Fault::PatternRefused)
            } else {
                match week_in(resp.body@) {
                    None => ends_with(next, a, PARSE_ERROR@, 500),
                    Some(week) => {
                        &&& next == Some(StageView::AwaitViewForm { cookie, subject_id, week })
                        &&& a == ActionView::Send(
                            view_form::view_form_request(cookie, Some(week_form_spec(week))),
                            ReadAs::Text,
                        )
                    },
                }
            }
        },
        (StageView::AwaitViewForm { cookie, subject_id, week }, Event::Response(resp)) => {
            if !is_success(resp.status) {
                ends_with(next, a, VIEW_FORM_UNAVAILABLE@, 503)
            } else if !regex_accepts(ITEM_PATTERN@) {
                next is None && a == ActionView::Abort(Fault::PatternRefused)
            } else {
                item_start(
                    LessonView { cookie, subject_id, week, items: items_in(resp.body@), index: 0 },
                    next,
                    a,
                )
            }
        },
        (StageView::AwaitNavi { lesson }, Event::Navi(n)) => {
            &&& next == Some(StageView::AwaitVideo { lesson, link_seq: n.link_seq@ })
            &&& a == ActionView::Send(video::video_request(n.path@), ReadAs::Text)
        },
        (StageView::AwaitVideo { lesson, link_seq }, Event::Response(resp)) => {
            &&& next == Some(StageView::AwaitHistory { lesson, link_seq, video_page: resp.body@ })
            &&& a == ActionView::Send(
                history::history_request(
                    lesson.cookie,
                    Some(history_form_spec(lesson.week, lesson.subject_id, interval())),
                ),
                ReadAs::History,
            )
        },
        (StageView::AwaitHistory { lesson, link_seq, video_page }, Event::History(h)) => {
            let body = view_form_spec(lesson.week, link_seq, h.his_no@, lesson.subject_id, interval());
            match declared_duration(video_page) {
                None => next is None && a == ActionView::Abort(Fault::MissingDuration),
                Some(d) => {
                    &&& next == Some(
                        StageView::AwaitView {
                            lesson,
                            view_body: body,
                            remaining: (d / INTERVAL_TIME + 1) as u32,
                        },
                    )
                    &&& a == ActionView::Send(
                        view::view_request(lesson.cookie, Some(body)),
                        ReadAs::Nothing,
                    )
                },
            }
        },
        (StageView::AwaitView { lesson, view_body, remaining }, Event::Response(_)) => {
            if remaining > 0 {
                &&& next == Some(
                    StageView::AwaitView { lesson, view_body, remaining: (remaining - 1) as u32 },
                )
                &&& a == ActionView::Send(
                    view::view_request(lesson.cookie, Some(view_body)),
                    ReadAs::Nothing,
                )
            } else {
                item_start(lesson.next(), next, a)
            }
        },
        _ => false,
    }
}

/// Stage `s` takes the events `es`, one step each, through the stages `ns`
/// with the actions `acts`; every stage but the last goes on.
pub open spec fn runs(s: StageView, es: Seq<Event>, ns: Seq<Option<StageView>>, acts: Seq<ActionView>) -> bool
    decreases es.len(),
{
    &&& ns.len() == es.len()
    &&& acts.len() == es.len()
    &&& es.len() > 0 ==> {
        &&& steps(s, es[0], ns[0], acts[0])
        &&& es.len() > 1 ==> (ns[0] matches Some(n) && runs(n, es.drop_first(), ns.drop_first(), acts.drop_first()))
    }
}

/// The report of viewing time for an item: the view request with the
/// item's view form.
pub open spec fn report(lesson: LessonView, view_body: Seq<char>) -> ActionView {
    ActionView::Send(view::view_request(lesson.cookie, Some(view_body)), ReadAs::Nothing)
}

/// With `remaining` reports still to come, the next `remaining` responses
/// each bring one more report, and the one after starts the next item.
pub proof fn lemma_reports_remaining(
    lesson: LessonView,
    view_body: Seq<char>,
    remaining: u32,
    es: Seq<Event>,
    ns: Seq<Option<StageView>>,
    acts: Seq<ActionView>,
)
    requires
        runs(StageView::AwaitView { lesson, view_body, remaining }, es, ns, acts),
        es.len() == remaining + 1,
        forall|i: int| 0 <= i < es.len() ==> #[trigger] es[i] is Response,
    ensures
        forall|i: int| 0 <= i < remaining ==> #[trigger] acts[i] == report(lesson, view_body),
        item_start(lesson.next(), ns[remaining as int], acts[remaining as int]),
    decreases remaining,
{
    assert(es[0] is Response);
    if remaining > 0 {
        let r1 = (remaining - 1) as u32;
        assert(es.drop_first().len() == r1 + 1);
        assert forall|i: int| 0 <= i < es.drop_first().len() implies #[trigger] es.drop_first()[i] is Response by {
            assert(es.drop_first()[i] == es[i + 1]);
            assert(es[i + 1] is Response);
        }
        lemma_reports_remaining(lesson, view_body, r1, es.drop_first(), ns.drop_first(), acts.drop_first());
        assert forall|i: int| 0 <= i < remaining implies #[trigger] acts[i] == report(lesson, view_body) by {
            if i > 0 {
                assert(acts[i] == acts.drop_first()[i - 1]);
            }
        }
        assert(ns[remaining as int] == ns.drop_first()[r1 as int]);
        assert(acts[remaining as int] == acts.drop_first()[r1 as int]);
    }
}

/// Once its history entry is open, an item whose video page declares `d`
/// seconds gets `d / INTERVAL_TIME + 2` reports of viewing time, one on
/// the history entry and one on each response after it but the last; that
/// last response starts the next item.
pub proof fn lemma_reports_cover_video(
    lesson: LessonView,
    link_seq: Seq<char>,
    video_page: Seq<char>,
    d: u32,
    es: Seq<Event>,
    ns: Seq<Option<StageView>>,
    acts: Seq<ActionView>,
)
    requires
        declared_duration(video_page) == Some(d),
        runs(StageView::AwaitHistory { lesson, link_seq, video_page }, es, ns, acts),
        es.len() == d / INTERVAL_TIME + 3,
        es[0] is History,
        forall|i: int| 1 <= i < es.len() ==> #[trigger] es[i] is Response,
    ensures
        (es[0] matches Event::History(h) && forall|i: int|
            0 <= i < d / INTERVAL_TIME + 2 ==> #[trigger] acts[i] == report(
                lesson,
                view_form_spec(lesson.week, link_seq, h.his_no@, lesson.subject_id, interval()),
            )),
        item_start(lesson.next(), ns[d / INTERVAL_TIME + 2], acts[d / INTERVAL_TIME + 2]),
{
    let h = es[0]->History_0;
    let body = view_form_spec(lesson.week, link_seq, h.his_no@, lesson.subject_id, interval());
    let remaining = (d / INTERVAL_TIME + 1) as u32;
    assert(ns[0] == Some(StageView::AwaitView { lesson, view_body: body, remaining }));
    assert forall|i: int| 0 <= i < es.drop_first().len() implies #[trigger] es.drop_first()[i] is Response by {
        assert(es.drop_first()[i] == es[i + 1]);
        assert(es[i + 1] is Response);
    }
    lemma_reports_remaining(lesson, body, remaining, es.drop_first(), ns.drop_first(), acts.drop_first());
    assert forall|i: int| 0 <= i < d / INTERVAL_TIME + 2 implies #[trigger] acts[i] == report(lesson, body) by {
        if i > 0 {
            assert(acts[i] == acts.drop_first()[i - 1]);
        }
    }
    assert(ns[d / INTERVAL_TIME + 2] == ns.drop_first()[remaining as int]);
    assert(acts[d / INTERVAL_TIME + 2] == acts.drop_first()[remaining as int]);
}

/// The video length is the whole `content` of the page's first
/// `meta name="duration"` element, read as a 32-bit decimal number: when
/// scraper finds such an element with a `content`, the declared length is
/// what std's `u32::from_str` makes of all of it.
pub proof fn lemma_declared_length_is_whole_content(page: Seq<char>, content: Seq<char>)
    requires
        html::css_selector_accepts(DURATION_SELECTOR@),
        html::html_select_count(html::DocumentView { source: page, whole: true }, DURATION_SELECTOR@) > 0,
        html::html_attribute(
            html::ElementView {
                document: html::DocumentView { source: page, whole: true },
                selector: DURATION_SELECTOR@,
                index: 0,
            },
            "content"@,
        ) == Some(content),
    ensures
        declared_duration(page) == parse_u32_spec(content),
{
}

/// A page whose first duration element's `content` is the decimal numeral
/// of `n` declares a length of `n` seconds, and the item then gets
/// `n / INTERVAL_TIME + 2` viewing time reports: one on the history entry
/// and one on each response after it but the last, which starts the next
/// item.
pub proof fn lemma_reports_follow_declared_length(
    lesson: LessonView,
    link_seq: Seq<char>,
    video_page: Seq<char>,
    n: u32,
    es: Seq<Event>,
    ns: Seq<Option<StageView>>,
    acts: Seq<ActionView>,
)
    requires
        html::css_selector_accepts(DURATION_SELECTOR@),
        html::html_select_count(html::DocumentView { source: video_page, whole: true }, DURATION_SELECTOR@) > 0,
        html::html_attribute(
            html::ElementView {
                document: html::DocumentView { source: video_page, whole: true },
                selector: DURATION_SELECTOR@,
                index: 0,
            },
            "content"@,
        ) == Some(decimal_digits(n as nat)),
        runs(StageView::AwaitHistory { lesson, link_seq, video_page }, es, ns, acts),
        es.len() == n / 240 + 3,
        es[0] is History,
        forall|i: int| 1 <= i < es.len() ==> #[trigger] es[i] is Response,
    ensures
        declared_duration(video_page) == Some(n),
        (es[0] matches Event::History(h) && forall|i: int|
            0 <= i < n / 240 + 2 ==> #[trigger] acts[i] == ActionView::Send(
                view::view_request(
                    lesson.cookie,
                    Some(view_form_spec(lesson.week, link_seq, h.his_no@, lesson.subject_id, "240"@)),
                ),
                ReadAs::Nothing,
            )),
        item_start(lesson.next(), ns[n / 240 + 2], acts[n / 240 + 2]),
{
    lemma_declared_length_is_whole_content(video_page, decimal_digits(n as nat));
    lemma_decimal_round_trip(n);
    lemma_reports_cover_video(lesson, link_seq, video_page, n, es, ns, acts);
    assert(interval() =~= "240"@) by {
        reveal_strlit("240");
        reveal_with_fuel(decimal_digits, 3);
    }
}

/// Marking as watched asks for the descriptions of the view form's items in
/// turn: every description request names the item that the run is then
/// on; the run starts on the first item of the view form, and after an
/// item's last report it moves to the item right after it.
pub proof fn lemma_view_items_in_turn(s: StageView, e: Event, next: Option<StageView>, a: ActionView)
    requires
        steps(s, e, next, a),
        next matches Some(StageView::AwaitNavi { .. }),
    ensures
        next matches Some(StageView::AwaitNavi { lesson: l }) && {
            &&& a == crate::handlers::video::item_request(
                l.cookie,
                l.week,
                l.items[l.index],
                l.subject_id,
            )
            &&& s matches StageView::AwaitViewForm { cookie, subject_id, week } ==> (
            e matches Event::Response(r) && l == (LessonView {
                cookie,
                subject_id,
                week,
                items: items_in(r.body@),
                index: 0,
            }))
            &&& s matches StageView::AwaitView { lesson: l0, remaining, .. } ==> (remaining == 0
                && l == (LessonView { index: l0.index + 1, ..l0 }))
        },
{
}

/// Marking as watched opens the week that the connect page links to.
pub proof fn lemma_view_opens_the_linked_week(
    cookie: Seq<char>,
    subject_id: Seq<char>,
    resp: FetchedResponse,
    next: Option<StageView>,
    a: ActionView,
)
    requires
        steps(StageView::AwaitConnect { cookie, subject_id }, Event::Response(resp), next, a),
        next is Some,
    ensures
        week_in(resp.body@) matches Some(w) && next == Some(
            StageView::AwaitViewForm { cookie, subject_id, week: w },
        ) && a == ActionView::Send(
            view_form::view_form_request(cookie, Some("lecture_weeks="@ + w)),
            ReadAs::Text,
        ),
{
}

/// Starts work on the run's current item, or hands over to the lecture list
/// past the last one.
fn start_item(lesson: Lesson) -> (r: (Option<Stage>, Action))
    requires
        lesson@.index <= lesson@.items.len(),
    ensures
        item_start(lesson@, stage_view(r.0), r.1@),
        r.0 matches Some(s) ==> wf(s@),
{
    if lesson.index < lesson.items.len() {
        let body = navi_form(
            lesson.week.as_str(),
            lesson.items[lesson.index].as_str(),
            lesson.subject_id.as_str(),
        );
        let request = navi::request(lesson.cookie.as_str(), Some(body));
        (Some(Stage::AwaitNavi { lesson }), Action::Send(request, ReadAs::Navi))
    } else {
        let (l, a) = lectures::handle(Some(lesson.cookie));
        let l = l.unwrap();
        let r = (Some(Stage::Lectures(l)), a);
        assert(lectures::begins(lesson@.cookie, Some(l@), a@));
        r
    }
}

/// Starts marking as watched for the client's form (when it parsed) and
/// session cookie.
pub fn handle(form: Option<ViewRequestData>, cookie: Option<String>) -> (r: (Option<Stage>, Action))
    ensures
        begins(form, cookie, stage_view(r.0), r.1@),
        r.0 matches Some(s) ==> wf(s@),
{
    let form = match form {
        Some(f) => f,
        None => return (None, fail(INVALID_REQUEST_BODY, 404)),
    };
    let params = form.to_connect_params();
    let cookie = match cookie {
        Some(c) => c,
        None => return (None, fail(NO_CREDENTIALS, 401)),
    };
    let request = connect::request(params.as_str(), cookie.as_str());
    let ViewRequestData { subject_id, sequence: _ } = form;
    (Some(Stage::AwaitConnect { cookie, subject_id }), Action::Send(request, ReadAs::Text))
}

impl Stage {
    /// Whether this stage waits for `e`.
    pub fn accepts(&self, e: &Event) -> (r: bool)
        ensures
            r == accepts(self@, *e),
    {
        match self {
            Stage::AwaitNavi { .. } => matches!(e, Event::Navi(_)),
            Stage::AwaitHistory { .. } => matches!(e, Event::History(_)),
            _ => matches!(e, Event::Response(_)),
        }
    }

    /// Takes what came back for the last request.
    pub fn step(self, e: Event) -> (r: (Option<Stage>, Action))
        requires
            wf(self@),
            accepts(self@, e),
            !(self@ is Lectures),
        ensures
            steps(self@, e, stage_view(r.0), r.1@),
            r.0 matches Some(s) ==> wf(s@),
    {
        match (self, e) {
            (Stage::AwaitConnect { cookie, subject_id }, Event::Response(resp)) => {
                if !resp.ok() {
                    return (None, fail(CONNECT_PAGE_UNAVAILABLE, 503));
                }
                if pattern::compile(WEEK_PATTERN).is_err() {
                    return (None, Action::Abort(Fault::PatternRefused));
                }
                let week = match extract_week(resp.body.as_str()) {
                    Some(w) => w,
                    None => return (None, fail(PARSE_ERROR, 500)),
                };
                let request = view_form::request(cookie.as_str(), Some(week_form(week.as_str())));
                (
                    Some(Stage::AwaitViewForm { cookie, subject_id, week }),
                    Action::Send(request, ReadAs::Text),
                )
            },
            (Stage::AwaitViewForm { cookie, subject_id, week }, Event::Response(resp)) => {
                if !resp.ok() {
                    return (None, fail(VIEW_FORM_UNAVAILABLE, 503));
                }
                let items = match try_extract_items(resp.body.as_str()) {
                    Ok(items) => items,
                    Err(f) => return (None, Action::Abort(f)),
                };
                start_item(Lesson { cookie, subject_id, week, items, index: 0 })
            },
            (Stage::AwaitNavi { lesson }, Event::Navi(n)) => {
                let request = video::request(n.path.as_str());
                (
                    Some(Stage::AwaitVideo { lesson, link_seq: n.link_seq }),
                    Action::Send(request, ReadAs::Text),
                )
            },
            (Stage::AwaitVideo { lesson, link_seq }, Event::Response(resp)) => {
                let interval = decimal_text(INTERVAL_TIME);
                let body = history_form(
                    lesson.week.as_str(),
                    lesson.subject_id.as_str(),
                    interval.as_str(),
                );
                let request = history::request(lesson.cookie.as_str(), Some(body));
                (
                    Some(Stage::AwaitHistory { lesson, link_seq, video_page: resp.body }),
                    Action::Send(request, ReadAs::History),
                )
            },
            (Stage::AwaitHistory { lesson, link_seq, video_page }, Event::History(h)) => {
                let interval = decimal_text(INTERVAL_TIME);
                let body = view_form_text(
                    lesson.week.as_str(),
                    link_seq.as_str(),
                    h.his_no.as_str(),
                    lesson.subject_id.as_str(),
                    interval.as_str(),
                );
                let duration = match extract_video_duration(video_page.as_str()) {
                    Some(d) => d,
                    None => return (None, Action::Abort(Fault::MissingDuration)),
                };
                let remaining = get_fetch_counts(duration) - 1;
                let request = view::request(lesson.cookie.as_str(), Some(body.clone()));
                let next = Stage::AwaitView { lesson, view_body: body, remaining };
                (Some(next), Action::Send(request, ReadAs::Nothing))
            },
            (Stage::AwaitView { lesson, view_body, remaining }, Event::Response(_)) => {
                if remaining > 0 {
                    let request = view::request(lesson.cookie.as_str(), Some(view_body.clone()));
                    (
                        Some(Stage::AwaitView { lesson, view_body, remaining: remaining - 1 }),
                        Action::Send(request, ReadAs::Nothing),
                    )
                } else {
                    start_item(lesson.advance())
                }
            },
            (_, _) => (None, Action::Abort(Fault::MissingDuration)),
        }
    }
}

} // verus!
