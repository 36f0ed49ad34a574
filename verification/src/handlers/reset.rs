//! Resetting a lecture's viewing time: for each lesson item of the week,
//! reads how far the video was watched from the lecture list and reports
//! that much time back, then answers with the lecture list.

use vstd::prelude::*;
use crate::clients::{connect, history, list, navi, view, view_form};
use crate::exchange::{error_action, fail, Action, ActionView, Event, Fault, ReadAs};
use crate::handler::lectures;
use crate::handler::error_messages::{
    CONNECT_PAGE_UNAVAILABLE, INVALID_REQUEST_BODY, LIST_PAGE_UNAVAILABLE, NO_CREDENTIALS,
    PARSE_ERROR, VIEW_FORM_UNAVAILABLE,
};
use crate::handlers::{
    history_form, history_form_spec, navi_form, navi_form_spec, negated_decimal_text, view_form as
    view_form_text, view_form_spec, week_form, week_form_spec, Lesson, LessonView,
};
use crate::models::view_request_data::ViewRequestData;
use crate::pattern::{
    self, group, group_in, group_spec, groups_view, regex_accepts, regex_captures,
    regex_captures_all, Pattern,
};
use crate::text::{
    chars_of, decimal_digits, parse_u32, parse_u32_spec, push_str, split_chars, split_spec,
    string_from_chars,
};
use crate::utils::{is_success, FetchedResponse};

verus! {

/// Matches a lesson item on the view form and captures its identifier.
pub const ITEM_PATTERN: &'static str = "<div class=\"item-title-lesson.*val=\"([^\\^]*)";

/// The part of the duration pattern that comes before the item identifier.
pub const DURATION_PATTERN_HEAD: &'static str = "(?s)";

/// The part of the duration pattern that comes after the item identifier:
/// the watched time, then ` / ` and the full length, closing a `div`.
pub const DURATION_PATTERN_TAIL: &'static str = ".*?([0-9:]{4,})\\s\\/\\s[0-9:]{4,}<\\/div>";

/// Group 1 of each match that has it, in order.
pub open spec fn present_groups(matches: Seq<Seq<Option<Seq<char>>>>) -> Seq<Seq<char>>
    decreases matches.len(),
{
    if matches.len() == 0 {
        Seq::empty()
    } else {
        let rest = present_groups(matches.drop_last());
        match group_spec(Some(matches.last()), 1) {
            Some(t) => rest.push(t),
            None => rest,
        }
    }
}

/// The identifiers of the lesson items on a view form.
pub open spec fn items_in(body: Seq<char>) -> Seq<Seq<char>> {
    present_groups(regex_captures_all(ITEM_PATTERN@, body))
}

/// The identifiers of the lesson items on a view form, in order.
pub fn extract_items(body: &str) -> (r: Vec<String>)
    requires
        regex_accepts(ITEM_PATTERN@),
    ensures
        r@.map_values(|t: String| t@) == items_in(body@),
{
    let mut out: Vec<String> = Vec::new();
    let p = match pattern::compile(ITEM_PATTERN) {
        Ok(p) => p,
        Err(_) => return out,
    };
    let all = pattern::captures_all(&p, body);
    let ghost views = all@.map_values(|g: Vec<Option<String>>| groups_view(g));
    let n = all.len();
    let mut k: usize = 0;
    while k < n
        invariant
            k <= n,
            n == all@.len(),
            views == all@.map_values(|g: Vec<Option<String>>| groups_view(g)),
            out@.map_values(|t: String| t@) == present_groups(views.take(k as int)),
        decreases n - k,
    {
        let g = group_in(&all[k], 1);
        proof {
            assert(views.take(k + 1).drop_last() =~= views.take(k as int));
            assert(views.take(k + 1).last() == groups_view(all@[k as int]));
        }
        match g {
            Some(t) => {
                out.push(t);
                assert(out@.map_values(|t: String| t@) =~= present_groups(views.take(k + 1)));
            },
            None => {},
        }
        k = k + 1;
    }
    assert(views.take(n as int) =~= views);
    out
}

/// The identifiers of the lesson items on a view form, or why they cannot
/// be found.
pub fn try_extract_items(body: &str) -> (r: Result<Vec<String>, Fault>)
    ensures
        !regex_accepts(ITEM_PATTERN@) ==> r == Err::<Vec<String>, Fault>(Fault::PatternRefused),
        regex_accepts(ITEM_PATTERN@) ==> r is Ok,
        r matches Ok(items) ==> items@.map_values(|t: String| t@) == items_in(body@),
{
    if pattern::compile(ITEM_PATTERN).is_err() {
        return Err(Fault::PatternRefused);
    }
    Ok(extract_items(body))
}

/// The number of seconds that a `h:m:s` or `m:s` time denotes, when every
/// field parses.
pub open spec fn time_seconds(s: Seq<char>) -> Option<int> {
    let parts = split_spec(s, ':');
    if parts.len() == 3 && parse_u32_spec(parts[0]) is Some && parse_u32_spec(parts[1]) is Some
        && parse_u32_spec(parts[2]) is Some {
        Some(
            parse_u32_spec(parts[0])->0 * 3600 + parse_u32_spec(parts[1])->0 * 60 + parse_u32_spec(
                parts[2],
            )->0,
        )
    } else if parts.len() == 2 && parse_u32_spec(parts[0]) is Some && parse_u32_spec(parts[1]) is Some {
        Some(parse_u32_spec(parts[0])->0 * 60 + parse_u32_spec(parts[1])->0)
    } else {
        None
    }
}

/// The value of a `h:m:s` or `m:s` time in seconds, computed without bound.
pub fn time_seconds_wide(time: &str) -> (r: Option<u64>)
    ensures
        r is Some <==> time_seconds(time@) is Some,
        r matches Some(v) ==> v == time_seconds(time@)->0,
{
    let cs = chars_of(time);
    let parts = split_chars(&cs, ':');
    let ghost sp = split_spec(time@, ':');
    if parts.len() == 3 {
        let h = parse_u32(&parts[0]);
        let m = parse_u32(&parts[1]);
        let sec = parse_u32(&parts[2]);
        assert(parts@[0]@ == sp[0] && parts@[1]@ == sp[1] && parts@[2]@ == sp[2]);
        match (h, m, sec) {
            (Some(h), Some(m), Some(sec)) => Some(h as u64 * 3600 + m as u64 * 60 + sec as u64),
            _ => None,
        }
    } else if parts.len() == 2 {
        let m = parse_u32(&parts[0]);
        let sec = parse_u32(&parts[1]);
        assert(parts@[0]@ == sp[0] && parts@[1]@ == sp[1]);
        match (m, sec) {
            (Some(m), Some(sec)) => Some(m as u64 * 60 + sec as u64),
            _ => None,
        }
    } else {
        None
    }
}

/// Parses a `h:m:s` or `m:s` time into seconds. The sum must fit in 32
/// bits, as the arithmetic does not wrap.
pub fn parse_time(time: &str) -> (r: Option<u32>)
    requires
        time_seconds(time@) matches Some(v) ==> v <= u32::MAX,
    ensures
        r is Some <==> time_seconds(time@) is Some,
        r matches Some(v) ==> v == time_seconds(time@)->0,
{
    match time_seconds_wide(time) {
        Some(v) => Some(v as u32),
        None => None,
    }
}

/// The pattern that finds an item's watched time on the lecture list:
/// `(?s){item_id}` and then the tail.
pub open spec fn duration_pattern(item_id: Seq<char>) -> Seq<char> {
    DURATION_PATTERN_HEAD@ + item_id + DURATION_PATTERN_TAIL@
}

/// The watched time that the lecture list shows for an item.
pub open spec fn listed_time(item_id: Seq<char>, body: Seq<char>) -> Option<Seq<char>> {
    group_spec(regex_captures(duration_pattern(item_id), body), 1)
}

/// The watched time that the lecture list shows for an item, in seconds.
pub open spec fn listed_duration(item_id: Seq<char>, body: Seq<char>) -> Option<int> {
    match listed_time(item_id, body) {
        Some(t) => time_seconds(t),
        None => None,
    }
}

/// The duration pattern for an item.
pub fn duration_pattern_text(item_id: &str) -> (r: String)
    ensures
        r@ == duration_pattern(item_id@),
{
    let mut out: Vec<char> = Vec::new();
    push_str(&mut out, DURATION_PATTERN_HEAD);
    push_str(&mut out, item_id);
    push_str(&mut out, DURATION_PATTERN_TAIL);
    string_from_chars(out.as_slice())
}

/// The watched time, as text, that the lecture list shows for an item,
/// found with the item's compiled duration pattern.
fn listed_time_with(p: &Pattern, item_id: &str, body: &str) -> (r: Option<String>)
    requires
        p@ == duration_pattern(item_id@),
    ensures
        r matches Some(t) ==> listed_time(item_id@, body@) == Some(t@),
        r is None ==> listed_time(item_id@, body@) is None,
{
    let c = pattern::captures(p, body);
    group(&c, 1)
}

/// The watched time that the lecture list shows for an item, in seconds.
/// The item identifier is part of the pattern, so the pattern must compile,
/// and the time must fit in 32 bits.
pub fn extract_video_duration(item_id: &str, body: &str) -> (r: Option<u32>)
    requires
        regex_accepts(duration_pattern(item_id@)),
        listed_duration(item_id@, body@) matches Some(v) ==> v <= u32::MAX,
    ensures
        r is Some <==> listed_duration(item_id@, body@) is Some,
        r matches Some(v) ==> v == listed_duration(item_id@, body@)->0,
{
    let source = duration_pattern_text(item_id);
    let p = match pattern::compile(source.as_str()) {
        Ok(p) => p,
        Err(_) => return None,
    };
    match listed_time_with(&p, item_id, body) {
        Some(t) => parse_time(t.as_str()),
        None => None,
    }
}

/// The watched time that the lecture list shows for an item, in seconds, or
/// why it cannot be read.
pub fn try_extract_video_duration(item_id: &str, body: &str) -> (r: Result<Option<u32>, Fault>)
    ensures
        !regex_accepts(duration_pattern(item_id@)) ==> r == Err::<Option<u32>, Fault>(
            Fault::PatternRefused,
        ),
        regex_accepts(duration_pattern(item_id@)) ==> match listed_duration(item_id@, body@) {
            None => r == Ok::<Option<u32>, Fault>(None),
            Some(v) => if v <= u32::MAX {
                r == Ok::<Option<u32>, Fault>(Some(v as u32))
            } else {
                r == Err::<Option<u32>, Fault>(Fault::TimeOverflow)
            },
        },
{
    let source = duration_pattern_text(item_id);
    let p = match pattern::compile(source.as_str()) {
        Ok(p) => p,
        Err(_) => return Err(Fault::PatternRefused),
    };
    match listed_time_with(&p, item_id, body) {
        None => Ok(None),
        Some(t) => match time_seconds_wide(t.as_str()) {
            None => Ok(None),
            Some(v) => if v > 4294967295 {
                Err(Fault::TimeOverflow)
            } else {
                Ok(Some(v as u32))
            },
        },
    }
}

/// Where a reset stands.
pub enum Stage {
    /// The lecture's week was opened.
    AwaitConnect { cookie: String, subject_id: String, sequence: String },
    /// The week's view form was requested.
    AwaitViewForm { cookie: String, subject_id: String, sequence: String },
    /// The current item's description was requested.
    AwaitNavi { lesson: Lesson },
    /// The lecture list was requested, to read the item's watched time.
    AwaitList { lesson: Lesson, link_seq: String },
    /// A viewing history entry was requested.
    AwaitHistory { lesson: Lesson, link_seq: String, duration: u32 },
    /// The viewing time was reported once.
    AwaitFirstView { lesson: Lesson, view_body: String },
    /// The viewing time was reported twice.
    AwaitSecondView { lesson: Lesson },
    /// Every item is done; the lecture list answers.
    Lectures(lectures::Stage),
}

/// Where a reset stands, by value.
pub enum StageView {
    AwaitConnect { cookie: Seq<char>, subject_id: Seq<char>, sequence: Seq<char> },
    AwaitViewForm { cookie: Seq<char>, subject_id: Seq<char>, sequence: Seq<char> },
    AwaitNavi { lesson: LessonView },
    AwaitList { lesson: LessonView, link_seq: Seq<char> },
    AwaitHistory { lesson: LessonView, link_seq: Seq<char>, duration: u32 },
    AwaitFirstView { lesson: LessonView, view_body: Seq<char> },
    AwaitSecondView { lesson: LessonView },
    Lectures(lectures::StageView),
}

impl View for Stage {
    type V = StageView;

    open spec fn view(&self) -> StageView {
        match self {
            Stage::AwaitConnect { cookie, subject_id, sequence } => StageView::AwaitConnect {
                cookie: cookie@,
                subject_id: subject_id@,
                sequence: sequence@,
            },
            Stage::AwaitViewForm { cookie, subject_id, sequence } => StageView::AwaitViewForm {
                cookie: cookie@,
                subject_id: subject_id@,
                sequence: sequence@,
            },
            Stage::AwaitNavi { lesson } => StageView::AwaitNavi { lesson: lesson@ },
            Stage::AwaitList { lesson, link_seq } => StageView::AwaitList {
                lesson: lesson@,
                link_seq: link_seq@,
            },
            Stage::AwaitHistory { lesson, link_seq, duration } => StageView::AwaitHistory {
                lesson: lesson@,
                link_seq: link_seq@,
                duration: *duration,
            },
            Stage::AwaitFirstView { lesson, view_body } => StageView::AwaitFirstView {
                lesson: lesson@,
                view_body: view_body@,
            },
            Stage::AwaitSecondView { lesson } => StageView::AwaitSecondView { lesson: lesson@ },
            Stage::Lectures(l) => StageView::Lectures(l@),
        }
    }
}

/// An optional stage, by value.
pub open spec fn stage_view(s: Option<Stage>) -> Option<StageView> {
    match s {
        Some(t) => Some(t@),
        None => None,
    }
}

/// The stages that work on an item are on one of the run's items.
pub open spec fn wf(s: StageView) -> bool {
    match s {
        StageView::AwaitNavi { lesson } => lesson.on_item(),
        StageView::AwaitList { lesson, .. } => lesson.on_item(),
        StageView::AwaitHistory { lesson, .. } => lesson.on_item(),
        StageView::AwaitFirstView { lesson, .. } => lesson.on_item(),
        StageView::AwaitSecondView { lesson } => lesson.on_item(),
        _ => true,
    }
}

/// The event that stage `s` waits for.
pub open spec fn accepts(s: StageView, e: Event) -> bool {
    match s {
        StageView::AwaitNavi { .. } => e is Navi,
        StageView::AwaitHistory { .. } => e is History,
        _ => e is Response,
    }
}

/// The error reply that ends a reset.
pub open spec fn ends_with(next: Option<StageView>, a: ActionView, message: Seq<char>, status: u16) -> bool {
    next is None && a == error_action(message, status)
}

/// Work on the run's current item starts with its description; past the
/// last item, the lecture list takes over.
pub open spec fn item_start(lesson: LessonView, next: Option<StageView>, a: ActionView) -> bool {
    if lesson.on_item() {
        &&& next == Some(StageView::AwaitNavi { lesson })
        &&& a == ActionView::Send(
            navi::navi_request(
                lesson.cookie,
                Some(navi_form_spec(lesson.week, lesson.item(), lesson.subject_id)),
            ),
            ReadAs::Navi,
        )
    } else {
        exists|l: Option<lectures::StageView>|
            lectures::begins(lesson.cookie, l, a) && next == Some(StageView::Lectures(l->0))
    }
}

/// How a reset starts, given the client's form (when it parsed) and
/// session cookie.
pub open spec fn begins(
    form: Option<ViewRequestData>,
    cookie: Option<String>,
    next: Option<StageView>,
    a: ActionView,
) -> bool {
    match form {
        None => ends_with(next, a, INVALID_REQUEST_BODY@, 400),
        Some(f) => match cookie {
            None => ends_with(next, a, NO_CREDENTIALS@, 401),
            Some(c) => {
                &&& next == Some(
                    StageView::AwaitConnect {
                        cookie: c@,
                        subject_id: f.subject_id@,
                        sequence: f.sequence@,
                    },
                )
                &&& a == ActionView::Send(
                    connect::connect_request(f.connect_params(), c@),
                    ReadAs::Status,
                )
            },
        },
    }
}

/// The reported interval for a watched time: its negated number of
/// seconds.
pub open spec fn interval_of(duration: u32) -> Seq<char> {
    "-"@ + decimal_digits(duration as nat)
}

/// A reset goes from stage `s`, on event `e`, to stage `next` with action
/// `a`.
pub open spec fn steps(s: StageView, e: Event, next: Option<StageView>, a: ActionView) -> bool {
    match (s, e) {
        (StageView::AwaitConnect { cookie, subject_id, sequence }, Event::Response(resp)) => {
            if !is_success(resp.status) {
                ends_with(next, a, CONNECT_PAGE_UNAVAILABLE@, 503)
            } else {
                &&& next == Some(StageView::AwaitViewForm { cookie, subject_id, sequence })
                &&& a == ActionView::Send(
                    view_form::view_form_request(cookie, Some(week_form_spec(sequence))),
                    ReadAs::Text,
                )
            }
        },
        (StageView::AwaitViewForm { cookie, subject_id, sequence }, Event::Response(resp)) => {
            if !is_success(resp.status) {
                ends_with(next, a, VIEW_FORM_UNAVAILABLE@, 503)
            } else if !regex_accepts(ITEM_PATTERN@) {
                next is None && a == ActionView::Abort(Fault::PatternRefused)
            } else {
                item_start(
                    LessonView {
                        cookie,
                        subject_id,
                        week: sequence,
                        items: items_in(resp.body@),
                        index: 0,
                    },
                    next,
                    a,
                )
            }
        },
        (StageView::AwaitNavi { lesson }, Event::Navi(n)) => {
            &&& next == Some(StageView::AwaitList { lesson, link_seq: n.link_seq@ })
            &&& a == ActionView::Send(list::list_request(lesson.cookie), ReadAs::Text)
        },
        (StageView::AwaitList { lesson, link_seq }, Event::Response(resp)) => {
            if !is_success(resp.status) {
                ends_with(next, a, LIST_PAGE_UNAVAILABLE@, 503)
            } else if !regex_accepts(duration_pattern(lesson.item())) {
                next is None && a == ActionView::Abort(Fault::PatternRefused)
            } else {
                match listed_duration(lesson.item(), resp.body@) {
                    None => ends_with(next, a, PARSE_ERROR@, 500),
                    Some(v) => if v > u32::MAX {
                        next is None && a == ActionView::Abort(Fault::TimeOverflow)
                    } else {
                        &&& next == Some(
                            StageView::AwaitHistory { lesson, link_seq, duration: v as u32 },
                        )
                        &&& a == ActionView::Send(
                            history::history_request(
                                lesson.cookie,
                                Some(
                                    history_form_spec(
                                        lesson.week,
                                        lesson.subject_id,
                                        interval_of(v as u32),
                                    ),
                                ),
                            ),
                            ReadAs::History,
                        )
                    },
                }
            }
        },
        (StageView::AwaitHistory { lesson, link_seq, duration }, Event::History(h)) => {
            let body = view_form_spec(
                lesson.week,
                link_seq,
                h.his_no@,
                lesson.subject_id,
                interval_of(duration),
            );
            &&& next == Some(StageView::AwaitFirstView { lesson, view_body: body })
            &&& a == ActionView::Send(view::view_request(lesson.cookie, Some(body)), ReadAs::Nothing)
        },
        (StageView::AwaitFirstView { lesson, view_body }, Event::Response(_)) => {
            &&& next == Some(StageView::AwaitSecondView { lesson })
            &&& a == ActionView::Send(
                view::view_request(lesson.cookie, Some(view_body)),
                ReadAs::Nothing,
            )
        },
        (StageView::AwaitSecondView { lesson }, Event::Response(_)) => item_start(
            lesson.next(),
            next,
            a,
        ),
        _ => false,
    }
}

/// Starts work on the run's current item, or hands over to the lecture list
/// past the last one.
fn start_item(lesson: Lesson) -> (r: (Option<Stage>, Action))
    requires
        lesson@.index <= lesson@.items.len(),
    ensures
        item_start(lesson@, stage_view(r.0), r.1@),
        r.0 matches Some(s) ==> wf(s@),
{
    if lesson.index < lesson.items.len() {
        let body = navi_form(
            lesson.week.as_str(),
            lesson.items[lesson.index].as_str(),
            lesson.subject_id.as_str(),
        );
        let request = navi::request(lesson.cookie.as_str(), Some(body));
        (Some(Stage::AwaitNavi { lesson }), Action::Send(request, ReadAs::Navi))
    } else {
        let (l, a) = lectures::handle(Some(lesson.cookie));
        let l = l.unwrap();
        let r = (Some(Stage::Lectures(l)), a);
        assert(lectures::begins(lesson@.cookie, Some(l@), a@));
        r
    }
}

/// Starts a reset for the client's form (when it parsed) and session cookie.
pub fn handle(form: Option<ViewRequestData>, cookie: Option<String>) -> (r: (Option<Stage>, Action))
    ensures
        begins(form, cookie, stage_view(r.0), r.1@),
        r.0 matches Some(s) ==> wf(s@),
{
    let form = match form {
        Some(f) => f,
        None => return (None, fail(INVALID_REQUEST_BODY, 400)),
    };
    let params = form.to_connect_params();
    let cookie = match cookie {
        Some(c) => c,
        None => return (None, fail(NO_CREDENTIALS, 401)),
    };
    let request = connect::request(params.as_str(), cookie.as_str());
    let ViewRequestData { subject_id, sequence } = form;
    (Some(Stage::AwaitConnect { cookie, subject_id, sequence }), Action::Send(request, ReadAs::Status))
}

impl Stage {
    /// Whether this stage waits for `e`.
    pub fn accepts(&self, e: &Event) -> (r: bool)
        ensures
            r == accepts(self@, *e),
    {
        match self {
            Stage::AwaitNavi { .. } => matches!(e, Event::Navi(_)),
            Stage::AwaitHistory { .. } => matches!(e, Event::History(_)),
            _ => matches!(e, Event::Response(_)),
        }
    }

    /// Takes what came back for the last request.
    pub fn step(self, e: Event) -> (r: (Option<Stage>, Action))
        requires
            wf(self@),
            accepts(self@, e),
            !(self@ is Lectures),
        ensures
            steps(self@, e, stage_view(r.0), r.1@),
            r.0 matches Some(s) ==> wf(s@),
    {
        match (self, e) {
            (Stage::AwaitConnect { cookie, subject_id, sequence }, Event::Response(resp)) => {
                if !resp.ok() {
                    return (None, fail(CONNECT_PAGE_UNAVAILABLE, 503));
                }
                let request = view_form::request(
                    cookie.as_str(),
                    Some(week_form(sequence.as_str())),
                );
                (
                    Some(Stage::AwaitViewForm { cookie, subject_id, sequence }),
                    Action::Send(request, ReadAs::Text),
                )
            },
            (Stage::AwaitViewForm { cookie, subject_id, sequence }, Event::Response(resp)) => {
                if !resp.ok() {
                    return (None, fail(VIEW_FORM_UNAVAILABLE, 503));
                }
                let items = match try_extract_items(resp.body.as_str()) {
                    Ok(items) => items,
                    Err(f) => return (None, Action::Abort(f)),
                };
                let lesson = Lesson { cookie, subject_id, week: sequence, items, index: 0 };
                start_item(lesson)
            },
            (Stage::AwaitNavi { lesson }, Event::Navi(n)) => {
                let request = list::request(lesson.cookie.as_str());
                (
                    Some(Stage::AwaitList { lesson, link_seq: n.link_seq }),
                    Action::Send(request, ReadAs::Text),
                )
            },
            (Stage::AwaitList { lesson, link_seq }, Event::Response(resp)) => {
                if !resp.ok() {
                    return (None, fail(LIST_PAGE_UNAVAILABLE, 503));
                }
                let item = &lesson.items[lesson.index];
                let duration = match try_extract_video_duration(item.as_str(), resp.body.as_str()) {
                    Err(f) => return (None, Action::Abort(f)),
                    Ok(None) => return (None, fail(PARSE_ERROR, 500)),
                    Ok(Some(d)) => d,
                };
                let interval = negated_decimal_text(duration);
                let body = history_form(
                    lesson.week.as_str(),
                    lesson.subject_id.as_str(),
                    interval.as_str(),
                );
                let request = history::request(lesson.cookie.as_str(), Some(body));
                (
                    Some(Stage::AwaitHistory { lesson, link_seq, duration }),
                    Action::Send(request, ReadAs::History),
                )
            },
            (Stage::AwaitHistory { lesson, link_seq, duration }, Event::History(h)) => {
                let interval = negated_decimal_text(duration);
                let body = view_form_text(
                    lesson.week.as_str(),
                    link_seq.as_str(),
                    h.his_no.as_str(),
                    lesson.subject_id.as_str(),
                    interval.as_str(),
                );
                let request = view::request(lesson.cookie.as_str(), Some(body.clone()));
                (
                    Some(Stage::AwaitFirstView { lesson, view_body: body }),
                    Action::Send(request, ReadAs::Nothing),
                )
            },
            (Stage::AwaitFirstView { lesson, view_body }, Event::Response(_)) => {
                let request = view::request(lesson.cookie.as_str(), Some(view_body));
                (Some(Stage::AwaitSecondView { lesson }), Action::Send(request, ReadAs::Nothing))
            },
            (Stage::AwaitSecondView { lesson }, Event::Response(_)) => start_item(lesson.advance()),
            (_, _) => (None, Action::Abort(Fault::PatternRefused)),
        }
    }
}

/// Once the connect page answers with success, a reset asks for the view
/// form of the week that the client named: the form's `sequence`, as
/// `lecture_weeks={sequence}`.
pub proof fn lemma_reset_opens_the_named_week(
    form: ViewRequestData,
    cookie: String,
    next: Option<StageView>,
    a: ActionView,
    resp: FetchedResponse,
    after: Option<StageView>,
    b: ActionView,
)
    requires
        begins(Some(form), Some(cookie), next, a),
        next matches Some(s) && steps(s, Event::Response(resp), after, b),
        is_success(resp.status),
    ensures
        b == ActionView::Send(
            view_form::view_form_request(cookie@, Some("lecture_weeks="@ + form.sequence@)),
            ReadAs::Text,
        ),
{
}

/// A reset asks for the descriptions of the view form's items in turn:
/// every description request names the item that the run is then on; the
/// run starts on the first item of the view form, and after an item's
/// second report it moves to the item right after it.
pub proof fn lemma_reset_items_in_turn(s: StageView, e: Event, next: Option<StageView>, a: ActionView)
    requires
        steps(s, e, next, a),
        next matches Some(StageView::AwaitNavi { .. }),
    ensures
        next matches Some(StageView::AwaitNavi { lesson: l }) && {
            &&& a == crate::handlers::video::item_request(
                l.cookie,
                l.week,
                l.items[l.index],
                l.subject_id,
            )
            &&& s matches StageView::AwaitViewForm { cookie, subject_id, sequence } ==> (
            e matches Event::Response(r) && l == (LessonView {
                cookie,
                subject_id,
                week: sequence,
                items: items_in(r.body@),
                index: 0,
            }))
            &&& s matches StageView::AwaitSecondView { lesson: l0 } ==> l == (LessonView {
                index: l0.index + 1,
                ..l0
            })
        },
{
}

/// The watched time that a reset reads from the lecture list, and reports
/// back negated, is that of the item the run is on.
pub proof fn lemma_reset_reads_the_current_item(
    lesson: LessonView,
    link_seq: Seq<char>,
    resp: FetchedResponse,
    next: Option<StageView>,
    a: ActionView,
)
    requires
        steps(StageView::AwaitList { lesson, link_seq }, Event::Response(resp), next, a),
        next matches Some(StageView::AwaitHistory { .. }),
    ensures
        next matches Some(StageView::AwaitHistory { lesson: l, link_seq: k, duration }) && {
            &&& l == lesson
            &&& k == link_seq
            &&& listed_duration(lesson.items[lesson.index], resp.body@) == Some(duration as int)
            &&& a == ActionView::Send(
                history::history_request(
                    lesson.cookie,
                    Some(
                        "lecture_weeks="@ + lesson.week + "&kjkey="@ + lesson.subject_id + "&ky="@
                            + lesson.subject_id + "&interval_time="@ + ("-"@ + decimal_digits(
                            duration as nat,
                        )),
                    ),
                ),
                ReadAs::History,
            )
        },
{
}

} // verus!
