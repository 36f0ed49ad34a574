//! Video addresses: for each lesson item of a lecture's week, reads where
//! its video is stored and answers with the public addresses of the videos.

use vstd::prelude::*;
use crate::clients::{connect, navi, view_form};
use crate::exchange::{
    error_action, fail, Action, ActionView, Event, Fault, ReadAs, Reply, ReplyBody,
    ReplyBodyView, ReplyView,
};
use crate::handler::error_messages::{
    CONNECT_PAGE_UNAVAILABLE, INVALID_REQUEST_BODY, NO_CREDENTIALS, VIEW_FORM_UNAVAILABLE,
};
use crate::handlers::reset::{items_in, try_extract_items, ITEM_PATTERN};
use crate::handlers::{navi_form, navi_form_spec, week_form, week_form_spec, Lesson, LessonView};
use crate::models::video_request_data::VideoRequestData;
use crate::pattern::regex_accepts;
use crate::text::{replace_first, replace_first_spec};
use crate::utils::{is_success, FetchedResponse, HeaderList};

verus! {

/// The prefix of a video path on the site's internal server.
pub const INTERNAL_VIDEO_PREFIX: &'static str = "/http-server";

/// Where the same videos are served publicly.
pub const PUBLIC_VIDEO_BASE: &'static str = "https://vod.pknu.ac.kr/contents";

/// The public address of a video: its path with the internal server prefix
/// replaced, at its first occurrence, by the public base.
pub open spec fn public_address(path: Seq<char>) -> Seq<char> {
    replace_first_spec(path, INTERNAL_VIDEO_PREFIX@, PUBLIC_VIDEO_BASE@)
}

/// The public address of a video stored at `path`.
pub fn public_video_address(path: &str) -> (r: String)
    ensures
        r@ == public_address(path@),
{
    replace_first(path, INTERNAL_VIDEO_PREFIX, PUBLIC_VIDEO_BASE)
}

/// Where collecting video addresses stands.
pub enum Stage {
    /// The lecture's week was opened.
    AwaitConnect { cookie: String, subject_id: String, sequence: String },
    /// The week's view form was requested.
    AwaitViewForm { cookie: String, subject_id: String, sequence: String },
    /// The current item's description was requested; `videos` holds the
    /// addresses found so far.
    AwaitNavi { lesson: Lesson, videos: Vec<String> },
}

/// Where collecting video addresses stands, by value.
pub enum StageView {
    AwaitConnect { cookie: Seq<char>, subject_id: Seq<char>, sequence: Seq<char> },
    AwaitViewForm { cookie: Seq<char>, subject_id: Seq<char>, sequence: Seq<char> },
    AwaitNavi { lesson: LessonView, videos: Seq<Seq<char>> },
}

impl View for Stage {
    type V = StageView;

    open spec fn view(&self) -> StageView {
        match self {
            Stage::AwaitConnect { cookie, subject_id, sequence } => StageView::AwaitConnect {
                cookie: cookie@,
                subject_id: subject_id@,
                sequence: sequence@,
            },
            Stage::AwaitViewForm { cookie, subject_id, sequence } => StageView::AwaitViewForm {
                cookie: cookie@,
                subject_id: subject_id@,
                sequence: sequence@,
            },
            Stage::AwaitNavi { lesson, videos } => StageView::AwaitNavi {
                lesson: lesson@,
                videos: videos@.map_values(|v: String| v@),
            },
        }
    }
}

/// An optional stage, by value.
pub open spec fn stage_view(s: Option<Stage>) -> Option<StageView> {
    match s {
        Some(t) => Some(t@),
        None => None,
    }
}

/// The stage that works on an item is on one of the run's items.
pub open spec fn wf(s: StageView) -> bool {
    match s {
        StageView::AwaitNavi { lesson, .. } => lesson.on_item(),
        _ => true,
    }
}

/// The event that stage `s` waits for.
pub open spec fn accepts(s: StageView, e: Event) -> bool {
    match s {
        StageView::AwaitNavi { .. } => e is Navi,
        _ => e is Response,
    }
}

/// The error reply that ends the exchange.
pub open spec fn ends_with(next: Option<StageView>, a: ActionView, message: Seq<char>, status: u16) -> bool {
    next is None && a == error_action(message, status)
}

/// The reply that lists video addresses.
pub open spec fn videos_reply(videos: Seq<Seq<char>>) -> ReplyView {
    ReplyView { status: 200, headers: Seq::empty(), body: ReplyBodyView::Videos(videos) }
}

/// The current item's description is requested; past the last item, the
/// addresses found are the reply.
pub open spec fn collects(
    lesson: LessonView,
    videos: Seq<Seq<char>>,
    next: Option<StageView>,
    a: ActionView,
) -> bool {
    if lesson.on_item() {
        &&& next == Some(StageView::AwaitNavi { lesson, videos })
        &&& a == ActionView::Send(
            navi::navi_request(
                lesson.cookie,
                Some(navi_form_spec(lesson.week, lesson.item(), lesson.subject_id)),
            ),
            ReadAs::Navi,
        )
    } else {
        next is None && a == ActionView::Reply(videos_reply(videos))
    }
}

/// How collecting starts, given the client's form (when it parsed) and
/// session cookie.
pub open spec fn begins(
    form: Option<VideoRequestData>,
    cookie: Option<String>,
    next: Option<StageView>,
    a: ActionView,
) -> bool {
    match form {
        None => ends_with(next, a, INVALID_REQUEST_BODY@, 400),
        Some(f) => match cookie {
            None => ends_with(next, a, NO_CREDENTIALS@, 401),
            Some(c) => {
                &&& next == Some(
                    StageView::AwaitConnect {
                        cookie: c@,
                        subject_id: f.subject_id@,
                        sequence: f.sequence@,
                    },
                )
                &&& a == ActionView::Send(
                    connect::connect_request(f.connect_params(), c@),
                    ReadAs::Status,
                )
            },
        },
    }
}

/// Collecting goes from stage `s`, on event `e`, to stage `next` with
/// action `a`.
pub open spec fn steps(s: StageView, e: Event, next: Option<StageView>, a: ActionView) -> bool {
    match (s, e) {
        (StageView::AwaitConnect { cookie, subject_id, sequence }, Event::Response(resp)) => {
            if !is_success(resp.status) {
                ends_with(next, a, CONNECT_PAGE_UNAVAILABLE@, 503)
            } else {
                &&& next == Some(StageView::AwaitViewForm { cookie, subject_id, sequence })
                &&& a == ActionView::Send(
                    view_form::view_form_request(cookie, Some(week_form_spec(sequence))),
                    ReadAs::Text,
                )
            }
        },
        (StageView::AwaitViewForm { cookie, subject_id, sequence }, Event::Response(resp)) => {
            if !is_success(resp.status) {
                ends_with(next, a, VIEW_FORM_UNAVAILABLE@, 503)
            } else if !regex_accepts(ITEM_PATTERN@) {
                next is None && a == ActionView::Abort(Fault::PatternRefused)
            } else {
                collects(
                    LessonView {
                        cookie,
                        subject_id,
                        week: sequence,
                        items: items_in(resp.body@),
                        index: 0,
                    },
                    Seq::empty(),
                    next,
                    a,
                )
            }
        },
        (StageView::AwaitNavi { lesson, videos }, Event::Navi(n)) => collects(
            lesson.next(),
            videos.push(public_address(n.path@)),
            next,
            a,
        ),
        _ => false,
    }
}

/// Requests the current item's description, or replies with the addresses
/// past the last item.
fn collect(lesson: Lesson, videos: Vec<String>) -> (r: (Option<Stage>, Action))
    requires
        lesson@.index <= lesson@.items.len(),
    ensures
        collects(lesson@, videos@.map_values(|v: String| v@), stage_view(r.0), r.1@),
        r.0 matches Some(s) ==> wf(s@),
{
    if lesson.index < lesson.items.len() {
        let body = navi_form(
            lesson.week.as_str(),
            lesson.items[lesson.index].as_str(),
            lesson.subject_id.as_str(),
        );
        let request = navi::request(lesson.cookie.as_str(), Some(body));
        (Some(Stage::AwaitNavi { lesson, videos }), Action::Send(request, ReadAs::Navi))
    } else {
        let reply = Reply { status: 200, headers: HeaderList::new(), body: ReplyBody::Videos(videos) };
        (None, Action::Reply(reply))
    }
}

/// Starts collecting video addresses for the client's form (when it parsed)
/// and session cookie.
pub fn handle(form: Option<VideoRequestData>, cookie: Option<String>) -> (r: (Option<Stage>, Action))
    ensures
        begins(form, cookie, stage_view(r.0), r.1@),
        r.0 matches Some(s) ==> wf(s@),
{
    let form = match form {
        Some(f) => f,
        None => return (None, fail(INVALID_REQUEST_BODY, 400)),
    };
    let params = form.to_connect_params();
    let cookie = match cookie {
        Some(c) => c,
        None => return (None, fail(NO_CREDENTIALS, 401)),
    };
    let request = connect::request(params.as_str(), cookie.as_str());
    let VideoRequestData { subject_id, sequence } = form;
    (Some(Stage::AwaitConnect { cookie, subject_id, sequence }), Action::Send(request, ReadAs::Status))
}

impl Stage {
    /// Whether this stage waits for `e`.
    pub fn accepts(&self, e: &Event) -> (r: bool)
        ensures
            r == accepts(self@, *e),
    {
        match self {
            Stage::AwaitNavi { .. } => matches!(e, Event::Navi(_)),
            _ => matches!(e, Event::Response(_)),
        }
    }

    /// Takes what came back for the last request.
    pub fn step(self, e: Event) -> (r: (Option<Stage>, Action))
        requires
            wf(self@),
            accepts(self@, e),
        ensures
            steps(self@, e, stage_view(r.0), r.1@),
            r.0 matches Some(s) ==> wf(s@),
    {
        match (self, e) {
            (Stage::AwaitConnect { cookie, subject_id, sequence }, Event::Response(resp)) => {
                if !resp.ok() {
                    return (None, fail(CONNECT_PAGE_UNAVAILABLE, 503));
                }
                let request = view_form::request(
                    cookie.as_str(),
                    Some(week_form(sequence.as_str())),
                );
                (
                    Some(Stage::AwaitViewForm { cookie, subject_id, sequence }),
                    Action::Send(request, ReadAs::Text),
                )
            },
            (Stage::AwaitViewForm { cookie, subject_id, sequence }, Event::Response(resp)) => {
                if !resp.ok() {
                    return (None, fail(VIEW_FORM_UNAVAILABLE, 503));
                }
                let items = match try_extract_items(resp.body.as_str()) {
                    Ok(items) => items,
                    Err(f) => return (None, Action::Abort(f)),
                };
                let lesson = Lesson { cookie, subject_id, week: sequence, items, index: 0 };
                let videos: Vec<String> = Vec::new();
                assert(videos@.map_values(|v: String| v@) =~= Seq::<Seq<char>>::empty());
                collect(lesson, videos)
            },
            (Stage::AwaitNavi { lesson, videos }, Event::Navi(n)) => {
                let mut videos = videos;
                let ghost before = videos@;
                videos.push(public_video_address(n.path.as_str()));
                assert(videos@.map_values(|v: String| v@) =~= before.map_values(|v: String| v@).push(
                    public_address(n.path@),
                ));
                collect(lesson.advance(), videos)
            },
            (_, _) => (None, Action::Abort(Fault::PatternRefused)),
        }
    }
}

/// Stage `s` takes the events `es`, one step each, through the stages `ns`
/// with the actions `acts`; every stage but the last goes on.
pub open spec fn runs(s: StageView, es: Seq<Event>, ns: Seq<Option<StageView>>, acts: Seq<ActionView>) -> bool
    decreases es.len(),
{
    &&& ns.len() == es.len()
    &&& acts.len() == es.len()
    &&& es.len() > 0 ==> {
        &&& steps(s, es[0], ns[0], acts[0])
        &&& es.len() > 1 ==> (ns[0] matches Some(n) && runs(n, es.drop_first(), ns.drop_first(), acts.drop_first()))
    }
}

/// The request for the description of item `item_id` of week `week` of a
/// subject: `lecture_weeks={week}&item_id={item_id}&ky={subject_id}`.
pub open spec fn item_request(cookie: Seq<char>, week: Seq<char>, item_id: Seq<char>, subject_id: Seq<char>) -> ActionView {
    ActionView::Send(
        navi::navi_request(
            cookie,
            Some("lecture_weeks="@ + week + "&item_id="@ + item_id + "&ky="@ + subject_id),
        ),
        ReadAs::Navi,
    )
}

/// While on item `lesson.index`, each further description that comes back
/// brings the request for the item after it.
pub proof fn lemma_items_in_turn(
    lesson: LessonView,
    videos: Seq<Seq<char>>,
    es: Seq<Event>,
    ns: Seq<Option<StageView>>,
    acts: Seq<ActionView>,
)
    requires
        runs(StageView::AwaitNavi { lesson, videos }, es, ns, acts),
        forall|i: int| 0 <= i < es.len() ==> #[trigger] es[i] is Navi,
        0 <= lesson.index,
        lesson.index + es.len() < lesson.items.len(),
    ensures
        forall|k: int| 0 <= k < es.len() ==> #[trigger] acts[k] == item_request(
            lesson.cookie,
            lesson.week,
            lesson.items[lesson.index + 1 + k],
            lesson.subject_id,
        ),
    decreases es.len(),
{
    if es.len() > 0 {
        assert(es[0] is Navi);
        let n = es[0]->Navi_0;
        let l1 = lesson.next();
        let v1 = videos.push(public_address(n.path@));
        assert(ns[0] == Some(StageView::AwaitNavi { lesson: l1, videos: v1 }));
        if es.len() > 1 {
            assert forall|i: int| 0 <= i < es.drop_first().len() implies #[trigger] es.drop_first()[i] is Navi by {
                assert(es.drop_first()[i] == es[i + 1]);
                assert(es[i + 1] is Navi);
            }
            lemma_items_in_turn(l1, v1, es.drop_first(), ns.drop_first(), acts.drop_first());
        }
        assert forall|k: int| 0 <= k < es.len() implies #[trigger] acts[k] == item_request(
            lesson.cookie,
            lesson.week,
            lesson.items[lesson.index + 1 + k],
            lesson.subject_id,
        ) by {
            if k > 0 {
                assert(acts[k] == acts.drop_first()[k - 1]);
            }
        }
    }
}

/// Once the view form lists the week's items, the `k`-th description
/// requested is that of the `k`-th item, for the week the client named
/// and its subject.
pub proof fn lemma_each_item_is_requested_in_turn(
    cookie: Seq<char>,
    subject_id: Seq<char>,
    sequence: Seq<char>,
    es: Seq<Event>,
    ns: Seq<Option<StageView>>,
    acts: Seq<ActionView>,
)
    requires
        runs(StageView::AwaitViewForm { cookie, subject_id, sequence }, es, ns, acts),
        es.len() > 0,
        es[0] matches Event::Response(resp) && is_success(resp.status),
        regex_accepts(ITEM_PATTERN@),
        forall|i: int| 1 <= i < es.len() ==> #[trigger] es[i] is Navi,
        es[0] matches Event::Response(resp) && es.len() <= items_in(resp.body@).len(),
    ensures
        es[0] matches Event::Response(resp) && forall|k: int|
            0 <= k < es.len() ==> #[trigger] acts[k] == item_request(
                cookie,
                sequence,
                items_in(resp.body@)[k],
                subject_id,
            ),
{
    let resp = es[0]->Response_0;
    let items = items_in(resp.body@);
    let lesson = LessonView { cookie, subject_id, week: sequence, items, index: 0 };
    assert(acts[0] == item_request(cookie, sequence, items[0], subject_id));
    if es.len() > 1 {
        assert(ns[0] == Some(StageView::AwaitNavi { lesson, videos: Seq::empty() }));
        assert forall|i: int| 0 <= i < es.drop_first().len() implies #[trigger] es.drop_first()[i] is Navi by {
            assert(es.drop_first()[i] == es[i + 1]);
            assert(es[i + 1] is Navi);
        }
        lemma_items_in_turn(lesson, Seq::empty(), es.drop_first(), ns.drop_first(), acts.drop_first());
        assert forall|k: int| 0 <= k < es.len() implies #[trigger] acts[k] == item_request(
            cookie,
            sequence,
            items[k],
            subject_id,
        ) by {
            if k > 0 {
                assert(acts[k] == acts.drop_first()[k - 1]);
            }
        }
    }
}

/// Once the connect page answers with success, collecting asks for the
/// view form of the week that the client named: the form's `sequence`.
pub proof fn lemma_videos_open_the_named_week(
    form: VideoRequestData,
    cookie: String,
    next: Option<StageView>,
    a: ActionView,
    resp: FetchedResponse,
    after: Option<StageView>,
    b: ActionView,
)
    requires
        begins(Some(form), Some(cookie), next, a),
        next matches Some(s) && steps(s, Event::Response(resp), after, b),
        is_success(resp.status),
    ensures
        b == ActionView::Send(
            view_form::view_form_request(cookie@, Some("lecture_weeks="@ + form.sequence@)),
            ReadAs::Text,
        ),
{
}

} // verus!
