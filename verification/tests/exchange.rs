use ilos_proxy::exchange::{
    Action, Destination, Endpoint, Event, Fault, HttpMethod, OutgoingRequest, ReadAs, Reply,
    ReplyBody,
};
use ilos_proxy::models::history_response_data::HistoryResponseData;
use ilos_proxy::models::navi_response_data::NaviResponseData;
use ilos_proxy::models::video_request_data::VideoRequestData;
use ilos_proxy::models::view_request_data::ViewRequestData;
use ilos_proxy::clients::{path, url};
use ilos_proxy::router::{begin, route, set_cors, Incoming, Route, Stage};
use ilos_proxy::handlers::view::Stage as ViewStage;
use ilos_proxy::handlers::Lesson;
use ilos_proxy::utils::{FetchedResponse, HeaderList};

fn incoming(cookie: Option<&str>, body: &str) -> Incoming {
    Incoming {
        cookie: cookie.map(|c| c.to_string()),
        body: body.to_string(),
        view_request: Some(ViewRequestData {
            subject_id: "CS101".to_string(),
            sequence: "7".to_string(),
        }),
        video_request: Some(VideoRequestData {
            subject_id: "CS101".to_string(),
            sequence: "7".to_string(),
        }),
    }
}

fn response(status: u16, body: &str) -> Event {
    Event::Response(FetchedResponse { status, body: body.to_string(), set_cookies: vec![] })
}

fn headers(h: &HeaderList) -> Vec<(String, String)> {
    h.entries.clone()
}

fn pair(a: &str, b: &str) -> (String, String) {
    (a.to_string(), b.to_string())
}

fn cors() -> Vec<(String, String)> {
    vec![
        pair("Access-Control-Allow-Origin", "https://psvm203.github.io"),
        pair("Access-Control-Allow-Credentials", "true"),
        pair("Vary", "Origin"),
    ]
}

fn sent(a: &Action) -> (&OutgoingRequest, ReadAs) {
    match a {
        Action::Send(r, read) => (r, *read),
        _ => panic!("expected a request"),
    }
}

fn replied(a: &Action) -> &Reply {
    match a {
        Action::Reply(r) => r,
        _ => panic!("expected a reply"),
    }
}

fn error_text(a: &Action) -> (u16, String) {
    let r = replied(a);
    assert_eq!(headers(&r.headers), cors());
    match &r.body {
        ReplyBody::Text(t) => (r.status, t.clone()),
        _ => panic!("expected a text reply"),
    }
}

fn site(r: &OutgoingRequest) -> Endpoint {
    match r.destination {
        Destination::Site(e) => e,
        Destination::Absolute(_) => panic!("expected a site page"),
    }
}

fn step(stage: Option<Stage>, e: Event) -> (Option<Stage>, Action) {
    let s = stage.unwrap();
    assert!(s.accepts(&e));
    s.advance(e)
}

#[test]
fn routes_by_method_and_path() {
    assert_eq!(route(HttpMethod::Options, "/anything"), Route::Preflight);
    assert_eq!(route(HttpMethod::Post, "/login"), Route::Login);
    assert_eq!(route(HttpMethod::Get, "/lectures"), Route::Lectures);
    assert_eq!(route(HttpMethod::Post, "/view"), Route::View);
    assert_eq!(route(HttpMethod::Get, "/video"), Route::Video);
    assert_eq!(route(HttpMethod::Post, "/reset"), Route::Reset);
    assert_eq!(route(HttpMethod::Get, "/login"), Route::NotFound);
    assert_eq!(route(HttpMethod::Post, "/lectures"), Route::NotFound);
    assert_eq!(route(HttpMethod::Other, "/video"), Route::NotFound);
    assert_eq!(route(HttpMethod::Get, "/"), Route::NotFound);
}

#[test]
fn preflight_allows_methods_and_headers() {
    let (next, a) = begin(Route::Preflight, incoming(None, ""));
    assert!(next.is_none());
    let r = replied(&a);
    assert_eq!(r.status, 204);
    assert!(matches!(r.body, ReplyBody::Empty));
    let mut expected = vec![
        pair("Access-Control-Allow-Methods", "OPTIONS, GET, POST"),
        pair("Access-Control-Allow-Headers", "Content-Type"),
    ];
    expected.extend(cors());
    assert_eq!(headers(&r.headers), expected);
}

#[test]
fn unknown_routes_are_not_found() {
    let (next, a) = begin(Route::NotFound, incoming(Some("c"), ""));
    assert!(next.is_none());
    assert_eq!(error_text(&a), (404, "Not found".to_string()));
}

#[test]
fn set_cors_appends_the_cors_headers() {
    let reply = Reply {
        status: 418,
        headers: HeaderList::new().with("X-A", "1"),
        body: ReplyBody::Empty,
    };
    let r = set_cors(reply);
    let mut expected = vec![pair("X-A", "1")];
    expected.extend(cors());
    assert_eq!(headers(&r.headers), expected);
    assert_eq!(r.status, 418);
}

fn last_value(list: &[(String, String)], name: &str) -> Option<String> {
    list.iter().rev().find(|(n, _)| n.eq_ignore_ascii_case(name)).map(|(_, v)| v.clone())
}

#[test]
fn cors_set_twice_gives_each_header_its_value() {
    let reply = Reply {
        status: 200,
        headers: HeaderList::new().with("X-A", "1").with("Vary", "Cookie"),
        body: ReplyBody::Empty,
    };
    let once = headers(&set_cors(reply).headers);
    let reply = Reply {
        status: 200,
        headers: HeaderList::new().with("X-A", "1").with("Vary", "Cookie"),
        body: ReplyBody::Empty,
    };
    let twice = headers(&set_cors(set_cors(reply)).headers);
    for name in ["X-A", "Vary", "vary", "ACCESS-CONTROL-ALLOW-ORIGIN", "Access-Control-Allow-Origin", "Access-Control-Allow-Credentials", "Y"] {
        assert_eq!(last_value(&once, name), last_value(&twice, name));
    }
    assert_eq!(last_value(&twice, "Vary"), Some("Origin".to_string()));
}

#[test]
fn lectures_without_a_cookie_are_refused() {
    let (next, a) = begin(Route::Lectures, incoming(None, ""));
    assert!(next.is_none());
    assert_eq!(error_text(&a), (401, "No credentials".to_string()));
}

#[test]
fn lectures_are_listed_after_the_main_page() {
    let (next, a) = begin(Route::Lectures, incoming(Some("JSESSIONID=s1"), ""));
    let (r, read) = sent(&a);
    assert_eq!(site(r), Endpoint::MainPage);
    assert_eq!(r.method, HttpMethod::Get);
    assert_eq!(read, ReadAs::Status);
    assert_eq!(headers(&r.headers), vec![pair("Cookie", "JSESSIONID=s1")]);

    let (next, a) = step(next, response(200, ""));
    let (r, read) = sent(&a);
    assert_eq!(site(r), Endpoint::Todo);
    assert_eq!(r.method, HttpMethod::Post);
    assert_eq!(read, ReadAs::Text);
    assert!(r.body.is_none());

    let page = "<div class=\"todo_wrap on\" onclick=\"goLecture('CS101','7','lecture_weeks')\">\
                <div class=\"todo_subjt\"> Data </div><div class=\"todo_title\">T</div></div>";
    let (next, a) = step(next, response(200, page));
    assert!(next.is_none());
    let r = replied(&a);
    assert_eq!(r.status, 200);
    assert_eq!(headers(&r.headers), cors());
    match &r.body {
        ReplyBody::Lectures(ls) => {
            assert_eq!(ls.len(), 1);
            assert_eq!(ls[0].subject_name, "Data");
        },
        _ => panic!("expected lectures"),
    }
}

#[test]
fn lectures_fail_when_pages_fail() {
    let (next, _) = begin(Route::Lectures, incoming(Some("c"), ""));
    let (after, a) = step(next, response(500, ""));
    assert!(after.is_none());
    assert_eq!(error_text(&a), (503, "Main page temporarily unavailable".to_string()));

    let todo = || {
        let (next, _) = begin(Route::Lectures, incoming(Some("c"), ""));
        step(next, response(204, "")).0
    };
    assert_eq!(error_text(&step(todo(), response(302, "")).1), (503, "Todo page temporarily unavailable".to_string()));
    assert_eq!(
        error_text(&step(todo(), response(200, "<script>접속이 종료 되었습니다.</script>")).1),
        (401, "Session Expired".to_string())
    );
    assert_eq!(
        error_text(&step(todo(), response(200, "<!DOCTYPE html>")).1),
        (503, "Text cannot be properly parsed".to_string())
    );
}

fn login_answer(status: u16, body: &str, cookies: &[&str]) -> Action {
    let (next, a) = begin(Route::Login, incoming(None, "usr_id=a&usr_pwd=b"));
    let (r, read) = sent(&a);
    assert_eq!(site(r), Endpoint::Login);
    assert_eq!(read, ReadAs::TextAndCookies);
    assert!(r.manual_redirect);
    assert_eq!(r.body, Some("usr_id=a&usr_pwd=b".to_string()));
    assert_eq!(headers(&r.headers), vec![pair("Content-Type", "application/x-www-form-urlencoded")]);
    let event = Event::Response(FetchedResponse {
        status,
        body: body.to_string(),
        set_cookies: cookies.iter().map(|c| c.to_string()).collect(),
    });
    let (after, a) = step(next, event);
    assert!(after.is_none());
    a
}

#[test]
fn login_hands_the_session_cookie_to_the_client() {
    let a = login_answer(302, "", &["WMONID=1; Path=/", "JSESSIONID=abc.n1; Path=/"]);
    let r = replied(&a);
    assert_eq!(r.status, 204);
    assert!(matches!(r.body, ReplyBody::Empty));
    let mut expected = vec![pair("Set-Cookie", "JSESSIONID=abc.n1; Path=/; HttpOnly")];
    expected.extend(cors());
    assert_eq!(headers(&r.headers), expected);
}

#[test]
fn login_failures() {
    assert_eq!(error_text(&login_answer(200, "", &[])), (503, "Login temporarily unavailable".to_string()));
    assert_eq!(
        error_text(&login_answer(302, "5분 후에 다시 접속하시기 바랍니다.", &["JSESSIONID=x"])),
        (429, "Too many requests, try again in 5 minutes".to_string())
    );
    assert_eq!(
        error_text(&login_answer(302, "로그인 정보가 일치하지 않습니다.", &["JSESSIONID=x"])),
        (401, "Invalid credentials".to_string())
    );
    assert_eq!(
        error_text(&login_answer(303, "에러 발생시 강제로 메인으로 보냄", &["JSESSIONID=x"])),
        (500, "Unknown login Error".to_string())
    );
    assert_eq!(error_text(&login_answer(302, "", &["OTHER=1"])), (503, "Login temporarily unavailable".to_string()));
}

fn navi(link: &str, path: &str) -> Event {
    Event::Navi(NaviResponseData { link_seq: link.to_string(), path: path.to_string() })
}

fn history(his: &str) -> Event {
    Event::History(HistoryResponseData { his_no: his.to_string() })
}

const VIEW_FORM: &str = "<div class=\"item-title-lesson\" val=\"I1^a\">\n<div class=\"item-title-lesson\" val=\"I2^b\">\n";

#[test]
fn view_walks_the_week_to_the_first_item() {
    let (next, a) = begin(Route::View, incoming(Some("c"), ""));
    let (r, read) = sent(&a);
    assert_eq!(site(r), Endpoint::Connect);
    assert_eq!(r.query, Some("SEQ=7&gubun=lecture_weeks&KJKEY=CS101".to_string()));
    assert_eq!(read, ReadAs::Text);

    let connect = "<a href=\"/ilos/st/course/online_list_form.acl?WEEK_NO=9\">";
    let (next, a) = step(next, response(200, connect));
    let (r, _) = sent(&a);
    assert_eq!(site(r), Endpoint::ViewForm);
    assert_eq!(r.body, Some("lecture_weeks=9".to_string()));
    assert_eq!(
        headers(&r.headers),
        vec![pair("Content-Type", "application/x-www-form-urlencoded"), pair("Cookie", "c")]
    );

    let (next, a) = step(next, response(200, VIEW_FORM));
    let (r, read) = sent(&a);
    assert_eq!(site(r), Endpoint::Navi);
    assert_eq!(read, ReadAs::Navi);
    assert_eq!(r.body, Some("lecture_weeks=9&item_id=I1&ky=CS101".to_string()));

    let (next, a) = step(next, navi("L1", "https://v/x"));
    let (r, read) = sent(&a);
    assert!(matches!(&r.destination, Destination::Absolute(u) if u == "https://v/x"));
    assert_eq!(read, ReadAs::Text);

    let (next, a) = step(next, response(200, "page"));
    let (r, read) = sent(&a);
    assert_eq!(site(r), Endpoint::History);
    assert_eq!(read, ReadAs::History);
    assert_eq!(r.body, Some("lecture_weeks=9&kjkey=CS101&ky=CS101&interval_time=240".to_string()));

    // This video page declares no length: the run stops.
    let (next, a) = step(next, history("H1"));
    assert!(next.is_none());
    assert!(matches!(a, Action::Abort(Fault::MissingDuration)));
}

fn view_until_history(page: &str) -> (Option<Stage>, Action) {
    let (next, _) = begin(Route::View, incoming(Some("c"), ""));
    let connect = "<a href=\"/ilos/st/course/online_list_form.acl?WEEK_NO=9\">";
    let (next, _) = step(next, response(200, connect));
    let (next, _) = step(next, response(200, VIEW_FORM));
    let (next, _) = step(next, navi("L1", "https://v/x"));
    let (next, _) = step(next, response(200, page));
    step(next, history("H1"))
}

#[test]
fn view_reports_until_the_video_is_covered_then_lists_lectures() {
    let page = "<html><head><meta name=\"duration\" content=\"482\"></head></html>";
    let (mut next, mut a) = view_until_history(page);
    let mut reports = 0;
    loop {
        let (r, read) = sent(&a);
        if site(r) != Endpoint::View {
            break;
        }
        assert_eq!(read, ReadAs::Nothing);
        assert_eq!(
            r.body,
            Some("lecture_weeks=9&link_seq=L1&his_no=H1&ky=CS101&interval_time=240".to_string())
        );
        reports += 1;
        let (n, a2) = step(next, response(200, ""));
        next = n;
        a = a2;
    }
    assert_eq!(reports, 4);
    // The second item starts with its description.
    let (r, _) = sent(&a);
    assert_eq!(site(r), Endpoint::Navi);
    assert_eq!(r.body, Some("lecture_weeks=9&item_id=I2&ky=CS101".to_string()));
}

#[test]
fn view_without_items_lists_lectures() {
    let (next, _) = begin(Route::View, incoming(Some("c"), ""));
    let connect = "<a href=\"/ilos/st/course/online_list_form.acl?WEEK_NO=9\">";
    let (next, _) = step(next, response(200, connect));
    let (next, a) = step(next, response(200, "no items"));
    let (r, read) = sent(&a);
    assert_eq!(site(r), Endpoint::MainPage);
    assert_eq!(read, ReadAs::Status);
    assert!(matches!(next, Some(Stage::Lectures(_))));
}

#[test]
fn view_failures() {
    let mut input = incoming(Some("c"), "");
    input.view_request = None;
    assert_eq!(error_text(&begin(Route::View, input).1), (404, "Invalid request body".to_string()));
    assert_eq!(error_text(&begin(Route::View, incoming(None, "")).1), (401, "No credentials".to_string()));
    let (next, _) = begin(Route::View, incoming(Some("c"), ""));
    assert_eq!(error_text(&step(next, response(404, "")).1), (503, "Connect page temporarily unavailable".to_string()));
    let (next, _) = begin(Route::View, incoming(Some("c"), ""));
    assert_eq!(error_text(&step(next, response(200, "no week")).1), (500, "Text cannot be properly parsed".to_string()));
    let (next, _) = begin(Route::View, incoming(Some("c"), ""));
    let (next, _) = step(next, response(200, "\"/ilos/st/course/online_list_form.acl?WEEK_NO=1\""));
    assert_eq!(error_text(&step(next, response(500, "")).1), (503, "View form temporarily unavailable".to_string()));
}

#[test]
fn video_collects_public_addresses() {
    let (next, a) = begin(Route::Video, incoming(Some("c"), ""));
    let (r, read) = sent(&a);
    assert_eq!(site(r), Endpoint::Connect);
    assert_eq!(r.query, Some("SEQ=7&KJKEY=CS101".to_string()));
    assert_eq!(read, ReadAs::Status);
    let (next, a) = step(next, response(200, ""));
    let (r, _) = sent(&a);
    assert_eq!(r.body, Some("lecture_weeks=7".to_string()));
    let (next, _) = step(next, response(200, VIEW_FORM));
    let (next, _) = step(next, navi("L1", "/http-server/a.mp4"));
    let (next, a) = step(next, navi("L2", "/b.mp4"));
    assert!(next.is_none());
    let r = replied(&a);
    assert_eq!(r.status, 200);
    match &r.body {
        ReplyBody::Videos(v) => assert_eq!(
            v,
            &vec!["https://vod.pknu.ac.kr/contents/a.mp4".to_string(), "/b.mp4".to_string()]
        ),
        _ => panic!("expected videos"),
    }
}

#[test]
fn video_failures() {
    let mut input = incoming(Some("c"), "");
    input.video_request = None;
    assert_eq!(error_text(&begin(Route::Video, input).1), (400, "Invalid request body".to_string()));
    assert_eq!(error_text(&begin(Route::Video, incoming(None, "")).1), (401, "No credentials".to_string()));
    let (next, _) = begin(Route::Video, incoming(Some("c"), ""));
    let (next, _) = step(next, response(200, ""));
    assert_eq!(error_text(&step(next, response(503, "")).1), (503, "View form temporarily unavailable".to_string()));
}

#[test]
fn reset_reports_the_watched_time_back_twice_per_item() {
    let (next, a) = begin(Route::Reset, incoming(Some("c"), ""));
    let (r, read) = sent(&a);
    assert_eq!(r.query, Some("SEQ=7&gubun=lecture_weeks&KJKEY=CS101".to_string()));
    assert_eq!(read, ReadAs::Status);
    let (next, _) = step(next, response(200, ""));
    let (mut next, mut a) = step(next, response(200, VIEW_FORM));
    let list = "<li>I1<div>01:00 / 10:00</div></li><li>I2<div>0:10:00 / 0:20:00</div></li>";
    for (item, seconds) in [("I1", "60"), ("I2", "600")] {
        let (r, _) = sent(&a);
        assert_eq!(r.body, Some(format!("lecture_weeks=7&item_id={item}&ky=CS101")));
        let (n, a2) = step(next, navi("L", "/p"));
        let (r, read) = sent(&a2);
        assert_eq!(site(r), Endpoint::List);
        assert_eq!(read, ReadAs::Text);
        let (n, a2) = step(n, response(200, list));
        let (r, _) = sent(&a2);
        assert_eq!(site(r), Endpoint::History);
        assert_eq!(r.body, Some(format!("lecture_weeks=7&kjkey=CS101&ky=CS101&interval_time=-{seconds}")));
        let (n, a2) = step(n, history("H"));
        let expected = Some(format!("lecture_weeks=7&link_seq=L&his_no=H&ky=CS101&interval_time=-{seconds}"));
        let (r, _) = sent(&a2);
        assert_eq!(site(r), Endpoint::View);
        assert_eq!(r.body, expected);
        let (n, a2) = step(n, response(200, ""));
        let (r, _) = sent(&a2);
        assert_eq!(site(r), Endpoint::View);
        assert_eq!(r.body, expected);
        let (n, a2) = step(n, response(200, ""));
        next = n;
        a = a2;
    }
    let (r, _) = sent(&a);
    assert_eq!(site(r), Endpoint::MainPage);
    let (next, _) = step(next, response(200, ""));
    let (next, a) = step(next, response(200, ""));
    assert!(next.is_none());
    assert_eq!(replied(&a).status, 200);
}

#[test]
fn reset_failures() {
    let mut input = incoming(Some("c"), "");
    input.view_request = None;
    assert_eq!(error_text(&begin(Route::Reset, input).1), (400, "Invalid request body".to_string()));
    let (next, _) = begin(Route::Reset, incoming(Some("c"), ""));
    let (next, _) = step(next, response(200, ""));
    let (next, _) = step(next, response(200, VIEW_FORM));
    let (next, _) = step(next, navi("L", "/p"));
    let (after, a) = step(next, response(200, "no times here"));
    assert!(after.is_none());
    assert_eq!(error_text(&a), (500, "Text cannot be properly parsed".to_string()));
    let (next, _) = begin(Route::Reset, incoming(Some("c"), ""));
    let (next, _) = step(next, response(200, ""));
    let (next, _) = step(next, response(200, VIEW_FORM));
    let (next, _) = step(next, navi("L", "/p"));
    assert_eq!(error_text(&step(next, response(500, "")).1), (503, "List page temporarily unavailable".to_string()));
}

fn item_reports(duration_page: &str) -> (usize, Endpoint) {
    let lesson = Lesson {
        cookie: "SID".to_string(),
        subject_id: "CS101".to_string(),
        week: "7".to_string(),
        items: vec!["ITEM1".to_string(), "ITEM2".to_string()],
        index: 0,
    };
    let stage = ViewStage::AwaitHistory {
        lesson,
        link_seq: "55".to_string(),
        video_page: duration_page.to_string(),
    };
    let (mut next, mut a) = stage.step(Event::History(HistoryResponseData { his_no: "9".to_string() }));
    let mut reports = 0;
    loop {
        let (r, _) = sent(&a);
        if site(r) != Endpoint::View {
            return (reports, site(r));
        }
        reports += 1;
        let s = next.unwrap();
        let resp = FetchedResponse { status: 200, body: String::new(), set_cookies: Vec::new() };
        let (n, b) = s.step(Event::Response(resp));
        next = n;
        a = b;
    }
}

#[test]
fn an_item_gets_a_report_per_interval_and_two_more() {
    let page = "<html><head><meta name=\"duration\" content=\"600\"></head></html>";
    assert_eq!(item_reports(page), (600 / 240 + 2, Endpoint::Navi));
    let short = "<html><head><meta name=\"duration\" content=\"0\"></head></html>";
    assert_eq!(item_reports(short), (2, Endpoint::Navi));
}

#[test]
fn requests_go_to_the_site_or_their_address() {
    assert_eq!(path(Endpoint::Todo), "/ilos/mp/todo_list.acl");
    assert_eq!(path(Endpoint::Login), "/ilos/lo/login.acl");
    let todo = OutgoingRequest {
        destination: Destination::Site(Endpoint::Todo),
        query: None,
        method: HttpMethod::Post,
        headers: HeaderList::new(),
        body: None,
        manual_redirect: false,
    };
    assert_eq!(url(&todo), "https://lms.pknu.ac.kr/ilos/mp/todo_list.acl");
    let form = OutgoingRequest {
        destination: Destination::Site(Endpoint::ViewForm),
        query: Some("WEEK_NO=3".to_string()),
        method: HttpMethod::Get,
        headers: HeaderList::new(),
        body: None,
        manual_redirect: false,
    };
    assert_eq!(url(&form), "https://lms.pknu.ac.kr/ilos/st/course/online_view_form.acl?WEEK_NO=3");
    let video = OutgoingRequest {
        destination: Destination::Absolute("https://cdn.example/v.html".to_string()),
        query: None,
        method: HttpMethod::Get,
        headers: HeaderList::new(),
        body: None,
        manual_redirect: false,
    };
    assert_eq!(url(&video), "https://cdn.example/v.html");
}
