use ilos_proxy::exchange::Fault;
use ilos_proxy::handler::lectures::{is_body_valid, is_session_expired};
use ilos_proxy::handler::login::{
    extract_session_id, invalid_credentials, login_error, session_cookie, too_many_requests,
};
use ilos_proxy::handlers::reset::{
    duration_pattern_text, extract_items, extract_video_duration as listed_duration, parse_time,
    time_seconds_wide, try_extract_items, try_extract_video_duration,
};
use ilos_proxy::handlers::view::{
    duration_from_content, extract_video_duration as declared_duration, extract_week,
    get_fetch_counts,
};
use ilos_proxy::handlers::video::public_video_address;
use ilos_proxy::model::lecture::Lecture as WeekLecture;
use ilos_proxy::models::lecture::{Lecture, TodoEntry};
use ilos_proxy::models::video_request_data::VideoRequestData;
use ilos_proxy::models::view_request_data::ViewRequestData;
use ilos_proxy::pattern::group;

const TODO_PAGE: &str = r#"
<div class="todo_wrap on" onclick="goLecture('CS101','7','lecture_weeks')">
  <div class="todo_subjt">
     Data Structures
  </div>
  <div class="todo_title"> Week 7: Trees </div>
</div>
<div class="todo_wrap on" onclick="goLecture('CS101','8','report')">
  <div class="todo_subjt">Data Structures</div>
  <div class="todo_title">Report</div>
</div>
<div class="todo_wrap" onclick="goLecture('CS102','1','lecture_weeks')">
  <div class="todo_subjt">Closed</div>
  <div class="todo_title">Not open</div>
</div>
<div class="todo_wrap on" onclick="goLecture('MA201','3','lecture_weeks')">
  <div class="todo_subjt">Calculus</div>
</div>
<div class="todo_wrap on">
  <div class="todo_subjt">No handler</div>
  <div class="todo_title">None</div>
</div>
<div class="todo_wrap on" onclick="goLecture('PH100','12','lecture_weeks')">
  <div class="todo_subjt">Physics</div>
  <div class="todo_title">Waves</div>
</div>
"#;

#[test]
fn lectures_are_read_from_open_lecture_entries() {
    let lectures = Lecture::extract_lectures(TODO_PAGE).unwrap();
    assert_eq!(lectures.len(), 2);
    assert_eq!(lectures[0].subject_id, "CS101");
    assert_eq!(lectures[0].sequence, "7");
    assert_eq!(lectures[0].subject_name, "Data Structures");
    assert_eq!(lectures[0].title, "Week 7: Trees");
    assert_eq!(lectures[1].subject_id, "PH100");
    assert_eq!(lectures[1].sequence, "12");
    assert_eq!(lectures[1].subject_name, "Physics");
    assert_eq!(lectures[1].title, "Waves");
}

fn entry(onclick: Option<&str>, subject: Option<&str>, title: Option<&str>) -> TodoEntry {
    TodoEntry {
        onclick: onclick.map(|s| s.to_string()),
        subject_text: subject.map(|s| s.to_string()),
        title_text: title.map(|s| s.to_string()),
    }
}

#[test]
fn a_lecture_entry_needs_a_lecture_call_a_subject_and_a_title() {
    let l = Lecture::from_entry(&entry(
        Some("goLecture('S1','3','lecture_weeks')"),
        Some(" Math "),
        Some("\n Week 3 "),
    ))
    .unwrap();
    assert_eq!(
        (l.subject_id.as_str(), l.sequence.as_str(), l.subject_name.as_str(), l.title.as_str()),
        ("S1", "3", "Math", "Week 3")
    );
    assert!(Lecture::from_entry(&entry(Some("goLecture('S2','4','report')"), Some("Art"), Some("Essay"))).is_none());
    assert!(Lecture::from_entry(&entry(Some("goLecture('S1','1','lecture_weeks')"), Some("A"), None)).is_none());
    assert!(Lecture::from_entry(&entry(Some("goLecture('S1','1','lecture_weeks')"), None, Some("T"))).is_none());
    assert!(Lecture::from_entry(&entry(None, Some("A"), Some("T"))).is_none());
    assert!(Lecture::from_entry(&entry(Some("open()"), Some("A"), Some("T"))).is_none());
}

#[test]
fn entries_become_lectures_in_order() {
    let entries = vec![
        entry(Some("goLecture('S1','1','lecture_weeks')"), Some("A"), None),
        entry(Some("goLecture('S2','2','lecture_weeks')"), Some("B"), Some("T")),
        entry(Some("goLecture('S3','5','report')"), Some("C"), Some("U")),
        entry(Some("goLecture('S4','6','lecture_weeks')"), Some("D"), Some("V")),
    ];
    let lectures = Lecture::lectures_from_entries(&entries);
    assert_eq!(lectures.len(), 2);
    assert_eq!(lectures[0].subject_id, "S2");
    assert_eq!(lectures[0].title, "T");
    assert_eq!(lectures[1].subject_id, "S4");
    assert_eq!(lectures[1].subject_name, "D");
}

#[test]
fn lectures_of_joined_entries_are_joined() {
    let a = || vec![
        entry(Some("goLecture('S1','1','lecture_weeks')"), Some("A"), Some("T")),
        entry(None, Some("B"), Some("U")),
    ];
    let b = || vec![
        entry(Some("goLecture('S2','2','report')"), Some("C"), Some("V")),
        entry(Some("goLecture('S3','3','lecture_weeks')"), Some("D"), Some("W")),
    ];
    let mut both = a();
    both.extend(b());
    let ids = |ls: Vec<Lecture>| ls.into_iter().map(|l| l.subject_id).collect::<Vec<String>>();
    let mut expected = ids(Lecture::lectures_from_entries(&a()));
    expected.extend(ids(Lecture::lectures_from_entries(&b())));
    assert_eq!(ids(Lecture::lectures_from_entries(&both)), expected);
    assert_eq!(expected, vec!["S1".to_string(), "S3".to_string()]);
}

#[test]
fn an_entry_without_a_title_is_skipped_alone() {
    let page = r#"<div class="todo_wrap on" onclick="goLecture('S1','1','lecture_weeks')"><div class="todo_subjt">A</div></div><div class="todo_wrap on" onclick="goLecture('S2','2','lecture_weeks')"><div class="todo_subjt">B</div><div class="todo_title">T</div></div>"#;
    let lectures = Lecture::extract_lectures(page).unwrap();
    assert_eq!(lectures.len(), 1);
    assert_eq!(lectures[0].subject_id, "S2");
    assert_eq!(lectures[0].sequence, "2");
    assert_eq!(lectures[0].subject_name, "B");
    assert_eq!(lectures[0].title, "T");
    let closed = r#"<div class="todo_wrap" onclick="goLecture('S1','3','lecture_weeks')"><div class="todo_subjt">Math</div><div class="todo_title">W3</div></div>"#;
    assert!(Lecture::extract_lectures(closed).unwrap().is_empty());
}

#[test]
fn lectures_of_an_empty_page() {
    assert_eq!(Lecture::extract_lectures("").unwrap().len(), 0);
    assert_eq!(Lecture::extract_lectures("<p>nothing to do</p>").unwrap().len(), 0);
}

#[test]
fn week_lectures_name_their_week() {
    let lectures = WeekLecture::try_extract_lectures(TODO_PAGE).ok().unwrap();
    assert_eq!(lectures.len(), 2);
    assert_eq!(lectures[0].week, "7");
    assert_eq!(lectures[0].subject_name, "Data Structures");
    assert_eq!(lectures[1].week, "12");
    assert_eq!(WeekLecture::extract_lectures("").len(), 0);
}

#[test]
fn go_lecture_arguments() {
    let args = Lecture::try_parse_go_lecture_args("goLecture('A1','2','lecture_weeks')").ok().unwrap();
    assert_eq!(args, Some(("A1".to_string(), "2".to_string(), "lecture_weeks".to_string())));
    let none = Lecture::try_parse_go_lecture_args("goLecture('A1','2')").ok().unwrap();
    assert_eq!(none, None);
    let comma = Lecture::try_parse_go_lecture_args("goLecture('A,1','2','x')").ok().unwrap();
    assert_eq!(comma, None);
}

#[test]
fn lecture_from_parts_keeps_lecture_entries_only() {
    let args = ("S".to_string(), "4".to_string(), "lecture_weeks".to_string());
    let lecture = Lecture::from_parts(args, "\n  Subject ", " Title\t").unwrap();
    assert_eq!(lecture.subject_name, "Subject");
    assert_eq!(lecture.title, "Title");
    let report = ("S".to_string(), "4".to_string(), "report".to_string());
    assert!(Lecture::from_parts(report, "a", "b").is_none());
}

#[test]
fn capture_groups_are_read_by_index() {
    let c = Some(vec![Some("whole".to_string()), None, Some("two".to_string())]);
    assert_eq!(group(&c, 0), Some("whole".to_string()));
    assert_eq!(group(&c, 1), None);
    assert_eq!(group(&c, 2), Some("two".to_string()));
    assert_eq!(group(&c, 3), None);
    assert_eq!(group(&None, 0), None);
}

#[test]
fn session_id_comes_from_the_first_cookie_that_holds_one() {
    let cookies = vec![
        "WMONID=abc; Path=/".to_string(),
        "JSESSIONID=XYZ123.node1; Path=/; HttpOnly".to_string(),
        "JSESSIONID=later; Path=/".to_string(),
    ];
    assert_eq!(extract_session_id(cookies), Some("XYZ123.node1".to_string()));
    assert_eq!(extract_session_id(vec!["JSESSIONID=;".to_string()]), None);
    assert_eq!(extract_session_id(vec![]), None);
    assert_eq!(session_cookie("XYZ"), "JSESSIONID=XYZ; Path=/; HttpOnly");
}

#[test]
fn login_page_notices() {
    assert!(too_many_requests("<script>alert('5분 후에 다시 접속하시기 바랍니다.')</script>"));
    assert!(!too_many_requests("welcome"));
    assert!(invalid_credentials("로그인 정보가 일치하지 않습니다."));
    assert!(login_error("// 에러 발생시 강제로 메인으로 보냄"));
    assert!(!login_error("에러"));
}

#[test]
fn todo_page_checks() {
    assert!(is_session_expired("접속이 종료 되었습니다."));
    assert!(!is_session_expired("접속이"));
    assert!(is_body_valid("<div></div>"));
    assert!(!is_body_valid("<!DOCTYPE html><html></html>"));
}

#[test]
fn items_are_read_from_the_view_form() {
    let body = "<div class=\"item-title-lesson\" val=\"A1^x\">one</div>\n\
                <p>other</p>\n\
                <div class=\"item-title-lesson other\" data=\"1\" val=\"B2^y\">two</div>\n";
    assert_eq!(extract_items(body), vec!["A1".to_string(), "B2".to_string()]);
    assert_eq!(try_extract_items("no items").ok().unwrap().len(), 0);
}

#[test]
fn week_is_read_from_the_connect_page() {
    let body = "<a href=\"/ilos/st/course/online_list_form.acl?WEEK_NO=5\">go</a>";
    assert_eq!(extract_week(body), Some("5".to_string()));
    assert_eq!(extract_week("<a href=\"/elsewhere\">"), None);
}

#[test]
fn times_are_read_as_seconds() {
    assert_eq!(parse_time("1:02:03"), Some(3723));
    assert_eq!(parse_time("02:03"), Some(123));
    assert_eq!(parse_time("0:00"), Some(0));
    assert_eq!(parse_time("1:2:3:4"), None);
    assert_eq!(parse_time("123"), None);
    assert_eq!(parse_time("a:01"), None);
    assert_eq!(parse_time(""), None);
    assert_eq!(time_seconds_wide("4294967295:00:00"), Some(4294967295u64 * 3600));
}

#[test]
fn watched_time_is_read_from_the_lecture_list() {
    let body = "<li id=\"ITEM7\"><div class=\"time\">01:05 / 24:00</div></li>\
                <li id=\"ITEM8\"><div class=\"time\">1:00:00 / 1:30:00</div></li>";
    assert_eq!(listed_duration("ITEM7", body), Some(65));
    assert_eq!(listed_duration("ITEM8", body), Some(3600));
    assert_eq!(try_extract_video_duration("ITEM9", body), Ok(None));
    assert_eq!(duration_pattern_text("I"), "(?s)I.*?([0-9:]{4,})\\s\\/\\s[0-9:]{4,}<\\/div>");
}

#[test]
fn an_item_that_breaks_the_pattern_is_refused() {
    assert_eq!(try_extract_video_duration("(", "x"), Err(Fault::PatternRefused));
}

#[test]
fn a_watched_time_beyond_32_bits_is_refused() {
    let body = "ITEM <div>4294967295:00:00 / 00:00</div>";
    assert_eq!(try_extract_video_duration("ITEM", body), Err(Fault::TimeOverflow));
}

#[test]
fn video_length_is_read_from_the_video_page() {
    let page = "<html><head><meta name=\"duration\" content=\"482\"></head><body></body></html>";
    assert_eq!(declared_duration(page), Some(482));
    assert_eq!(declared_duration("<html><head></head></html>"), None);
    assert_eq!(declared_duration("<meta name=\"duration\" content=\"long\">"), None);
    assert_eq!(duration_from_content(Some("+7".to_string())), Some(7));
    assert_eq!(duration_from_content(None), None);
}

#[test]
fn video_length_comes_from_the_first_duration_element() {
    let page = "<html><head><meta name=\"duration\" content=\"600\"><meta name=\"duration\" content=\"30\"></head></html>";
    assert_eq!(declared_duration(page), Some(600));
    let clock = "<html><head><meta name=\"duration\" content=\"10:00\"></head></html>";
    assert_eq!(declared_duration(clock), None);
    let bare = "<html><head><meta name=\"duration\"></head></html>";
    assert_eq!(declared_duration(bare), None);
}

#[test]
fn fetch_counts_cover_the_video() {
    assert_eq!(get_fetch_counts(0), 2);
    assert_eq!(get_fetch_counts(239), 2);
    assert_eq!(get_fetch_counts(240), 3);
    assert_eq!(get_fetch_counts(482), 4);
    assert_eq!(get_fetch_counts(u32::MAX), 17_895_699);
}

#[test]
fn public_video_addresses() {
    assert_eq!(
        public_video_address("/http-server/lms/a.mp4"),
        "https://vod.pknu.ac.kr/contents/lms/a.mp4"
    );
    assert_eq!(public_video_address("/other/a.mp4"), "/other/a.mp4");
}

#[test]
fn connect_parameters() {
    let view = ViewRequestData { subject_id: "CS101".to_string(), sequence: "7".to_string() };
    assert_eq!(view.to_connect_params(), "SEQ=7&gubun=lecture_weeks&KJKEY=CS101");
    let video = VideoRequestData { subject_id: "CS101".to_string(), sequence: "7".to_string() };
    assert_eq!(video.to_connect_params(), "SEQ=7&KJKEY=CS101");
}
