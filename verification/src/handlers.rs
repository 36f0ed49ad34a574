//! Handlers for the routes that work through a week's lesson items: video
//! addresses, marking as watched, and resetting the viewing time.

pub mod not_found;
pub mod reset;
pub mod video;
pub mod view;

pub use crate::handler::error_messages;

use vstd::prelude::*;
use crate::text::{decimal_digits, push_decimal, push_str, string_from_chars};

verus! {

/// `lecture_weeks={week}`
pub open spec fn week_form_spec(week: Seq<char>) -> Seq<char> {
    "lecture_weeks="@ + week
}

/// `lecture_weeks={week}&item_id={item_id}&ky={subject_id}`
pub open spec fn navi_form_spec(week: Seq<char>, item_id: Seq<char>, subject_id: Seq<char>) -> Seq<char> {
    "lecture_weeks="@ + week + "&item_id="@ + item_id + "&ky="@ + subject_id
}

/// `lecture_weeks={week}&kjkey={subject_id}&ky={subject_id}&interval_time={interval}`
pub open spec fn history_form_spec(week: Seq<char>, subject_id: Seq<char>, interval: Seq<char>) -> Seq<char> {
    "lecture_weeks="@ + week + "&kjkey="@ + subject_id + "&ky="@ + subject_id + "&interval_time="@
        + interval
}

/// `lecture_weeks={week}&link_seq={link_seq}&his_no={his_no}&ky={subject_id}&interval_time={interval}`
pub open spec fn view_form_spec(
    week: Seq<char>,
    link_seq: Seq<char>,
    his_no: Seq<char>,
    subject_id: Seq<char>,
    interval: Seq<char>,
) -> Seq<char> {
    "lecture_weeks="@ + week + "&link_seq="@ + link_seq + "&his_no="@ + his_no + "&ky="@
        + subject_id + "&interval_time="@ + interval
}

/// The form that names a week: `lecture_weeks={week}`.
pub fn week_form(week: &str) -> (r: String)
    ensures
        r@ == week_form_spec(week@),
{
    let mut out: Vec<char> = Vec::new();
    push_str(&mut out, "lecture_weeks=");
    push_str(&mut out, week);
    string_from_chars(out.as_slice())
}

/// The form that names a lesson item:
/// `lecture_weeks={week}&item_id={item_id}&ky={subject_id}`.
pub fn navi_form(week: &str, item_id: &str, subject_id: &str) -> (r: String)
    ensures
        r@ == navi_form_spec(week@, item_id@, subject_id@),
{
    let mut out: Vec<char> = Vec::new();
    push_str(&mut out, "lecture_weeks=");
    push_str(&mut out, week);
    push_str(&mut out, "&item_id=");
    push_str(&mut out, item_id);
    push_str(&mut out, "&ky=");
    push_str(&mut out, subject_id);
    string_from_chars(out.as_slice())
}

/// The form that opens a viewing history entry:
/// `lecture_weeks={week}&kjkey={subject_id}&ky={subject_id}&interval_time={interval}`.
pub fn history_form(week: &str, subject_id: &str, interval: &str) -> (r: String)
    ensures
        r@ == history_form_spec(week@, subject_id@, interval@),
{
    let mut out: Vec<char> = Vec::new();
    push_str(&mut out, "lecture_weeks=");
    push_str(&mut out, week);
    push_str(&mut out, "&kjkey=");
    push_str(&mut out, subject_id);
    push_str(&mut out, "&ky=");
    push_str(&mut out, subject_id);
    push_str(&mut out, "&interval_time=");
    push_str(&mut out, interval);
    string_from_chars(out.as_slice())
}

/// The form that reports viewing time:
/// `lecture_weeks={week}&link_seq={link_seq}&his_no={his_no}&ky={subject_id}&interval_time={interval}`.
pub fn view_form(week: &str, link_seq: &str, his_no: &str, subject_id: &str, interval: &str) -> (r:
    String)
    ensures
        r@ == view_form_spec(week@, link_seq@, his_no@, subject_id@, interval@),
{
    let mut out: Vec<char> = Vec::new();
    push_str(&mut out, "lecture_weeks=");
    push_str(&mut out, week);
    push_str(&mut out, "&link_seq=");
    push_str(&mut out, link_seq);
    push_str(&mut out, "&his_no=");
    push_str(&mut out, his_no);
    push_str(&mut out, "&ky=");
    push_str(&mut out, subject_id);
    push_str(&mut out, "&interval_time=");
    push_str(&mut out, interval);
    string_from_chars(out.as_slice())
}

/// The decimal numeral of `n`.
pub fn decimal_text(n: u32) -> (r: String)
    ensures
        r@ == decimal_digits(n as nat),
{
    let mut out: Vec<char> = Vec::new();
    push_decimal(&mut out, n);
    assert(out@ =~= decimal_digits(n as nat));
    string_from_chars(out.as_slice())
}

/// The decimal numeral of `n`, negated: `-{n}`.
pub fn negated_decimal_text(n: u32) -> (r: String)
    ensures
        r@ == "-"@ + decimal_digits(n as nat),
{
    let mut out: Vec<char> = Vec::new();
    push_str(&mut out, "-");
    push_decimal(&mut out, n);
    string_from_chars(out.as_slice())
}

/// A week's lesson items, worked through one at a time for a session.
pub struct Lesson {
    pub cookie: String,
    pub subject_id: String,
    pub week: String,
    pub items: Vec<String>,
    /// The item being worked on.
    pub index: usize,
}

/// A lesson run, by value.
pub struct LessonView {
    pub cookie: Seq<char>,
    pub subject_id: Seq<char>,
    pub week: Seq<char>,
    pub items: Seq<Seq<char>>,
    pub index: int,
}

impl View for Lesson {
    type V = LessonView;

    open spec fn view(&self) -> LessonView {
        LessonView {
            cookie: self.cookie@,
            subject_id: self.subject_id@,
            week: self.week@,
            items: self.items@.map_values(|t: String| t@),
            index: self.index as int,
        }
    }
}

impl LessonView {
    /// The run is on one of its items.
    pub open spec fn on_item(self) -> bool {
        0 <= self.index < self.items.len()
    }

    /// The item being worked on.
    pub open spec fn item(self) -> Seq<char> {
        self.items[self.index]
    }

    /// The same run, moved on to the next item.
    pub open spec fn next(self) -> LessonView {
        LessonView { index: self.index + 1, ..self }
    }

    /// The number of items not finished yet.
    pub open spec fn items_left(self) -> nat {
        if self.index <= self.items.len() {
            (self.items.len() - self.index) as nat
        } else {
            0
        }
    }
}

impl Lesson {
    /// The same run, moved on to the next item.
    pub fn advance(self) -> (r: Lesson)
        requires
            self@.on_item(),
        ensures
            r@ == self@.next(),
    {
        let Lesson { cookie, subject_id, week, items, index } = self;
        let n = items.len();
        assert(index < n);
        Lesson { cookie, subject_id, week, items, index: index + 1 }
    }
}

} // verus!
