//! Lectures still to watch, as the to-do page lists them.

use vstd::prelude::*;
use crate::html;
use crate::exchange::Fault;
use crate::pattern::{self, captures_view, group, group_spec, regex_accepts, regex_captures, Pattern};
use crate::text::{equals, trim, trim_spec};
use crate::exchange::opt_view;

verus! {

/// Matches the `onclick` handler of a to-do entry:
/// `goLecture('{subject_id}','{sequence}','{kind}')`.
pub const GO_LECTURE_PATTERN: &'static str = "goLecture\\('([^,]+)','([^,]+)','([^,]+)'\\)";

/// The kind of to-do entry that is a lecture.
pub const LECTURE_KIND: &'static str = "lecture_weeks";

/// Selects the open to-do entries.
pub const TODO_SELECTOR: &'static str = ".todo_wrap.on";

/// Selects an entry's title.
pub const TITLE_SELECTOR: &'static str = ".todo_title";

/// Selects an entry's subject name.
pub const SUBJECT_SELECTOR: &'static str = ".todo_subjt";

/// A lecture to watch.
pub struct Lecture {
    pub subject_id: String,
    pub sequence: String,
    pub subject_name: String,
    pub title: String,
}

/// A lecture, by value.
pub struct LectureView {
    pub subject_id: Seq<char>,
    pub sequence: Seq<char>,
    pub subject_name: Seq<char>,
    pub title: Seq<char>,
}

impl View for Lecture {
    type V = LectureView;

    open spec fn view(&self) -> LectureView {
        LectureView {
            subject_id: self.subject_id@,
            sequence: self.sequence@,
            subject_name: self.subject_name@,
            title: self.title@,
        }
    }
}

/// The three arguments of the `goLecture` call in an `onclick` handler:
/// subject, sequence and kind; `None` when the handler holds no such call.
pub open spec fn go_lecture_args(onclick: Seq<char>) -> Option<(Seq<char>, Seq<char>, Seq<char>)> {
    args_spec(regex_captures(GO_LECTURE_PATTERN@, onclick))
}

/// The lecture that a to-do entry stands for: one whose `onclick` calls
/// `goLecture` with kind `lecture_weeks`, and that has a subject name and a
/// title, both trimmed of white space.
pub open spec fn lecture_spec(
    onclick: Seq<char>,
    subject_text: Option<Seq<char>>,
    title_text: Option<Seq<char>>,
) -> Option<LectureView> {
    match (go_lecture_args(onclick), subject_text, title_text) {
        (Some(args), Some(s), Some(t)) => lecture_of(args, s, t),
        _ => None,
    }
}

/// What the lecture list reads of a to-do entry: its `onclick` handler and
/// the texts of its first subject and title parts, each when it has one.
pub struct TodoEntry {
    pub onclick: Option<String>,
    pub subject_text: Option<String>,
    pub title_text: Option<String>,
}

/// A to-do entry, by value.
pub struct TodoEntryView {
    pub onclick: Option<Seq<char>>,
    pub subject_text: Option<Seq<char>>,
    pub title_text: Option<Seq<char>>,
}

impl View for TodoEntry {
    type V = TodoEntryView;

    open spec fn view(&self) -> TodoEntryView {
        TodoEntryView {
            onclick: opt_view(self.onclick),
            subject_text: opt_view(self.subject_text),
            title_text: opt_view(self.title_text),
        }
    }
}

/// The lecture that a to-do entry stands for, if any.
pub open spec fn entry_lecture(e: TodoEntryView) -> Option<LectureView> {
    match e.onclick {
        Some(onclick) => lecture_spec(onclick, e.subject_text, e.title_text),
        None => None,
    }
}

/// The lectures that to-do entries stand for, in their order.
pub open spec fn lectures_of(entries: Seq<TodoEntryView>) -> Seq<LectureView>
    decreases entries.len(),
{
    if entries.len() == 0 {
        Seq::empty()
    } else {
        let before = lectures_of(entries.drop_last());
        match entry_lecture(entries.last()) {
            Some(l) => before.push(l),
            None => before,
        }
    }
}

/// The lectures of two runs of to-do entries, one after the other, are the
/// first run's lectures followed by the second's.
pub proof fn lemma_lectures_of_concat(a: Seq<TodoEntryView>, b: Seq<TodoEntryView>)
    ensures
        lectures_of(a + b) == lectures_of(a) + lectures_of(b),
    decreases b.len(),
{
    if b.len() == 0 {
        assert(a + b =~= a);
        assert(lectures_of(a) + lectures_of(b) =~= lectures_of(a));
    } else {
        assert((a + b).drop_last() =~= a + b.drop_last());
        assert((a + b).last() == b.last());
        lemma_lectures_of_concat(a, b.drop_last());
        match entry_lecture(b.last()) {
            Some(l) => {
                assert(lectures_of(a) + lectures_of(b.drop_last()).push(l) =~= (lectures_of(a)
                    + lectures_of(b.drop_last())).push(l));
            },
            None => {},
        }
    }
}

/// Only a `goLecture` call of kind `lecture_weeks` makes a lecture: then
/// the lecture carries the call's subject and sequence, and the subject and
/// title texts trimmed of white space; any other kind makes none.
pub proof fn lemma_only_lecture_kind_is_a_lecture(
    args: (Seq<char>, Seq<char>, Seq<char>),
    subject_text: Seq<char>,
    title_text: Seq<char>,
)
    ensures
        lecture_of(args, subject_text, title_text) is Some <==> args.2 == "lecture_weeks"@,
        args.2 == "lecture_weeks"@ ==> lecture_of(args, subject_text, title_text) == Some(
            LectureView {
                subject_id: args.0,
                sequence: args.1,
                subject_name: trim_spec(subject_text),
                title: trim_spec(title_text),
            },
        ),
{
    assert(LECTURE_KIND@ == "lecture_weeks"@);
}

/// A to-do entry stands for a lecture only when its `onclick` calls
/// `goLecture` with kind `lecture_weeks` and it has a subject and a title;
/// the lecture then carries that call's subject and sequence.
pub proof fn lemma_entry_lecture_needs_lecture_kind(e: TodoEntryView)
    ensures
        entry_lecture(e) matches Some(l) ==> {
            &&& e.onclick matches Some(o)
            &&& go_lecture_args(o) matches Some(args)
            &&& args.2 == "lecture_weeks"@
            &&& l.subject_id == args.0
            &&& l.sequence == args.1
            &&& e.subject_text matches Some(st) && l.subject_name == trim_spec(st)
            &&& e.title_text matches Some(tt) && l.title == trim_spec(tt)
        },
{
    if let Some(o) = e.onclick {
        if let (Some(args), Some(st), Some(tt)) = (go_lecture_args(o), e.subject_text, e.title_text) {
            lemma_only_lecture_kind_is_a_lecture(args, st, tt);
        }
    }
}

/// The to-do page, parsed as a fragment.
pub open spec fn todo_document(body: Seq<char>) -> html::DocumentView {
    html::DocumentView { source: body, whole: false }
}

/// The `i`-th open entry of the to-do page, in the order that scraper's
/// `Html::select` yields them.
pub open spec fn todo_element(body: Seq<char>, i: int) -> html::ElementView {
    html::ElementView { document: todo_document(body), selector: TODO_SELECTOR@, index: i }
}

/// The text of an element's first part that matches a selector, if it has
/// one.
pub open spec fn part_text(element: html::ElementView, selector: Seq<char>) -> Option<Seq<char>> {
    if html::html_select_within_found(element, selector) {
        Some(html::html_text(html::DescendantView { parent: element, selector }))
    } else {
        None
    }
}

/// What the lecture list reads of a to-do entry's element.
pub open spec fn entry_of(element: html::ElementView) -> TodoEntryView {
    TodoEntryView {
        onclick: html::html_attribute(element, "onclick"@),
        subject_text: part_text(element, SUBJECT_SELECTOR@),
        title_text: part_text(element, TITLE_SELECTOR@),
    }
}

/// The open entries of a to-do page, in the order that scraper's `Html::select`
/// yields them.
pub open spec fn page_entries(body: Seq<char>) -> Seq<TodoEntryView> {
    Seq::new(
        html::html_select_count(todo_document(body), TODO_SELECTOR@),
        |i: int| entry_of(todo_element(body, i)),
    )
}

/// The lectures of a to-do page: one for each open entry that stands for a
/// lecture, in the order of `page_entries`.
pub open spec fn page_lectures(body: Seq<char>) -> Seq<LectureView> {
    lectures_of(page_entries(body))
}

/// The `goLecture` arguments in a match of `GO_LECTURE_PATTERN`.
pub open spec fn args_spec(c: Option<Seq<Option<Seq<char>>>>) -> Option<(Seq<char>, Seq<char>, Seq<char>)> {
    match (group_spec(c, 1), group_spec(c, 2), group_spec(c, 3)) {
        (Some(a), Some(b), Some(k)) => Some((a, b, k)),
        _ => None,
    }
}

/// The subject, sequence and kind in a match of `GO_LECTURE_PATTERN`: its
/// groups 1, 2 and 3, when all three took part.
pub fn args_from_captures(c: &Option<Vec<Option<String>>>) -> (r: Option<(String, String, String)>)
    ensures
        r matches Some((a, b, k)) ==> args_spec(captures_view(*c)) == Some((a@, b@, k@)),
        r is None ==> args_spec(captures_view(*c)) is None,
{
    match (group(c, 1), group(c, 2), group(c, 3)) {
        (Some(a), Some(b), Some(k)) => Some((a, b, k)),
        _ => None,
    }
}

fn go_lecture_args_with(p: &Pattern, onclick: &str) -> (r: Option<(String, String, String)>)
    requires
        p@ == GO_LECTURE_PATTERN@,
    ensures
        r matches Some((a, b, k)) ==> go_lecture_args(onclick@) == Some((a@, b@, k@)),
        r is None ==> go_lecture_args(onclick@) is None,
{
    let c = pattern::captures(p, onclick);
    args_from_captures(&c)
}

/// The lecture for `goLecture` arguments and the raw texts of an entry's
/// subject and title: one of kind `lecture_weeks`, with both texts trimmed
/// of white space.
pub open spec fn lecture_of(
    args: (Seq<char>, Seq<char>, Seq<char>),
    subject_text: Seq<char>,
    title_text: Seq<char>,
) -> Option<LectureView> {
    if args.2 == LECTURE_KIND@ {
        Some(
            LectureView {
                subject_id: args.0,
                sequence: args.1,
                subject_name: trim_spec(subject_text),
                title: trim_spec(title_text),
            },
        )
    } else {
        None
    }
}

/// What the lecture list reads of a to-do entry's element.
fn read_entry(
    element: &html::Element,
    subject_selector: &html::CssSelector,
    title_selector: &html::CssSelector,
) -> (r: TodoEntry)
    requires
        subject_selector@ == SUBJECT_SELECTOR@,
        title_selector@ == TITLE_SELECTOR@,
    ensures
        r@ == entry_of(element@),
{
    let onclick = html::attribute(element, "onclick");
    let subject_text = match html::select_first_within(element, subject_selector) {
        Some(e) => Some(html::text_content(&e)),
        None => None,
    };
    let title_text = match html::select_first_within(element, title_selector) {
        Some(e) => Some(html::text_content(&e)),
        None => None,
    };
    TodoEntry { onclick, subject_text, title_text }
}

fn entry_lecture_with(p: &Pattern, entry: &TodoEntry) -> (r: Option<Lecture>)
    requires
        p@ == GO_LECTURE_PATTERN@,
    ensures
        r matches Some(l) ==> entry_lecture(entry@) == Some(l@),
        r is None ==> entry_lecture(entry@) is None,
{
    let onclick = match &entry.onclick {
        Some(v) => v,
        None => return None,
    };
    let args = match go_lecture_args_with(p, onclick.as_str()) {
        Some(args) => args,
        None => return None,
    };
    match (&entry.subject_text, &entry.title_text) {
        (Some(s), Some(t)) => Lecture::from_parts(args, s.as_str(), t.as_str()),
        _ => None,
    }
}

impl Lecture {
    /// The subject, sequence and kind in a `goLecture('..','..','..')` call.
    pub fn parse_go_lecture_args(onclick: &str) -> (r: Option<(String, String, String)>)
        requires
            regex_accepts(GO_LECTURE_PATTERN@),
        ensures
            r matches Some((a, b, k)) ==> go_lecture_args(onclick@) == Some((a@, b@, k@)),
            r is None ==> go_lecture_args(onclick@) is None,
    {
        match pattern::compile(GO_LECTURE_PATTERN) {
            Ok(p) => go_lecture_args_with(&p, onclick),
            Err(_) => None,
        }
    }

    /// The subject, sequence and kind in a `goLecture('..','..','..')` call,
    /// or `Err` when the regex crate refuses the pattern.
    pub fn try_parse_go_lecture_args(onclick: &str) -> (r: Result<
        Option<(String, String, String)>,
        Fault,
    >)
        ensures
            !regex_accepts(GO_LECTURE_PATTERN@) ==> r matches Err(Fault::PatternRefused),
            regex_accepts(GO_LECTURE_PATTERN@) ==> r is Ok,
            r matches Ok(Some((a, b, k))) ==> go_lecture_args(onclick@) == Some((a@, b@, k@)),
            r matches Ok(None) ==> go_lecture_args(onclick@) is None,
    {
        if pattern::compile(GO_LECTURE_PATTERN).is_err() {
            return Err(Fault::PatternRefused);
        }
        Ok(Lecture::parse_go_lecture_args(onclick))
    }

    /// The lecture for `goLecture` arguments and an entry's subject and
    /// title texts.
    pub fn from_parts(args: (String, String, String), subject_text: &str, title_text: &str) -> (r:
        Option<Lecture>)
        ensures
            r matches Some(l) ==> lecture_of((args.0@, args.1@, args.2@), subject_text@, title_text@)
                == Some(l@),
            r is None ==> lecture_of((args.0@, args.1@, args.2@), subject_text@, title_text@) is None,
    {
        let (subject_id, sequence, kind) = args;
        if !equals(kind.as_str(), LECTURE_KIND) {
            return None;
        }
        Some(
            Lecture {
                subject_id,
                sequence,
                subject_name: trim(subject_text),
                title: trim(title_text),
            },
        )
    }

    /// The lecture that a to-do entry stands for: one whose `onclick` calls
    /// `goLecture` with kind `lecture_weeks`, and that has a subject and a
    /// title. `None` also when the regex crate refuses the `goLecture`
    /// pattern.
    pub fn from_entry(entry: &TodoEntry) -> (r: Option<Lecture>)
        ensures
            !regex_accepts(GO_LECTURE_PATTERN@) ==> r is None,
            regex_accepts(GO_LECTURE_PATTERN@) ==> (r matches Some(l) ==> entry_lecture(entry@) == Some(l@)),
            regex_accepts(GO_LECTURE_PATTERN@) ==> (r is None ==> entry_lecture(entry@) is None),
    {
        match pattern::compile(GO_LECTURE_PATTERN) {
            Ok(p) => entry_lecture_with(&p, entry),
            Err(_) => None,
        }
    }

    /// The lectures that to-do entries stand for, in their order.
    pub fn lectures_from_entries(entries: &Vec<TodoEntry>) -> (r: Vec<Lecture>)
        requires
            regex_accepts(GO_LECTURE_PATTERN@),
        ensures
            r@.map_values(|l: Lecture| l@) == lectures_of(entries@.map_values(|e: TodoEntry| e@)),
    {
        let p = match pattern::compile(GO_LECTURE_PATTERN) {
            Ok(p) => p,
            Err(_) => return Vec::new(),
        };
        let ghost es = entries@.map_values(|e: TodoEntry| e@);
        let mut lectures: Vec<Lecture> = Vec::new();
        let n = entries.len();
        let mut k: usize = 0;
        while k < n
            invariant
                k <= n,
                n == entries@.len(),
                es == entries@.map_values(|e: TodoEntry| e@),
                p@ == GO_LECTURE_PATTERN@,
                lectures@.map_values(|l: Lecture| l@) == lectures_of(es.take(k as int)),
            decreases n - k,
        {
            let found = entry_lecture_with(&p, &entries[k]);
            let ghost before = lectures@.map_values(|l: Lecture| l@);
            assert(es.take(k + 1).drop_last() =~= es.take(k as int));
            assert(es.take(k + 1).last() == entries@[k as int]@);
            if let Some(lecture) = found {
                lectures.push(lecture);
                assert(lectures@.map_values(|l: Lecture| l@) =~= before.push(lecture@));
            }
            k = k + 1;
        }
        assert(es.take(n as int) =~= es);
        lectures
    }

    /// The lectures on a to-do page: one for each open entry that calls
    /// `goLecture` with kind `lecture_weeks` and has a subject and a title.
    /// `None` when one of the selectors is refused.
    pub fn extract_lectures(body: &str) -> (r: Option<Vec<Lecture>>)
        requires
            regex_accepts(GO_LECTURE_PATTERN@),
        ensures
            r is Some <==> (html::css_selector_accepts(TODO_SELECTOR@)
                && html::css_selector_accepts(TITLE_SELECTOR@)
                && html::css_selector_accepts(SUBJECT_SELECTOR@)),
            r matches Some(ls) ==> ls@.map_values(|l: Lecture| l@) == page_lectures(body@),
    {
        let fragment = html::parse_fragment(body);
        let todo_selector = match html::parse_selector(TODO_SELECTOR) {
            Ok(s) => s,
            Err(_) => return None,
        };
        let title_selector = match html::parse_selector(TITLE_SELECTOR) {
            Ok(s) => s,
            Err(_) => return None,
        };
        let subject_selector = match html::parse_selector(SUBJECT_SELECTOR) {
            Ok(s) => s,
            Err(_) => return None,
        };
        let elements = html::select_all(&fragment, &todo_selector);
        let ghost page = page_entries(body@);
        let mut entries: Vec<TodoEntry> = Vec::new();
        let n = elements.len();
        let mut k: usize = 0;
        while k < n
            invariant
                k <= n,
                n == elements@.len(),
                n == page.len(),
                page == page_entries(body@),
                forall|i: int| 0 <= i < n ==> #[trigger] elements@[i]@ == todo_element(body@, i),
                subject_selector@ == SUBJECT_SELECTOR@,
                title_selector@ == TITLE_SELECTOR@,
                entries@.map_values(|e: TodoEntry| e@) == page.take(k as int),
            decreases n - k,
        {
            let entry = read_entry(&elements[k], &subject_selector, &title_selector);
            let ghost before = entries@.map_values(|e: TodoEntry| e@);
            assert(elements@[k as int]@ == todo_element(body@, k as int));
            assert(entry@ == page[k as int]);
            entries.push(entry);
            assert(entries@.map_values(|e: TodoEntry| e@) =~= before.push(entry@));
            assert(page.take(k + 1) =~= page.take(k as int).push(page[k as int]));
            k = k + 1;
        }
        assert(page.take(n as int) =~= page);
        Some(Lecture::lectures_from_entries(&entries))
    }
}

} // verus!
