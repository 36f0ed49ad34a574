//! Lectures still to watch, each naming the week it belongs to.

use vstd::prelude::*;
use crate::html;
use crate::models::lecture as listed;
use crate::models::lecture::{
    page_lectures, LectureView, GO_LECTURE_PATTERN, SUBJECT_SELECTOR, TITLE_SELECTOR,
    TODO_SELECTOR,
};
use crate::exchange::Fault;
use crate::pattern::regex_accepts;

verus! {

/// A lecture to watch.
pub struct Lecture {
    pub subject_id: String,
    pub week: String,
    pub subject_name: String,
    pub title: String,
}

impl View for Lecture {
    type V = LectureView;

    open spec fn view(&self) -> LectureView {
        LectureView {
            subject_id: self.subject_id@,
            sequence: self.week@,
            subject_name: self.subject_name@,
            title: self.title@,
        }
    }
}

/// The lectures of a to-do page, each naming its week: those of
/// `page_lectures` when all three selectors are accepted, else none.
pub open spec fn week_lectures(body: Seq<char>) -> Seq<LectureView> {
    if html::css_selector_accepts(TODO_SELECTOR@) && html::css_selector_accepts(TITLE_SELECTOR@)
        && html::css_selector_accepts(SUBJECT_SELECTOR@) {
        page_lectures(body)
    } else {
        Seq::empty()
    }
}

/// The two lecture lists agree: the week-naming list holds the lectures of
/// `models::lecture`'s list, lecture for lecture and in the same order,
/// whenever that list is read (all three selectors accepted), and is empty
/// exactly when that list is `None`.
pub proof fn lemma_lecture_models_agree(body: Seq<char>)
    ensures
        (html::css_selector_accepts(TODO_SELECTOR@) && html::css_selector_accepts(TITLE_SELECTOR@)
            && html::css_selector_accepts(SUBJECT_SELECTOR@)) ==> week_lectures(body)
            == page_lectures(body),
        !(html::css_selector_accepts(TODO_SELECTOR@) && html::css_selector_accepts(TITLE_SELECTOR@)
            && html::css_selector_accepts(SUBJECT_SELECTOR@)) ==> week_lectures(body)
            == Seq::<LectureView>::empty(),
{
}

impl Lecture {
    /// The subject, week and kind in a `goLecture('..','..','..')` call.
    pub(crate) fn parse_go_lecture_args(onclick: &str) -> (r: Option<(String, String, String)>)
        requires
            regex_accepts(GO_LECTURE_PATTERN@),
        ensures
            r matches Some((a, b, k)) ==> listed::go_lecture_args(onclick@) == Some((a@, b@, k@)),
            r is None ==> listed::go_lecture_args(onclick@) is None,
    {
        listed::Lecture::parse_go_lecture_args(onclick)
    }

    /// The lectures on a to-do page, or `Err` when the regex crate refuses
    /// the `goLecture` pattern.
    pub fn try_extract_lectures(body: &str) -> (r: Result<Vec<Lecture>, Fault>)
        ensures
            !regex_accepts(GO_LECTURE_PATTERN@) ==> r matches Err(Fault::PatternRefused),
            regex_accepts(GO_LECTURE_PATTERN@) ==> r is Ok,
            r matches Ok(ls) ==> ls@.map_values(|l: Lecture| l@) == week_lectures(body@),
    {
        if crate::pattern::compile(GO_LECTURE_PATTERN).is_err() {
            return Err(Fault::PatternRefused);
        }
        Ok(Lecture::extract_lectures(body))
    }

    /// The lectures on a to-do page, as `models::lecture` finds them; none
    /// when one of the selectors is refused.
    pub fn extract_lectures(body: &str) -> (r: Vec<Lecture>)
        requires
            regex_accepts(GO_LECTURE_PATTERN@),
        ensures
            r@.map_values(|l: Lecture| l@) == week_lectures(body@),
    {
        let mut out: Vec<Lecture> = Vec::new();
        if let Some(ls) = listed::Lecture::extract_lectures(body) {
            let n = ls.len();
            let mut k: usize = 0;
            while k < n
                invariant
                    k <= n,
                    n == ls@.len(),
                    out@.len() == k,
                    forall|i: int| 0 <= i < k ==> #[trigger] out@[i]@ == ls@[i]@,
                decreases n - k,
            {
                let l = &ls[k];
                out.push(
                    Lecture {
                        subject_id: l.subject_id.clone(),
                        week: l.sequence.clone(),
                        subject_name: l.subject_name.clone(),
                        title: l.title.clone(),
                    },
                );
                k = k + 1;
            }
            assert(out@.map_values(|l: Lecture| l@) =~= ls@.map_values(|l: listed::Lecture| l@));
        } else {
            assert(out@.map_values(|l: Lecture| l@) =~= Seq::<LectureView>::empty());
        }
        out
    }
}

} // verus!
