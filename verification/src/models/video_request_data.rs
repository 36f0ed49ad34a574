//! The form that asks for a lecture's video addresses.

use vstd::prelude::*;
use crate::text::{push_str, string_from_chars};

verus! {

/// A lecture, named by its subject and its week sequence.
pub struct VideoRequestData {
    pub subject_id: String,
    pub sequence: String,
}

impl VideoRequestData {
    /// The connect query for this lecture.
    pub open spec fn connect_params(&self) -> Seq<char> {
        "SEQ="@ + self.sequence@ + "&KJKEY="@ + self.subject_id@
    }

    /// The query that opens the lecture's week on the site:
    /// `SEQ={sequence}&KJKEY={subject_id}`.
    pub fn to_connect_params(&self) -> (r: String)
        ensures
            r@ == self.connect_params(),
    {
        let mut out: Vec<char> = Vec::new();
        push_str(&mut out, "SEQ=");
        push_str(&mut out, self.sequence.as_str());
        push_str(&mut out, "&KJKEY=");
        push_str(&mut out, self.subject_id.as_str());
        string_from_chars(out.as_slice())
    }
}

} // verus!
