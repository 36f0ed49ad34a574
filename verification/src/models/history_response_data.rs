//! What the site answers when a viewing history entry is opened.

use vstd::prelude::*;

verus! {

/// The number of the viewing history entry.
pub struct HistoryResponseData {
    pub his_no: String,
}

} // verus!
