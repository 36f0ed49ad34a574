//! What the site answers about one lesson item.

use vstd::prelude::*;

verus! {

/// A lesson item's link sequence and the path of its video.
pub struct NaviResponseData {
    pub link_seq: String,
    pub path: String,
}

} // verus!
