//! A video page, at an absolute address.

use vstd::prelude::*;
use crate::exchange::{Destination, DestinationView, HttpMethod, OutgoingRequest, RequestView};
use crate::utils::HeaderList;

verus! {

/// A video page, at an absolute address.
pub open spec fn video_request(url: Seq<char>) -> RequestView {
    RequestView {
        destination: DestinationView::Absolute(url),
        query: None,
        method: HttpMethod::Get,
        headers: Seq::empty(),
        body: None,
        manual_redirect: false,
    }
}

/// A video page, at an absolute address.
pub fn request(url: &str) -> (r: OutgoingRequest)
    ensures
        r@ == video_request(url@),
{
    OutgoingRequest {
        destination: Destination::Absolute(url.to_owned()),
        query: None,
        method: HttpMethod::Get,
        headers: HeaderList::new(),
        body: None,
        manual_redirect: false,
    }
}

} // verus!
