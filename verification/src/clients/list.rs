//! The online lecture list.

use vstd::prelude::*;
use crate::exchange::{Destination, DestinationView, Endpoint, HttpMethod, OutgoingRequest, RequestView};
use crate::utils::{HeaderList, COOKIE};

verus! {

/// The lecture list: its path on the site.
pub const LIST_PATH: &'static str = "/ilos/st/course/online_list.acl";

/// The online lecture list.
pub open spec fn list_request(cookie: Seq<char>) -> RequestView {
    RequestView {
        destination: DestinationView::Site(Endpoint::List),
        query: None,
        method: HttpMethod::Get,
        headers: seq![(COOKIE@, cookie)],
        body: None,
        manual_redirect: false,
    }
}

/// The online lecture list.
pub fn request(cookie: &str) -> (r: OutgoingRequest)
    ensures
        r@ == list_request(cookie@),
{
    OutgoingRequest {
        destination: Destination::Site(Endpoint::List),
        query: None,
        method: HttpMethod::Get,
        headers: HeaderList::new().with_cookie(cookie),
        body: None,
        manual_redirect: false,
    }
}

} // verus!
