//! The page that opens a lecture's week, given its query parameters.

use vstd::prelude::*;
use crate::exchange::{Destination, DestinationView, Endpoint, HttpMethod, OutgoingRequest, RequestView};
use crate::utils::{HeaderList, COOKIE};

verus! {

/// The page that opens a lecture's week: its path on the site.
pub const CONNECT_PATH: &'static str = "/ilos/mp/todo_list_connect.acl";

/// The page that opens a lecture's week, given its query parameters.
pub open spec fn connect_request(params: Seq<char>, cookie: Seq<char>) -> RequestView {
    RequestView {
        destination: DestinationView::Site(Endpoint::Connect),
        query: Some(params),
        method: HttpMethod::Get,
        headers: seq![(COOKIE@, cookie)],
        body: None,
        manual_redirect: false,
    }
}

/// The page that opens a lecture's week, given its query parameters.
pub fn request(params: &str, cookie: &str) -> (r: OutgoingRequest)
    ensures
        r@ == connect_request(params@, cookie@),
{
    OutgoingRequest {
        destination: Destination::Site(Endpoint::Connect),
        query: Some(params.to_owned()),
        method: HttpMethod::Get,
        headers: HeaderList::new().with_cookie(cookie),
        body: None,
        manual_redirect: false,
    }
}

} // verus!
