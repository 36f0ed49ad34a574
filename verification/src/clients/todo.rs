//! The to-do list of the session's user.

use vstd::prelude::*;
use crate::exchange::{Destination, DestinationView, Endpoint, HttpMethod, OutgoingRequest, RequestView};
use crate::utils::{HeaderList, COOKIE};

verus! {

/// The to-do list: its path on the site.
pub const TODO_PATH: &'static str = "/ilos/mp/todo_list.acl";

/// The to-do list of the session's user.
pub open spec fn todo_request(cookie: Seq<char>) -> RequestView {
    RequestView {
        destination: DestinationView::Site(Endpoint::Todo),
        query: None,
        method: HttpMethod::Post,
        headers: seq![(COOKIE@, cookie)],
        body: None,
        manual_redirect: false,
    }
}

/// The to-do list of the session's user.
pub fn request(cookie: &str) -> (r: OutgoingRequest)
    ensures
        r@ == todo_request(cookie@),
{
    OutgoingRequest {
        destination: Destination::Site(Endpoint::Todo),
        query: None,
        method: HttpMethod::Post,
        headers: HeaderList::new().with_cookie(cookie),
        body: None,
        manual_redirect: false,
    }
}

} // verus!
