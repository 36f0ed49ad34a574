//! The main page, which opens the session's lecture area.

use vstd::prelude::*;
use crate::exchange::{Destination, DestinationView, Endpoint, HttpMethod, OutgoingRequest, RequestView};
use crate::utils::{HeaderList, COOKIE};

verus! {

/// The main page: its path on the site.
pub const MAIN_PATH: &'static str = "/ilos/main/main_form.acl";

/// The main page, which opens the session's lecture area.
pub open spec fn main_page_request(cookie: Seq<char>) -> RequestView {
    RequestView {
        destination: DestinationView::Site(Endpoint::MainPage),
        query: None,
        method: HttpMethod::Get,
        headers: seq![(COOKIE@, cookie)],
        body: None,
        manual_redirect: false,
    }
}

/// The main page, which opens the session's lecture area.
pub fn request(cookie: &str) -> (r: OutgoingRequest)
    ensures
        r@ == main_page_request(cookie@),
{
    OutgoingRequest {
        destination: Destination::Site(Endpoint::MainPage),
        query: None,
        method: HttpMethod::Get,
        headers: HeaderList::new().with_cookie(cookie),
        body: None,
        manual_redirect: false,
    }
}

} // verus!
