//! A report of viewing time for a lesson.

use vstd::prelude::*;
use crate::exchange::{opt_view, Destination, DestinationView, Endpoint, HttpMethod, OutgoingRequest, RequestView};
use crate::utils::{HeaderList, COOKIE, CONTENT_TYPE, FORM_URLENCODED};

verus! {

/// The viewing time report: its path on the site.
pub const VIEW_PATH: &'static str = "/ilos/st/course/online_view_at.acl";

/// A report of viewing time for a lesson.
pub open spec fn view_request(cookie: Seq<char>, body: Option<Seq<char>>) -> RequestView {
    RequestView {
        destination: DestinationView::Site(Endpoint::View),
        query: None,
        method: HttpMethod::Post,
        headers: seq![(CONTENT_TYPE@, FORM_URLENCODED@), (COOKIE@, cookie)],
        body: body,
        manual_redirect: false,
    }
}

/// A report of viewing time for a lesson.
pub fn request(cookie: &str, body: Option<String>) -> (r: OutgoingRequest)
    ensures
        r@ == view_request(cookie@, opt_view(body)),
{
    let headers = HeaderList::new().with_urlencoded().with_cookie(cookie);
    assert(headers@ =~= seq![(CONTENT_TYPE@, FORM_URLENCODED@), (COOKIE@, cookie@)]);
    OutgoingRequest {
        destination: Destination::Site(Endpoint::View),
        query: None,
        method: HttpMethod::Post,
        headers,
        body,
        manual_redirect: false,
    }
}

} // verus!
