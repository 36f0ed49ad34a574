//! The description of one lesson item.

use vstd::prelude::*;
use crate::exchange::{opt_view, Destination, DestinationView, Endpoint, HttpMethod, OutgoingRequest, RequestView};
use crate::utils::{HeaderList, COOKIE, CONTENT_TYPE, FORM_URLENCODED};

verus! {

/// The description of a lesson item: its path on the site.
pub const NAVI_PATH: &'static str = "/ilos/st/course/online_view_navi.acl";

/// The description of one lesson item.
pub open spec fn navi_request(cookie: Seq<char>, body: Option<Seq<char>>) -> RequestView {
    RequestView {
        destination: DestinationView::Site(Endpoint::Navi),
        query: None,
        method: HttpMethod::Post,
        headers: seq![(CONTENT_TYPE@, FORM_URLENCODED@), (COOKIE@, cookie)],
        body: body,
        manual_redirect: false,
    }
}

/// The description of one lesson item.
pub fn request(cookie: &str, body: Option<String>) -> (r: OutgoingRequest)
    ensures
        r@ == navi_request(cookie@, opt_view(body)),
{
    let headers = HeaderList::new().with_urlencoded().with_cookie(cookie);
    assert(headers@ =~= seq![(CONTENT_TYPE@, FORM_URLENCODED@), (COOKIE@, cookie@)]);
    OutgoingRequest {
        destination: Destination::Site(Endpoint::Navi),
        query: None,
        method: HttpMethod::Post,
        headers,
        body,
        manual_redirect: false,
    }
}

} // verus!
