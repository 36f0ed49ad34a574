//! A new viewing history entry for a lesson.

use vstd::prelude::*;
use crate::exchange::{opt_view, Destination, DestinationView, Endpoint, HttpMethod, OutgoingRequest, RequestView};
use crate::utils::{HeaderList, COOKIE, CONTENT_TYPE, FORM_URLENCODED};

verus! {

/// The viewing history entry: its path on the site.
pub const HISTORY_PATH: &'static str = "/ilos/st/course/online_view_hisno.acl";

/// A new viewing history entry for a lesson.
pub open spec fn history_request(cookie: Seq<char>, body: Option<Seq<char>>) -> RequestView {
    RequestView {
        destination: DestinationView::Site(Endpoint::History),
        query: None,
        method: HttpMethod::Post,
        headers: seq![(CONTENT_TYPE@, FORM_URLENCODED@), (COOKIE@, cookie)],
        body: body,
        manual_redirect: false,
    }
}

/// A new viewing history entry for a lesson.
pub fn request(cookie: &str, body: Option<String>) -> (r: OutgoingRequest)
    ensures
        r@ == history_request(cookie@, opt_view(body)),
{
    let headers = HeaderList::new().with_urlencoded().with_cookie(cookie);
    assert(headers@ =~= seq![(CONTENT_TYPE@, FORM_URLENCODED@), (COOKIE@, cookie@)]);
    OutgoingRequest {
        destination: Destination::Site(Endpoint::History),
        query: None,
        method: HttpMethod::Post,
        headers,
        body,
        manual_redirect: false,
    }
}

} // verus!
