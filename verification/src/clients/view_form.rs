//! The form that lists a week's lesson items.

use vstd::prelude::*;
use crate::exchange::{opt_view, Destination, DestinationView, Endpoint, HttpMethod, OutgoingRequest, RequestView};
use crate::utils::{HeaderList, COOKIE, CONTENT_TYPE, FORM_URLENCODED};

verus! {

/// The view form of a week: its path on the site.
pub const VIEW_FORM_PATH: &'static str = "/ilos/st/course/online_view_form.acl";

/// The form that lists a week's lesson items.
pub open spec fn view_form_request(cookie: Seq<char>, body: Option<Seq<char>>) -> RequestView {
    RequestView {
        destination: DestinationView::Site(Endpoint::ViewForm),
        query: None,
        method: HttpMethod::Post,
        headers: seq![(CONTENT_TYPE@, FORM_URLENCODED@), (COOKIE@, cookie)],
        body: body,
        manual_redirect: false,
    }
}

/// The form that lists a week's lesson items.
pub fn request(cookie: &str, body: Option<String>) -> (r: OutgoingRequest)
    ensures
        r@ == view_form_request(cookie@, opt_view(body)),
{
    let headers = HeaderList::new().with_urlencoded().with_cookie(cookie);
    assert(headers@ =~= seq![(CONTENT_TYPE@, FORM_URLENCODED@), (COOKIE@, cookie@)]);
    OutgoingRequest {
        destination: Destination::Site(Endpoint::ViewForm),
        query: None,
        method: HttpMethod::Post,
        headers,
        body,
        manual_redirect: false,
    }
}

} // verus!
