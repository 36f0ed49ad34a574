//! The login form, posted with the client's credentials; redirects are returned, not followed.

use vstd::prelude::*;
use crate::exchange::{opt_view, Destination, DestinationView, Endpoint, HttpMethod, OutgoingRequest, RequestView};
use crate::utils::{HeaderList, CONTENT_TYPE, FORM_URLENCODED};

verus! {

/// The login form: its path on the site.
pub const LOGIN_PATH: &'static str = "/ilos/lo/login.acl";

/// The login form, posted with the client's credentials; redirects are returned, not followed.
pub open spec fn login_request(body: Option<Seq<char>>) -> RequestView {
    RequestView {
        destination: DestinationView::Site(Endpoint::Login),
        query: None,
        method: HttpMethod::Post,
        headers: seq![(CONTENT_TYPE@, FORM_URLENCODED@)],
        body: body,
        manual_redirect: true,
    }
}

/// The login form, posted with the client's credentials; redirects are returned, not followed.
pub fn request(body: Option<String>) -> (r: OutgoingRequest)
    ensures
        r@ == login_request(opt_view(body)),
{
    OutgoingRequest {
        destination: Destination::Site(Endpoint::Login),
        query: None,
        method: HttpMethod::Post,
        headers: HeaderList::new().with_urlencoded(),
        body,
        manual_redirect: true,
    }
}

} // verus!
