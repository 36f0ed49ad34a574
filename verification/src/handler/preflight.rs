//! The reply to a CORS preflight request.

use vstd::prelude::*;
use crate::exchange::{Reply, ReplyBody, ReplyBodyView, ReplyView};
use crate::utils::HeaderList;

verus! {

/// The methods that the service allows across origins.
pub const ALLOWED_METHODS: &'static str = "OPTIONS, GET, POST";

/// The request headers that the service allows across origins.
pub const ALLOWED_HEADERS: &'static str = "Content-Type";

/// The preflight reply: no content, naming the allowed methods and headers.
pub open spec fn preflight_reply() -> ReplyView {
    ReplyView {
        status: 204,
        headers: seq![
            ("Access-Control-Allow-Methods"@, ALLOWED_METHODS@),
            ("Access-Control-Allow-Headers"@, ALLOWED_HEADERS@),
        ],
        body: ReplyBodyView::Empty,
    }
}

/// Answers a CORS preflight request.
pub fn handle() -> (r: Reply)
    ensures
        r@ == preflight_reply(),
{
    let headers = HeaderList::new().with("Access-Control-Allow-Methods", ALLOWED_METHODS).with(
        "Access-Control-Allow-Headers",
        ALLOWED_HEADERS,
    );
    let r = Reply { status: 204, headers, body: ReplyBody::Empty };
    assert(r@.headers =~= preflight_reply().headers);
    r
}

} // verus!
