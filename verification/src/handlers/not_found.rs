//! The reply to a request for an unknown route.

use vstd::prelude::*;
use crate::exchange::{error_reply, plain_error, Reply};
use crate::handler::error_messages::NOT_FOUND;

verus! {

/// The "Not found" reply, with status 404.
pub fn handle() -> (r: Reply)
    ensures
        r@ == error_reply(NOT_FOUND@, 404),
{
    plain_error(NOT_FOUND, 404)
}

} // verus!
