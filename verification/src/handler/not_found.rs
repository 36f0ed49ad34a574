//! The reply to a request for an unknown route.

use vstd::prelude::*;
use crate::exchange::{error_reply, plain_error, Reply};

verus! {

/// The plain "Not Found" reply, with status 404.
pub fn handle() -> (r: Reply)
    ensures
        r@ == error_reply("Not Found"@, 404),
{
    plain_error("Not Found", 404)
}

} // verus!
