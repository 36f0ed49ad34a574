//! The texts of the service's error replies.

use vstd::prelude::*;

verus! {

pub const LOGIN_UNAVAILABLE: &'static str = "Login temporarily unavailable";

pub const TOO_MANY_REQUESTS: &'static str = "Too many requests, try again in 5 minutes";

pub const INVALID_CREDENTIALS: &'static str = "Invalid credentials";

pub const LOGIN_ERROR: &'static str = "Unknown login Error";

pub const PARSE_ERROR: &'static str = "Text cannot be properly parsed";

pub const NO_CREDENTIALS: &'static str = "No credentials";

pub const MAIN_PAGE_UNAVAILABLE: &'static str = "Main page temporarily unavailable";

pub const TODO_PAGE_UNAVAILABLE: &'static str = "Todo page temporarily unavailable";

pub const SESSION_EXPIRED: &'static str = "Session Expired";

pub const CONNECT_PAGE_UNAVAILABLE: &'static str = "Connect page temporarily unavailable";

pub const VIEW_FORM_UNAVAILABLE: &'static str = "View form temporarily unavailable";

pub const LIST_PAGE_UNAVAILABLE: &'static str = "List page temporarily unavailable";

pub const INVALID_REQUEST_BODY: &'static str = "Invalid request body";

pub const NOT_FOUND: &'static str = "Not found";

} // verus!
