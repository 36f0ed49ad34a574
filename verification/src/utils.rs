//! Header lists and response status classes.

use vstd::prelude::*;

verus! {

/// The `Content-Type` header name.
pub const CONTENT_TYPE: &'static str = "Content-Type";

/// The media type of a URL-encoded form body.
pub const FORM_URLENCODED: &'static str = "application/x-www-form-urlencoded";

/// The `Set-Cookie` header name.
pub const SET_COOKIE: &'static str = "Set-Cookie";

/// The `Cookie` header name.
pub const COOKIE: &'static str = "Cookie";

/// Headers to set on a request or a response, in the order they are set.
pub struct HeaderList {
    pub entries: Vec<(String, String)>,
}

impl View for HeaderList {
    type V = Seq<(Seq<char>, Seq<char>)>;

    open spec fn view(&self) -> Seq<(Seq<char>, Seq<char>)> {
        self.entries@.map_values(|e: (String, String)| (e.0@, e.1@))
    }
}

impl HeaderList {
    /// No headers.
    pub fn new() -> (r: HeaderList)
        ensures
            r@ == Seq::<(Seq<char>, Seq<char>)>::empty(),
    {
        let r = HeaderList { entries: Vec::new() };
        assert(r@ =~= Seq::<(Seq<char>, Seq<char>)>::empty());
        r
    }

    /// These headers, then `name: value`.
    pub fn with(self, name: &str, value: &str) -> (r: HeaderList)
        ensures
            r@ == self@.push((name@, value@)),
    {
        let mut entries = self.entries;
        entries.push((name.to_owned(), value.to_owned()));
        let r = HeaderList { entries };
        assert(r@ =~= self@.push((name@, value@)));
        r
    }

    /// These headers, then a URL-encoded form content type.
    pub fn with_urlencoded(self) -> (r: HeaderList)
        ensures
            r@ == self@.push((CONTENT_TYPE@, FORM_URLENCODED@)),
    {
        self.with(CONTENT_TYPE, FORM_URLENCODED)
    }

    /// These headers, then `Set-Cookie: cookie`.
    pub fn with_set_cookie(self, cookie: &str) -> (r: HeaderList)
        ensures
            r@ == self@.push((SET_COOKIE@, cookie@)),
    {
        self.with(SET_COOKIE, cookie)
    }

    /// These headers, then `Cookie: cookie`.
    pub fn with_cookie(self, cookie: &str) -> (r: HeaderList)
        ensures
            r@ == self@.push((COOKIE@, cookie@)),
    {
        self.with(COOKIE, cookie)
    }
}

/// A status code in the success class (2xx).
pub open spec fn is_success(status: u16) -> bool {
    200 <= status < 300
}

/// A status code in the redirection class (3xx).
pub open spec fn is_redirection(status: u16) -> bool {
    300 <= status < 400
}

/// What a handler reads of a response from the site.
pub struct FetchedResponse {
    pub status: u16,
    /// The body text, when the handler reads it; empty otherwise.
    pub body: String,
    /// Every `Set-Cookie` header value, when the handler reads them.
    pub set_cookies: Vec<String>,
}

impl FetchedResponse {
    /// The status is in the success class.
    pub fn ok(&self) -> (r: bool)
        ensures
            r == is_success(self.status),
    {
        200 <= self.status && self.status < 300
    }

    /// The status is in the redirection class.
    pub fn redirect(&self) -> (r: bool)
        ensures
            r == is_redirection(self.status),
    {
        300 <= self.status && self.status < 400
    }
}

} // verus!
