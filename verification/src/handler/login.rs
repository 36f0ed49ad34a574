//! Login: posts the client's credentials to the site and hands the
//! session cookie that the site sets back to the client.

use vstd::prelude::*;
use crate::clients::login;
use crate::exchange::{
    error_action, fail, Action, ActionView, Fault, ReadAs, Reply, ReplyBody, ReplyBodyView,
    ReplyView,
};
use crate::handler::error_messages::{
    INVALID_CREDENTIALS, LOGIN_ERROR, LOGIN_UNAVAILABLE, TOO_MANY_REQUESTS,
};
use crate::pattern::{self, group, group_spec, regex_accepts, regex_captures};
use crate::text::{contains, contains_seq, push_str, string_from_chars};
use crate::utils::{is_redirection, FetchedResponse, HeaderList, SET_COOKIE};

verus! {

/// The notice that the site shows after too many failed logins.
pub const TOO_MANY_REQUESTS_NOTICE: &'static str = "5분 후에 다시 접속하시기 바랍니다.";

/// The notice that the site shows for wrong credentials.
pub const INVALID_CREDENTIALS_NOTICE: &'static str = "로그인 정보가 일치하지 않습니다.";

/// The marker of the page that the site shows when login fails otherwise.
pub const LOGIN_ERROR_NOTICE: &'static str = "에러 발생시 강제로 메인으로 보냄";

/// Matches the session identifier in a `Set-Cookie` value.
pub const SESSION_ID_PATTERN: &'static str = "JSESSIONID=([^;]+)";

/// Where the login stands: the credentials were posted.
pub enum Stage {
    AwaitLogin,
}

/// The login page says to wait before trying again.
pub fn too_many_requests(body: &str) -> (r: bool)
    ensures
        r == contains_seq(body@, TOO_MANY_REQUESTS_NOTICE@),
{
    contains(body, TOO_MANY_REQUESTS_NOTICE)
}

/// The login page says that the credentials are wrong.
pub fn invalid_credentials(body: &str) -> (r: bool)
    ensures
        r == contains_seq(body@, INVALID_CREDENTIALS_NOTICE@),
{
    contains(body, INVALID_CREDENTIALS_NOTICE)
}

/// The login page is the site's generic error page.
pub fn login_error(body: &str) -> (r: bool)
    ensures
        r == contains_seq(body@, LOGIN_ERROR_NOTICE@),
{
    contains(body, LOGIN_ERROR_NOTICE)
}

/// The session identifier in one `Set-Cookie` value.
pub open spec fn session_id_in(cookie: Seq<char>) -> Option<Seq<char>> {
    group_spec(regex_captures(SESSION_ID_PATTERN@, cookie), 1)
}

/// The session identifier in the first `Set-Cookie` value that holds one.
pub open spec fn first_session_id(cookies: Seq<Seq<char>>) -> Option<Seq<char>>
    decreases cookies.len(),
{
    if cookies.len() == 0 {
        None
    } else {
        match session_id_in(cookies[0]) {
            Some(id) => Some(id),
            None => first_session_id(cookies.drop_first()),
        }
    }
}

/// The session identifier among `Set-Cookie` values: that of the first one
/// that holds one.
pub fn extract_session_id(cookies: Vec<String>) -> (r: Option<String>)
    requires
        regex_accepts(SESSION_ID_PATTERN@),
    ensures
        r matches Some(id) ==> first_session_id(cookies@.map_values(|c: String| c@)) == Some(id@),
        r is None ==> first_session_id(cookies@.map_values(|c: String| c@)) is None,
{
    let p = match pattern::compile(SESSION_ID_PATTERN) {
        Ok(p) => p,
        Err(_) => return None,
    };
    let ghost all = cookies@.map_values(|c: String| c@);
    let n = cookies.len();
    let mut k: usize = 0;
    assert(all.skip(0) =~= all);
    while k < n
        invariant
            k <= n,
            n == cookies@.len(),
            all == cookies@.map_values(|c: String| c@),
            p@ == SESSION_ID_PATTERN@,
            first_session_id(all) == first_session_id(all.skip(k as int)),
        decreases n - k,
    {
        let c = pattern::captures(&p, cookies[k].as_str());
        let id = group(&c, 1);
        proof {
            assert(all.skip(k as int)[0] == cookies@[k as int]@);
            assert(all.skip(k as int).drop_first() =~= all.skip(k + 1));
        }
        if id.is_some() {
            return id;
        }
        k = k + 1;
    }
    assert(all.skip(n as int).len() == 0);
    None
}

/// The cookie that hands the session to the client:
/// `JSESSIONID={session_id}; Path=/; HttpOnly`.
pub fn session_cookie(session_id: &str) -> (r: String)
    ensures
        r@ == "JSESSIONID="@ + session_id@ + "; Path=/; HttpOnly"@,
{
    let mut out: Vec<char> = Vec::new();
    push_str(&mut out, "JSESSIONID=");
    push_str(&mut out, session_id);
    push_str(&mut out, "; Path=/; HttpOnly");
    string_from_chars(out.as_slice())
}

/// The reply that completes a login: no content, and the session cookie.
pub open spec fn login_reply(session_id: Seq<char>) -> ReplyView {
    ReplyView {
        status: 204,
        headers: seq![(SET_COOKIE@, "JSESSIONID="@ + session_id + "; Path=/; HttpOnly"@)],
        body: ReplyBodyView::Empty,
    }
}

/// Starts a login with the client's form body: posts it to the site.
pub fn handle(body: String) -> (r: (Stage, Action))
    ensures
        r.1@ == ActionView::Send(login::login_request(Some(body@)), ReadAs::TextAndCookies),
{
    (Stage::AwaitLogin, Action::Send(login::request(Some(body)), ReadAs::TextAndCookies))
}

/// What may follow the site's answer to the login: the session cookie, or
/// why there is none.
pub open spec fn on_login_outcome(resp: FetchedResponse, a: ActionView) -> bool {
    if !is_redirection(resp.status) {
        a == error_action(LOGIN_UNAVAILABLE@, 503)
    } else if contains_seq(resp.body@, TOO_MANY_REQUESTS_NOTICE@) {
        a == error_action(TOO_MANY_REQUESTS@, 429)
    } else if contains_seq(resp.body@, INVALID_CREDENTIALS_NOTICE@) {
        a == error_action(INVALID_CREDENTIALS@, 401)
    } else if contains_seq(resp.body@, LOGIN_ERROR_NOTICE@) {
        a == error_action(LOGIN_ERROR@, 500)
    } else if !regex_accepts(SESSION_ID_PATTERN@) {
        a == ActionView::Abort(Fault::PatternRefused)
    } else {
        match first_session_id(resp.set_cookies@.map_values(|c: String| c@)) {
            Some(id) => a == ActionView::Reply(login_reply(id)),
            None => a == error_action(LOGIN_UNAVAILABLE@, 503),
        }
    }
}

/// After the site answered the login: the session cookie, or why there is
/// none.
pub fn on_login(resp: &FetchedResponse) -> (r: Action)
    ensures
        on_login_outcome(*resp, r@),
{
    if !resp.redirect() {
        return fail(LOGIN_UNAVAILABLE, 503);
    }
    let body = resp.body.as_str();
    if too_many_requests(body) {
        return fail(TOO_MANY_REQUESTS, 429);
    }
    if invalid_credentials(body) {
        return fail(INVALID_CREDENTIALS, 401);
    }
    if login_error(body) {
        return fail(LOGIN_ERROR, 500);
    }
    if pattern::compile(SESSION_ID_PATTERN).is_err() {
        return Action::Abort(Fault::PatternRefused);
    }
    let cookies = resp.set_cookies.clone();
    match extract_session_id(cookies) {
        None => fail(LOGIN_UNAVAILABLE, 503),
        Some(id) => {
            let cookie = session_cookie(id.as_str());
            let headers = HeaderList::new().with_set_cookie(cookie.as_str());
            let reply = Reply { status: 204, headers, body: ReplyBody::Empty };
            assert(reply@.headers =~= login_reply(id@).headers);
            Action::Reply(reply)
        },
    }
}

/// A login that succeeds hands the client exactly the session the site set:
/// no content, and one `Set-Cookie` whose value is `JSESSIONID=`, the whole
/// identifier from the first of the site's `Set-Cookie` values that holds
/// one, and `; Path=/; HttpOnly`.
pub proof fn lemma_login_hands_back_the_whole_session(resp: FetchedResponse, a: ActionView)
    requires
        on_login_outcome(resp, a),
        a matches ActionView::Reply(r) && r.status == 204,
    ensures
        first_session_id(resp.set_cookies@.map_values(|c: String| c@)) matches Some(id) && a
            == ActionView::Reply(
            ReplyView {
                status: 204,
                headers: seq![(SET_COOKIE@, "JSESSIONID="@ + id + "; Path=/; HttpOnly"@)],
                body: ReplyBodyView::Empty,
            },
        ),
{
}

/// The session identifier handed back is the whole match of
/// `JSESSIONID=([^;]+)` in the first `Set-Cookie` value that holds one:
/// values before it hold none, and it is what that value's match gives.
pub proof fn lemma_first_session_id_is_first(cookies: Seq<Seq<char>>, k: int)
    requires
        0 <= k < cookies.len(),
        session_id_in(cookies[k]) is Some,
        forall|i: int| 0 <= i < k ==> #[trigger] session_id_in(cookies[i]) is None,
    ensures
        first_session_id(cookies) == session_id_in(cookies[k]),
    decreases k,
{
    if k > 0 {
        assert forall|i: int| 0 <= i < k - 1 implies #[trigger] session_id_in(cookies.drop_first()[i]) is None by {
            assert(cookies.drop_first()[i] == cookies[i + 1]);
            assert(session_id_in(cookies[i + 1]) is None);
        }
        assert(session_id_in(cookies[0]) is None);
        lemma_first_session_id_is_first(cookies.drop_first(), k - 1);
        assert(cookies.drop_first()[k - 1] == cookies[k]);
    }
}

} // verus!
