//! What a handler asks the surrounding program to do, and what it is told
//! back: requests to send to the site, replies to give the client, and the
//! responses that come back.

use vstd::prelude::*;
use crate::models::history_response_data::HistoryResponseData;
use crate::models::lecture::{Lecture, LectureView};
use crate::models::navi_response_data::NaviResponseData;
use crate::utils::{FetchedResponse, HeaderList};

verus! {

/// An HTTP request method, as far as routing tells them apart.
#[derive(Clone, Copy, PartialEq, Eq, Debug)]
pub enum HttpMethod {
    Get,
    Post,
    Options,
    Other,
}

/// A page of the learning-management site.
#[derive(Clone, Copy, PartialEq, Eq, Debug)]
pub enum Endpoint {
    Login,
    MainPage,
    Todo,
    Connect,
    ViewForm,
    List,
    Navi,
    History,
    View,
}

/// Where a request goes: a page of the site, or an absolute address.
pub enum Destination {
    Site(Endpoint),
    Absolute(String),
}

/// A request to send.
pub struct OutgoingRequest {
    pub destination: Destination,
    /// The query string, without its leading `?`.
    pub query: Option<String>,
    pub method: HttpMethod,
    pub headers: HeaderList,
    /// A URL-encoded form body.
    pub body: Option<String>,
    /// Whether redirects are returned rather than followed.
    pub manual_redirect: bool,
}

/// What to read of the response to a request, and to hand back as the next
/// event.
#[derive(Clone, Copy, PartialEq, Eq, Debug)]
pub enum ReadAs {
    /// The status only.
    Status,
    /// The status and the body text.
    Text,
    /// The status, the body text and every `Set-Cookie` value.
    TextAndCookies,
    /// The body as a lesson item's JSON description.
    Navi,
    /// The body as a viewing history entry's JSON description.
    History,
    /// Nothing: the response only has to arrive.
    Nothing,
}

/// The body of a reply to the client.
pub enum ReplyBody {
    /// A plain text message.
    Text(String),
    /// No body.
    Empty,
    /// Lectures, as JSON.
    Lectures(Vec<Lecture>),
    /// Video addresses, as JSON.
    Videos(Vec<String>),
}

/// A reply to the client.
pub struct Reply {
    pub status: u16,
    pub headers: HeaderList,
    pub body: ReplyBody,
}

/// Why a handler cannot go on, where the service stops with a panic.
#[derive(Clone, Copy, PartialEq, Eq, Debug)]
pub enum Fault {
    /// The regex crate refused one of the patterns.
    PatternRefused,
    /// A video page declared no duration.
    MissingDuration,
    /// A playback time does not fit in 32 bits.
    TimeOverflow,
}

/// The next thing for the surrounding program to do.
pub enum Action {
    /// Send a request, and report what the given reading of its response
    /// finds.
    Send(OutgoingRequest, ReadAs),
    /// Give this reply to the client; the exchange is over.
    Reply(Reply),
    /// Stop with a fault; the exchange is over.
    Abort(Fault),
}

/// What came back for the last request sent.
pub enum Event {
    Response(FetchedResponse),
    Navi(NaviResponseData),
    History(HistoryResponseData),
}

pub enum DestinationView {
    Site(Endpoint),
    Absolute(Seq<char>),
}

pub struct RequestView {
    pub destination: DestinationView,
    pub query: Option<Seq<char>>,
    pub method: HttpMethod,
    pub headers: Seq<(Seq<char>, Seq<char>)>,
    pub body: Option<Seq<char>>,
    pub manual_redirect: bool,
}

pub enum ReplyBodyView {
    Text(Seq<char>),
    Empty,
    Lectures(Seq<LectureView>),
    Videos(Seq<Seq<char>>),
}

pub struct ReplyView {
    pub status: u16,
    pub headers: Seq<(Seq<char>, Seq<char>)>,
    pub body: ReplyBodyView,
}

pub enum ActionView {
    Send(RequestView, ReadAs),
    Reply(ReplyView),
    Abort(Fault),
}

/// An optional text, by value.
pub open spec fn opt_view(t: Option<String>) -> Option<Seq<char>> {
    match t {
        Some(s) => Some(s@),
        None => None,
    }
}

impl View for Destination {
    type V = DestinationView;

    open spec fn view(&self) -> DestinationView {
        match self {
            Destination::Site(e) => DestinationView::Site(*e),
            Destination::Absolute(u) => DestinationView::Absolute(u@),
        }
    }
}

impl View for OutgoingRequest {
    type V = RequestView;

    open spec fn view(&self) -> RequestView {
        RequestView {
            destination: self.destination@,
            query: opt_view(self.query),
            method: self.method,
            headers: self.headers@,
            body: opt_view(self.body),
            manual_redirect: self.manual_redirect,
        }
    }
}

impl View for ReplyBody {
    type V = ReplyBodyView;

    open spec fn view(&self) -> ReplyBodyView {
        match self {
            ReplyBody::Text(t) => ReplyBodyView::Text(t@),
            ReplyBody::Empty => ReplyBodyView::Empty,
            ReplyBody::Lectures(ls) => ReplyBodyView::Lectures(ls@.map_values(|l: Lecture| l@)),
            ReplyBody::Videos(vs) => ReplyBodyView::Videos(vs@.map_values(|v: String| v@)),
        }
    }
}

impl View for Reply {
    type V = ReplyView;

    open spec fn view(&self) -> ReplyView {
        ReplyView { status: self.status, headers: self.headers@, body: self.body@ }
    }
}

impl View for Action {
    type V = ActionView;

    open spec fn view(&self) -> ActionView {
        match self {
            Action::Send(r, read) => ActionView::Send(r@, *read),
            Action::Reply(r) => ActionView::Reply(r@),
            Action::Abort(f) => ActionView::Abort(*f),
        }
    }
}

/// A plain text error reply with the given status and no headers.
pub open spec fn error_reply(message: Seq<char>, status: u16) -> ReplyView {
    ReplyView { status, headers: Seq::empty(), body: ReplyBodyView::Text(message) }
}

/// The action that answers with an error message.
pub open spec fn error_action(message: Seq<char>, status: u16) -> ActionView {
    ActionView::Reply(error_reply(message, status))
}

/// An error reply: `message` as plain text, with an error status.
pub fn plain_error(message: &str, status: u16) -> (r: Reply)
    requires
        400 <= status <= 599,
    ensures
        r@ == error_reply(message@, status),
{
    Reply { status, headers: HeaderList::new(), body: ReplyBody::Text(message.to_owned()) }
}

/// The action that answers with an error message.
pub fn fail(message: &str, status: u16) -> (r: Action)
    requires
        400 <= status <= 599,
    ensures
        r@ == error_action(message@, status),
{
    Action::Reply(plain_error(message, status))
}

/// A reply that the service can send: error messages carry an error status
/// (400 to 599, the range `Response::error` accepts), empty replies carry 204
/// and JSON replies carry 200.
pub open spec fn reply_is_sendable(r: ReplyView) -> bool {
    match r.body {
        ReplyBodyView::Text(_) => 400 <= r.status <= 599,
        ReplyBodyView::Empty => r.status == 204,
        _ => r.status == 200,
    }
}

/// An action whose reply, if it has one, can be sent.
pub open spec fn action_is_sendable(a: ActionView) -> bool {
    a matches ActionView::Reply(r) ==> reply_is_sendable(r)
}

} // verus!
