//! The requests sent to the learning-management site, one module per page.

pub mod connect;
pub mod history;
pub mod list;
pub mod login;
pub mod main_page;
pub mod navi;
pub mod todo;
pub mod video;
pub mod view;
pub mod view_form;

use vstd::prelude::*;
use crate::exchange::{Destination, DestinationView, Endpoint, OutgoingRequest, RequestView};
use crate::text::{push_str, string_from_chars};

verus! {

/// The learning-management site.
pub const BASE_URL: &'static str = "https://lms.pknu.ac.kr";

/// The path of each page of the site.
pub open spec fn path_spec(endpoint: Endpoint) -> Seq<char> {
    match endpoint {
        Endpoint::Login => login::LOGIN_PATH@,
        Endpoint::MainPage => main_page::MAIN_PATH@,
        Endpoint::Todo => todo::TODO_PATH@,
        Endpoint::Connect => connect::CONNECT_PATH@,
        Endpoint::ViewForm => view_form::VIEW_FORM_PATH@,
        Endpoint::List => list::LIST_PATH@,
        Endpoint::Navi => navi::NAVI_PATH@,
        Endpoint::History => history::HISTORY_PATH@,
        Endpoint::View => view::VIEW_PATH@,
    }
}

/// The address a request goes to: the site's address and the page's path,
/// or the absolute address, then `?` and the query when there is one.
pub open spec fn url_spec(request: RequestView) -> Seq<char> {
    let base = match request.destination {
        DestinationView::Site(e) => BASE_URL@ + path_spec(e),
        DestinationView::Absolute(u) => u,
    };
    match request.query {
        Some(q) => base + "?"@ + q,
        None => base,
    }
}

/// The path of a page of the site.
pub fn path(endpoint: Endpoint) -> (r: &'static str)
    ensures
        r@ == path_spec(endpoint),
{
    match endpoint {
        Endpoint::Login => login::LOGIN_PATH,
        Endpoint::MainPage => main_page::MAIN_PATH,
        Endpoint::Todo => todo::TODO_PATH,
        Endpoint::Connect => connect::CONNECT_PATH,
        Endpoint::ViewForm => view_form::VIEW_FORM_PATH,
        Endpoint::List => list::LIST_PATH,
        Endpoint::Navi => navi::NAVI_PATH,
        Endpoint::History => history::HISTORY_PATH,
        Endpoint::View => view::VIEW_PATH,
    }
}

/// The address a request goes to.
pub fn url(request: &OutgoingRequest) -> (r: String)
    ensures
        r@ == url_spec(request@),
{
    let mut out: Vec<char> = Vec::new();
    match &request.destination {
        Destination::Site(e) => {
            push_str(&mut out, BASE_URL);
            push_str(&mut out, path(*e));
        },
        Destination::Absolute(u) => push_str(&mut out, u.as_str()),
    }
    if let Some(q) = &request.query {
        push_str(&mut out, "?");
        push_str(&mut out, q.as_str());
    }
    string_from_chars(out.as_slice())
}

} // verus!
