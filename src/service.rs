use vstd::prelude::*;

use crate::route::{route, route_spec, Method, Route};
use crate::store::Store;
use crate::user::User;

verus! {

/// What a response carries in its body.
#[derive(Debug, PartialEq, Eq)]
pub enum Payload {
    /// The static page.
    Page,
    /// The stored record, to be sent as JSON.
    Record(User),
    /// Nothing.
    Empty,
    /// Plain text.
    Text(String),
}

/// A response ready to be written out.
#[derive(Debug)]
pub struct Response {
    pub status: u16,
    /// The three cross-origin headers, as name and value.
    pub headers: Vec<(String, String)>,
    pub content_type: Option<String>,
    pub body: Payload,
}

/// The body of a response, with its text as characters.
pub enum PayloadView {
    Page,
    Record(User),
    Empty,
    Text(Seq<char>),
}

pub struct ResponseView {
    pub status: u16,
    pub headers: Seq<(Seq<char>, Seq<char>)>,
    pub content_type: Option<Seq<char>>,
    pub body: PayloadView,
}

pub open spec fn header_texts(h: Seq<(String, String)>) -> Seq<(Seq<char>, Seq<char>)> {
    h.map_values(|p: (String, String)| (p.0@, p.1@))
}

impl Payload {
    pub open spec fn view(&self) -> PayloadView {
        match self {
            Payload::Page => PayloadView::Page,
            Payload::Record(u) => PayloadView::Record(*u),
            Payload::Empty => PayloadView::Empty,
            Payload::Text(t) => PayloadView::Text(t@),
        }
    }
}

impl Response {
    pub open spec fn view(&self) -> ResponseView {
        ResponseView {
            status: self.status,
            headers: header_texts(self.headers@),
            content_type: match self.content_type {
                Some(c) => Some(c@),
                None => None,
            },
            body: self.body.view(),
        }
    }
}

/// The headers that let a page of any origin call the service.
pub open spec fn cors_headers() -> Seq<(Seq<char>, Seq<char>)> {
    seq![
        ("access-control-allow-origin"@, "*"@),
        ("access-control-allow-methods"@, "GET, POST, PUT, DELETE"@),
        ("access-control-allow-headers"@, "content-type"@),
    ]
}

pub open spec fn html_type() -> Seq<char> {
    "text/html"@
}

pub open spec fn json_type() -> Seq<char> {
    "application/json"@
}

pub open spec fn text_type() -> Seq<char> {
    "text/plain"@
}

pub open spec fn invalid_id_text() -> Seq<char> {
    "invalid user id"@
}

pub open spec fn not_found_text() -> Seq<char> {
    "not found"@
}

pub open spec fn reply(status: u16, content_type: Option<Seq<char>>, body: PayloadView) -> ResponseView {
    ResponseView { status, headers: cors_headers(), content_type, body }
}

/// A decoded request body, with an error's text as characters.
pub open spec fn body_view(body: Result<User, String>) -> Result<User, Seq<char>> {
    match body {
        Ok(u) => Ok(u),
        Err(e) => Err(e@),
    }
}

/// What serving `route` does to the store `m`, and the response it gives.
/// `body` is the request body decoded as a record, or why it could not be.
pub open spec fn dispatch_spec(m: Map<u64, User>, route: Route, body: Result<User, Seq<char>>) -> (
    Map<u64, User>,
    ResponseView,
) {
    match route {
        Route::Page => (m, reply(200, Some(html_type()), PayloadView::Page)),
        Route::Create => match body {
            Ok(u) => (m.insert(u.id, u), reply(200, Some(json_type()), PayloadView::Record(u))),
            Err(e) => (m, reply(400, Some(text_type()), PayloadView::Text(e))),
        },
        Route::Update(id) => match body {
            Ok(u) => (
                m.insert(id, u.spec_with_id(id)),
                reply(200, Some(json_type()), PayloadView::Record(u.spec_with_id(id))),
            ),
            Err(e) => (m, reply(400, Some(text_type()), PayloadView::Text(e))),
        },
        Route::Remove(id) => (m.remove(id), reply(204, None, PayloadView::Empty)),
        Route::InvalidId => (
            m,
            reply(400, Some(text_type()), PayloadView::Text(invalid_id_text())),
        ),
        Route::NotFound => (m, reply(404, Some(text_type()), PayloadView::Text(not_found_text()))),
    }
}

/// What a request with `method` and `path` does to `m`, and its response.
pub open spec fn request_spec(
    m: Map<u64, User>,
    method: Method,
    path: Seq<char>,
    body: Result<User, Seq<char>>,
) -> (Map<u64, User>, ResponseView) {
    dispatch_spec(m, route_spec(method, path), body)
}

fn reply_with(status: u16, content_type: Option<&str>, body: Payload) -> (r: Response)
    ensures
        r.view() == reply(
            status,
            match content_type {
                Some(c) => Some(c@),
                None => None,
            },
            body.view(),
        ),
{
    let mut headers: Vec<(String, String)> = Vec::new();
    headers.push(("access-control-allow-origin".to_owned(), "*".to_owned()));
    headers.push(("access-control-allow-methods".to_owned(), "GET, POST, PUT, DELETE".to_owned()));
    headers.push(("access-control-allow-headers".to_owned(), "content-type".to_owned()));
    let content_type = match content_type {
        Some(c) => Some(c.to_owned()),
        None => None,
    };
    let r = Response { status, headers, content_type, body };
    assert(header_texts(r.headers@) =~= cors_headers());
    r
}

/// Serves `route` against `store`. `body` is the request body decoded as a
/// record, or the reason it could not be read or decoded; only `Create` and
/// `Update` look at it.
pub fn dispatch(store: &mut Store, route: Route, body: Result<User, String>) -> (r: Response)
    ensures
        (final(store)@, r.view()) == dispatch_spec(old(store)@, route, body_view(body)),
{
    match route {
        Route::Page => reply_with(200, Some("text/html"), Payload::Page),
        Route::Create => match body {
            Ok(u) => {
                let id = u.id;
                let stored = u.duplicate();
                store.insert_or_replace(id, stored);
                reply_with(200, Some("application/json"), Payload::Record(u))
            },
            Err(e) => reply_with(400, Some("text/plain"), Payload::Text(e)),
        },
        Route::Update(id) => match body {
            Ok(u) => {
                let u = u.with_id(id);
                let stored = u.duplicate();
                store.insert_or_replace(id, stored);
                reply_with(200, Some("application/json"), Payload::Record(u))
            },
            Err(e) => reply_with(400, Some("text/plain"), Payload::Text(e)),
        },
        Route::Remove(id) => {
            store.remove(id);
            reply_with(204, None, Payload::Empty)
        },
        Route::InvalidId => reply_with(
            400,
            Some("text/plain"),
            Payload::Text("invalid user id".to_owned()),
        ),
        Route::NotFound => reply_with(404, Some("text/plain"), Payload::Text("not found".to_owned())),
    }
}

/// Serves one request: routes it by method and path, then dispatches it.
pub fn handle_request(store: &mut Store, method: Method, path: &str, body: Result<User, String>) -> (r:
    Response)
    ensures
        (final(store)@, r.view()) == request_spec(old(store)@, method, path@, body_view(body)),
{
    let rt = route(method, path);
    dispatch(store, rt, body)
}

} // verus!
