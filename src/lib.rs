//! An in-memory user registry served over HTTP: the record type, the keyed
//! store, the routing table and the dispatch that turns a request into a
//! response. Transport and JSON encoding live with the caller.

mod laws;
mod page;
mod route;
mod service;
mod store;
mod user;

pub use page::{index_page, INDEX_HTML};
pub use route::{parse_id, route, Method, Route};
pub use service::{dispatch, handle_request, Payload, Response};
pub use store::Store;
pub use user::User;
pub use laws::{
    lemma_create_then_lookup, lemma_cors_everywhere, lemma_delete_idempotent,
    lemma_unknown_route, lemma_update_forces_path_id, lemma_user_path_routes,
};
