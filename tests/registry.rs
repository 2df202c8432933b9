use user_registry::{
    dispatch, handle_request, index_page, parse_id, route, Method, Payload, Response, Route,
    Store, User, INDEX_HTML,
};

fn user(id: u64, name: &str, email: &str, password: &str) -> User {
    User::new(id, name.to_string(), email.to_string(), password.to_string())
}

fn ana(id: u64) -> User {
    user(id, "Ana", "a@x.com", "p")
}

fn assert_cors(r: &Response) {
    let expected = vec![
        ("access-control-allow-origin".to_string(), "*".to_string()),
        ("access-control-allow-methods".to_string(), "GET, POST, PUT, DELETE".to_string()),
        ("access-control-allow-headers".to_string(), "content-type".to_string()),
    ];
    assert_eq!(r.headers, expected);
}

#[test]
fn create_echoes_record() {
    let mut store = Store::new();
    let r = handle_request(&mut store, Method::Post, "/users", Ok(ana(1)));
    assert_eq!(r.status, 200);
    assert_eq!(r.content_type, Some("application/json".to_string()));
    assert_eq!(r.body, Payload::Record(ana(1)));
    assert_cors(&r);
    assert_eq!(store.get(1), Some(ana(1)));
    assert_eq!(store.len(), 1);
}

#[test]
fn create_then_lookup_same_id() {
    let mut store = Store::new();
    let r = user(42, "Bia", "b@y.org", "secret");
    handle_request(&mut store, Method::Post, "/users", Ok(r.duplicate()));
    assert_eq!(store.get(42), Some(r));
    assert_eq!(store.get(1), None);
}

#[test]
fn create_replaces_existing() {
    let mut store = Store::new();
    handle_request(&mut store, Method::Post, "/users", Ok(ana(1)));
    handle_request(&mut store, Method::Post, "/users", Ok(user(1, "Ana B", "a@x.com", "q")));
    assert_eq!(store.len(), 1);
    assert_eq!(store.get(1), Some(user(1, "Ana B", "a@x.com", "q")));
}

#[test]
fn update_forces_path_id() {
    let mut store = Store::new();
    let body = user(999, "Ana B", "a@x.com", "p");
    let r = handle_request(&mut store, Method::Put, "/users/1", Ok(body));
    assert_eq!(r.status, 200);
    assert_eq!(r.content_type, Some("application/json".to_string()));
    assert_eq!(r.body, Payload::Record(user(1, "Ana B", "a@x.com", "p")));
    assert_cors(&r);
    assert_eq!(store.get(1), Some(user(1, "Ana B", "a@x.com", "p")));
    assert!(!store.contains(999));
}

#[test]
fn update_overwrites_whole_record() {
    let mut store = Store::new();
    handle_request(&mut store, Method::Post, "/users", Ok(ana(7)));
    handle_request(&mut store, Method::Put, "/users/7", Ok(user(0, "X", "x@x", "y")));
    assert_eq!(store.get(7), Some(user(7, "X", "x@x", "y")));
    assert_eq!(store.len(), 1);
}

#[test]
fn delete_twice_gives_204() {
    let mut store = Store::new();
    handle_request(&mut store, Method::Post, "/users", Ok(ana(1)));
    let first = handle_request(&mut store, Method::Delete, "/users/1", Err(String::new()));
    assert_eq!(first.status, 204);
    assert_eq!(first.body, Payload::Empty);
    assert_eq!(first.content_type, None);
    assert_cors(&first);
    assert!(!store.contains(1));
    let second = handle_request(&mut store, Method::Delete, "/users/1", Err(String::new()));
    assert_eq!(second.status, 204);
    assert_eq!(second.body, Payload::Empty);
    assert_cors(&second);
    assert_eq!(store.len(), 0);
}

#[test]
fn delete_keeps_other_records() {
    let mut store = Store::new();
    handle_request(&mut store, Method::Post, "/users", Ok(ana(1)));
    handle_request(&mut store, Method::Post, "/users", Ok(ana(2)));
    handle_request(&mut store, Method::Delete, "/users/1", Err(String::new()));
    assert_eq!(store.get(2), Some(ana(2)));
    assert_eq!(store.len(), 1);
}

#[test]
fn invalid_json_gives_400() {
    let mut store = Store::new();
    let msg = "EOF while parsing an object at line 1 column 10".to_string();
    let r = handle_request(&mut store, Method::Post, "/users", Err(msg.clone()));
    assert_eq!(r.status, 400);
    assert_eq!(r.content_type, Some("text/plain".to_string()));
    assert_eq!(r.body, Payload::Text(msg));
    assert_cors(&r);
    assert_eq!(store.len(), 0);
}

#[test]
fn invalid_json_on_update_gives_400() {
    let mut store = Store::new();
    handle_request(&mut store, Method::Post, "/users", Ok(ana(1)));
    let r = handle_request(&mut store, Method::Put, "/users/1", Err("bad".to_string()));
    assert_eq!(r.status, 400);
    assert_eq!(store.get(1), Some(ana(1)));
}

#[test]
fn invalid_id_gives_400() {
    let mut store = Store::new();
    let r = handle_request(&mut store, Method::Put, "/users/abc", Ok(ana(1)));
    assert_eq!(r.status, 400);
    assert_eq!(r.body, Payload::Text("invalid user id".to_string()));
    assert_cors(&r);
    assert_eq!(store.len(), 0);
    let r = handle_request(&mut store, Method::Delete, "/users/", Err(String::new()));
    assert_eq!(r.status, 400);
}

#[test]
fn index_page_served() {
    let mut store = Store::new();
    let r = handle_request(&mut store, Method::Get, "/", Err(String::new()));
    assert_eq!(r.status, 200);
    assert_eq!(r.content_type, Some("text/html".to_string()));
    assert_eq!(r.body, Payload::Page);
    assert_cors(&r);
    assert_eq!(index_page(), INDEX_HTML);
    assert!(index_page().starts_with("<!DOCTYPE html>"));
}

#[test]
fn unknown_route_gives_404() {
    let mut store = Store::new();
    let cases = [
        (Method::Get, "/users"),
        (Method::Get, "/users/1"),
        (Method::Post, "/users/"),
        (Method::Post, "/"),
        (Method::Other, "/"),
        (Method::Other, "/users/1"),
        (Method::Get, "/index.html"),
        (Method::Put, "/users"),
        (Method::Delete, "/user/1"),
    ];
    for (m, p) in cases {
        let r = handle_request(&mut store, m, p, Ok(ana(1)));
        assert_eq!(r.status, 404);
        assert_eq!(r.body, Payload::Text("not found".to_string()));
        assert_eq!(r.content_type, Some("text/plain".to_string()));
        assert_cors(&r);
    }
    assert_eq!(store.len(), 0);
}

#[test]
fn every_response_has_cors_headers() {
    let mut store = Store::new();
    let requests = [
        (Method::Get, "/", Err(String::new())),
        (Method::Post, "/users", Ok(ana(3))),
        (Method::Post, "/users", Err("x".to_string())),
        (Method::Put, "/users/3", Ok(ana(0))),
        (Method::Put, "/users/x", Ok(ana(0))),
        (Method::Delete, "/users/3", Err(String::new())),
        (Method::Other, "/nowhere", Err(String::new())),
    ];
    for (m, p, b) in requests {
        let r = handle_request(&mut store, m, p, b);
        assert_cors(&r);
    }
}

#[test]
fn routing_table() {
    assert_eq!(route(Method::Get, "/"), Route::Page);
    assert_eq!(route(Method::Post, "/users"), Route::Create);
    assert_eq!(route(Method::Put, "/users/12"), Route::Update(12));
    assert_eq!(route(Method::Delete, "/users/12"), Route::Remove(12));
    assert_eq!(route(Method::Put, "/users/1x"), Route::InvalidId);
    assert_eq!(route(Method::Delete, "/users/-1"), Route::InvalidId);
    assert_eq!(route(Method::Get, ""), Route::NotFound);
    assert_eq!(route(Method::Get, "//"), Route::NotFound);
    assert_eq!(route(Method::Post, "/users?x=1"), Route::NotFound);
}

#[test]
fn repeated_prefix_is_stripped() {
    assert_eq!(route(Method::Delete, "/users//users/7"), Route::Remove(7));
    assert_eq!(parse_id("/users//users/7"), Some(7));
}

#[test]
fn parse_id_bounds() {
    assert_eq!(parse_id("/users/0"), Some(0));
    assert_eq!(parse_id("/users/007"), Some(7));
    assert_eq!(parse_id("/users/+5"), Some(5));
    assert_eq!(parse_id("/users/18446744073709551615"), Some(u64::MAX));
    assert_eq!(parse_id("/users/18446744073709551616"), None);
    assert_eq!(parse_id("/users/"), None);
    assert_eq!(parse_id("/users/+"), None);
    assert_eq!(parse_id("/users/ 5"), None);
    assert_eq!(parse_id("/users/5/"), None);
    assert_eq!(parse_id("/users/1.5"), None);
}

#[test]
fn needs_body_only_for_writes() {
    assert!(Route::Create.needs_body());
    assert!(Route::Update(3).needs_body());
    assert!(!Route::Remove(3).needs_body());
    assert!(!Route::Page.needs_body());
    assert!(!Route::InvalidId.needs_body());
    assert!(!Route::NotFound.needs_body());
}

#[test]
fn dispatch_by_route() {
    let mut store = Store::new();
    let r = dispatch(&mut store, Route::Update(5), Ok(ana(9)));
    assert_eq!(r.body, Payload::Record(ana(5)));
    let r = dispatch(&mut store, Route::Remove(5), Err(String::new()));
    assert_eq!(r.status, 204);
    assert_eq!(store.len(), 0);
}

#[test]
fn store_operations() {
    let mut store = Store::new();
    assert_eq!(store.len(), 0);
    store.insert_or_replace(4, ana(4));
    assert!(store.contains(4));
    store.insert_or_replace(4, user(4, "Z", "z", "z"));
    assert_eq!(store.get(4), Some(user(4, "Z", "z", "z")));
    store.remove(4);
    store.remove(4);
    assert!(!store.contains(4));
    assert_eq!(store.len(), 0);
}

#[test]
fn user_with_id_keeps_fields() {
    let u = ana(1).with_id(8);
    assert_eq!(u, ana(8));
    assert_eq!(u.duplicate(), u);
}

#[test]
fn get_all_lists_every_record() {
    let mut store = Store::new();
    assert!(store.get_all().is_empty());
    handle_request(&mut store, Method::Post, "/users", Ok(ana(1)));
    handle_request(&mut store, Method::Post, "/users", Ok(ana(2)));
    handle_request(&mut store, Method::Put, "/users/3", Ok(ana(0)));
    handle_request(&mut store, Method::Delete, "/users/2", Err(String::new()));
    let mut all = store.get_all();
    all.sort_by_key(|p| p.0);
    assert_eq!(all, vec![(1, ana(1)), (3, ana(3))]);
}
