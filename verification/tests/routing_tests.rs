use runeweb::routing::{
    handled_reply, has_leading_slash, normalize_route_path, not_found_reply, RouteTable,
};
use runeweb::scripts::WebResult;

#[test]
fn leading_slash_detection() {
    assert!(has_leading_slash("/a"));
    assert!(has_leading_slash("/"));
    assert!(!has_leading_slash("a/"));
    assert!(!has_leading_slash(""));
}

#[test]
fn normalize_adds_missing_slash() {
    assert_eq!(normalize_route_path(String::from("hello")), "/hello");
    assert_eq!(normalize_route_path(String::from("")), "/");
    assert_eq!(normalize_route_path(String::from("a/b")), "/a/b");
}

#[test]
fn normalize_keeps_slashed_path() {
    assert_eq!(normalize_route_path(String::from("/hello")), "/hello");
    assert_eq!(normalize_route_path(String::from("//x")), "//x");
}

#[test]
fn normalize_is_idempotent() {
    for p in ["", "x", "/x", "é/ü"] {
        let once = normalize_route_path(String::from(p));
        let twice = normalize_route_path(once.clone());
        assert_eq!(once, twice);
    }
}

#[test]
fn bare_and_slashed_paths_name_same_route() {
    let mut t: RouteTable<u32> = RouteTable::new();
    assert_eq!(t.add_route(String::from("api"), 1), "/api");
    assert_eq!(t.add_route(String::from("/api"), 2), "/api");
    assert_eq!(t.get(&String::from("/api")), Some(&2));
    assert_eq!(t.get(&String::from("api")), None);
}

#[test]
fn lookup_after_add() {
    let mut t: RouteTable<&str> = RouteTable::new();
    assert_eq!(t.get(&String::from("/a")), None);
    t.add_route(String::from("/a"), "first");
    t.add_route(String::from("b"), "second");
    assert_eq!(t.get(&String::from("/a")), Some(&"first"));
    assert_eq!(t.get(&String::from("/b")), Some(&"second"));
    assert_eq!(t.get(&String::from("/c")), None);
}

#[test]
fn insert_replaces_and_keeps_others() {
    let mut t: RouteTable<u8> = RouteTable::new();
    t.insert(String::from("/x"), 1);
    t.insert(String::from("/y"), 2);
    t.insert(String::from("/x"), 3);
    assert_eq!(t.get(&String::from("/x")), Some(&3));
    assert_eq!(t.get(&String::from("/y")), Some(&2));
}

#[test]
fn lookup_is_exact() {
    let mut t: RouteTable<u8> = RouteTable::new();
    t.insert(String::from("/x"), 1);
    assert_eq!(t.get(&String::from("/x/")), None);
    assert_eq!(t.get(&String::from("/X")), None);
}

#[test]
fn replies() {
    let r = not_found_reply();
    assert_eq!(r.status, 404);
    assert_eq!(r.body, "Route not found");
    let r = handled_reply();
    assert_eq!(r.status, 200);
    assert_eq!(r.body, "");
}

#[test]
fn web_result_holds_body() {
    match WebResult::Body(String::from("hi")) {
        WebResult::Body(b) => assert_eq!(b, "hi"),
        WebResult::Empty => panic!("expected a body"),
    }
}

#[test]
fn bare_and_slashed_share_one_entry() {
    let mut t: RouteTable<u8> = RouteTable::new();
    t.add_route(String::from("a"), 1);
    t.add_route(String::from("/a"), 2);
    t.add_route(String::from("b"), 3);
    assert_eq!(t.get(&String::from("/a")), Some(&2));
    assert_eq!(t.get(&String::from("/b")), Some(&3));
}
