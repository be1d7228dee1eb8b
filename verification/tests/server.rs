use luna::server::{coerce_path, response_status, Method, RouteTable};

#[test]
fn coerce_path_converts_colon_param() {
    assert_eq!(coerce_path("/user/:id"), "/user/{id}");
}

#[test]
fn coerce_path_leaves_axum_style_unchanged() {
    assert_eq!(coerce_path("/user/{id}"), "/user/{id}");
}

#[test]
fn coerce_path_multiple_params() {
    assert_eq!(coerce_path("/a/:b/c/:d"), "/a/{b}/c/{d}");
}

#[test]
fn coerce_path_root_is_unchanged() {
    assert_eq!(coerce_path("/"), "/");
}

#[test]
fn coerce_path_is_idempotent_on_examples() {
    for p in ["/user/:id", "/a/:b/c/:d", ":x", "::y/", "/:/z", "", "/a//:b"] {
        let once = coerce_path(p);
        assert_eq!(coerce_path(&once), once);
    }
}

#[test]
fn coerce_path_edge_segments() {
    assert_eq!(coerce_path(""), "");
    assert_eq!(coerce_path(":"), "{}");
    assert_eq!(coerce_path("::y"), "{:y}");
    assert_eq!(coerce_path("/a//:b/"), "/a//{b}/");
    assert_eq!(coerce_path("a:b/:c"), "a:b/{c}");
    assert_eq!(coerce_path("/:é/ü"), "/{é}/ü");
}

#[test]
fn coerce_path_keeps_segment_count() {
    let p = "/a/:b//:c/";
    assert_eq!(coerce_path(p).split('/').count(), p.split('/').count());
}

#[test]
fn response_status_defaults_and_range() {
    assert_eq!(response_status(None), 200);
    assert_eq!(response_status(Some(201)), 201);
    assert_eq!(response_status(Some(100)), 100);
    assert_eq!(response_status(Some(999)), 999);
    assert_eq!(response_status(Some(99)), 200);
    assert_eq!(response_status(Some(1000)), 200);
    assert_eq!(response_status(Some(0)), 200);
}

#[test]
fn route_table_rewrites_and_keeps_order() {
    let mut t: RouteTable<u32> = RouteTable::new();
    t.add(Method::Get, "/user/:id", 1);
    t.add(Method::Post, "/items", 2);
    t.add(Method::Delete, "/a/:b/c/:d", 3);
    assert_eq!(t.len(), 3);
    let routes = t.drain();
    assert_eq!(t.len(), 0);
    let got: Vec<(Method, String, u32)> =
        routes.into_iter().map(|r| (r.method, r.path, r.handler)).collect();
    assert_eq!(
        got,
        vec![
            (Method::Get, "/user/{id}".to_string(), 1),
            (Method::Post, "/items".to_string(), 2),
            (Method::Delete, "/a/{b}/c/{d}".to_string(), 3),
        ]
    );
    for (_, p, _) in &got {
        assert_eq!(&coerce_path(p), p);
    }
}
