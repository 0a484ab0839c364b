use axum::body::Body;
use axum::http::Request;
use axum::Router;
use hello_axum::router::{app, service};
use hello_axum::greeter::hello_world;
use tower::ServiceExt;

/// Sends one request to the router and returns the status and the body text.
fn send(router: Router, request: Request<Body>) -> (u16, String) {
    let runtime = tokio::runtime::Builder::new_current_thread()
        .build()
        .expect("runtime");
    runtime.block_on(async move {
        let response = router.oneshot(request).await.expect("infallible");
        let status = response.status().as_u16();
        let bytes = axum::body::to_bytes(response.into_body(), usize::MAX)
            .await
            .expect("body");
        (status, String::from_utf8(bytes.to_vec()).expect("utf-8"))
    })
}

fn request(method: &str, uri: &str) -> Request<Body> {
    Request::builder()
        .method(method)
        .uri(uri)
        .body(Body::empty())
        .expect("request")
}

#[test]
fn handler_returns_greeting() {
    assert_eq!(hello_world(), "Hello World");
}

#[test]
fn get_root_returns_hello_world() {
    let (status, body) = send(app(), request("GET", "http://localhost:3000/"));
    assert_eq!(status, 200);
    assert_eq!(body, "Hello World");
}

#[test]
fn get_missing_path_is_not_ok() {
    let (status, body) = send(app(), request("GET", "http://localhost:3000/missing"));
    assert_ne!(status, 200);
    assert_eq!(status, 404);
    assert_ne!(body, "Hello World");
}

#[test]
fn get_root_ignores_query_headers_and_body() {
    let req = Request::builder()
        .method("GET")
        .uri("/?name=someone&x=1")
        .header("accept", "application/json")
        .header("x-custom", "value")
        .body(Body::from("some request body"))
        .expect("request");
    let (status, body) = send(app(), req);
    assert_eq!(status, 200);
    assert_eq!(body, "Hello World");
}

#[test]
fn other_methods_on_root_are_not_greeted() {
    for method in ["POST", "PUT", "DELETE", "PATCH", "OPTIONS", "TRACE"] {
        let (status, body) = send(app(), request(method, "/"));
        assert!(!(status == 200 && body == "Hello World"), "{method}");
        assert_eq!(status, 405, "{method}");
    }
}

#[test]
fn head_root_has_no_body() {
    let (status, body) = send(app(), request("HEAD", "/"));
    assert_eq!(status, 200);
    assert_eq!(body, "");
}

#[test]
fn get_on_other_paths_is_not_greeted() {
    for uri in ["/hello", "/index.html", "//", "/missing/deeper"] {
        let (status, body) = send(app(), request("GET", uri));
        assert!(!(status == 200 && body == "Hello World"), "{uri}");
    }
}

#[test]
fn service_holds_the_greeter_router() {
    let svc = service();
    let (status, body) = send(svc.0, request("GET", "/"));
    assert_eq!(status, 200);
    assert_eq!(body, "Hello World");
    let (status, _) = send(service().0, request("GET", "/missing"));
    assert_eq!(status, 404);
}
