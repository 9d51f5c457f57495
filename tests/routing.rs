use backend::{Configuration, Handler, Method, RouteTable, Startup};

fn table(serves_frontend: bool) -> RouteTable {
    let startup = if serves_frontend {
        Configuration {
            host: "127.0.0.1".to_string(),
            port: 8080,
            frontend_folder: Some("dist".to_string()),
        }
        .validate(true)
        .unwrap()
    } else {
        Startup::WithoutFrontend
    };
    RouteTable::new(&startup)
}

#[test]
fn health_is_served_without_frontend() {
    let t = table(false);
    assert!(!t.serves_frontend);
    assert_eq!(t.dispatch(Method::Get, "/health"), Handler::Health);
}

#[test]
fn other_paths_not_found_without_frontend() {
    let t = table(false);
    assert_eq!(t.dispatch(Method::Get, "/anything-else"), Handler::NotFound);
    assert_eq!(t.dispatch(Method::Get, "/"), Handler::NotFound);
    assert_eq!(t.dispatch(Method::Get, "/v"), Handler::NotFound);
    assert_eq!(t.dispatch(Method::Get, "/v/foo/bar"), Handler::NotFound);
    assert_eq!(t.dispatch(Method::Get, "/compile"), Handler::NotFound);
}

#[test]
fn health_accepts_any_method() {
    for fe in [false, true] {
        let t = table(fe);
        assert_eq!(t.dispatch(Method::Get, "/health"), Handler::Health);
        assert_eq!(t.dispatch(Method::Post, "/health"), Handler::Health);
        assert_eq!(t.dispatch(Method::Head, "/health"), Handler::Health);
        assert_eq!(t.dispatch(Method::Delete, "/health"), Handler::Health);
    }
}

#[test]
fn compile_needs_post() {
    assert_eq!(table(false).dispatch(Method::Post, "/compile"), Handler::Compile);
    assert_eq!(table(true).dispatch(Method::Post, "/compile"), Handler::Compile);
    assert_eq!(table(true).dispatch(Method::Get, "/compile"), Handler::StaticAssets);
    assert_eq!(table(true).dispatch(Method::Put, "/compile"), Handler::MethodNotAllowed);
}

#[test]
fn version_route_ignores_suffix() {
    let t = table(true);
    assert_eq!(t.dispatch(Method::Get, "/v"), Handler::FrontendVersion);
    assert_eq!(t.dispatch(Method::Get, "/v/foo/bar?x=1"), Handler::FrontendVersion);
    assert_eq!(t.dispatch(Method::Get, "/v/foo/bar"), Handler::FrontendVersion);
    assert_eq!(t.dispatch(Method::Get, "/v1.2.3/index.js"), Handler::FrontendVersion);
}

#[test]
fn version_route_only_for_get() {
    let t = table(true);
    assert_eq!(t.dispatch(Method::Head, "/v/foo"), Handler::StaticAssets);
    assert_eq!(t.dispatch(Method::Post, "/v/foo"), Handler::MethodNotAllowed);
}

#[test]
fn static_assets_with_frontend() {
    let t = table(true);
    assert_eq!(t.dispatch(Method::Get, "/"), Handler::StaticAssets);
    assert_eq!(t.dispatch(Method::Get, "/assets/app.js"), Handler::StaticAssets);
    assert_eq!(t.dispatch(Method::Get, "/healthz"), Handler::StaticAssets);
    assert_eq!(t.dispatch(Method::Head, "/index.html"), Handler::StaticAssets);
    assert_eq!(t.dispatch(Method::Get, ""), Handler::StaticAssets);
}

#[test]
fn static_assets_refuse_other_methods() {
    let t = table(true);
    assert_eq!(t.dispatch(Method::Post, "/assets/app.js"), Handler::MethodNotAllowed);
    assert_eq!(t.dispatch(Method::Options, "/"), Handler::MethodNotAllowed);
    assert_eq!(t.dispatch(Method::Other, "/x"), Handler::MethodNotAllowed);
}

#[test]
fn non_ascii_paths_are_routed() {
    let t = table(true);
    assert_eq!(t.dispatch(Method::Get, "/vé"), Handler::FrontendVersion);
    assert_eq!(t.dispatch(Method::Get, "/é"), Handler::StaticAssets);
    assert_eq!(table(false).dispatch(Method::Get, "/é"), Handler::NotFound);
}

#[test]
fn health_under_many_requests() {
    let t = table(true);
    for _ in 0..1000 {
        assert_eq!(t.dispatch(Method::Get, "/health"), Handler::Health);
    }
}
