use apigw_router::HttpMethod;
use apigw_router::QueryParams;
use apigw_router::Request;
use apigw_router::RouteTarget;
use apigw_router::RoutingConfig;

fn req(method: HttpMethod, selector: Option<&str>) -> Request {
    Request {
        method,
        path: "/api/some/path".to_string(),
        selector: selector.map(|s| s.to_string()),
        query: QueryParams::default(),
        body: None,
    }
}

fn table() -> RoutingConfig<&'static str, &'static str> {
    RoutingConfig {
        function_routes: vec![
            ("compute".to_string(), "fn-compute"),
            ("shared".to_string(), "fn-shared"),
        ],
        crud_routes: vec![
            ("items".to_string(), "crud-items"),
            ("shared".to_string(), "crud-shared"),
        ],
    }
}

#[test]
fn test_function_route_reached_by_post() {
    let cfg = table();
    match cfg.handle(&req(HttpMethod::Post, Some("compute"))) {
        Ok(RouteTarget::Function(f)) => assert_eq!(*f, "fn-compute"),
        _ => panic!("expected the function route"),
    }
}

#[test]
fn test_function_routes_ignore_other_methods() {
    let cfg = table();
    // A GET cannot reach a function route; the selector is unknown to the
    // CRUD table, so the request is a routing error.
    assert!(cfg.handle(&req(HttpMethod::Get, Some("compute"))).is_err());
}

#[test]
fn test_crud_route_reached_by_any_method() {
    let cfg = table();
    for method in [HttpMethod::Get, HttpMethod::Post, HttpMethod::Put, HttpMethod::Delete] {
        match cfg.handle(&req(method, Some("items"))) {
            Ok(RouteTarget::Crud(c)) => assert_eq!(*c, "crud-items"),
            _ => panic!("expected the crud route"),
        }
    }
}

#[test]
fn test_function_table_takes_precedence_on_post() {
    let cfg = table();
    match cfg.handle(&req(HttpMethod::Post, Some("shared"))) {
        Ok(RouteTarget::Function(f)) => assert_eq!(*f, "fn-shared"),
        _ => panic!("expected the function route to win"),
    }
    match cfg.handle(&req(HttpMethod::Put, Some("shared"))) {
        Ok(RouteTarget::Crud(c)) => assert_eq!(*c, "crud-shared"),
        _ => panic!("expected the crud route"),
    }
}

#[test]
fn test_unknown_selector_keeps_path_for_logs() {
    let cfg = table();
    let e = cfg.handle(&req(HttpMethod::Get, Some("nothing"))).unwrap_err();
    assert_eq!(e.detail.as_deref(), Some("/api/some/path"));
    // The client-facing message does not echo the path.
    assert!(!e.message.contains("/api/some/path"));
}

#[test]
fn test_missing_selector_is_a_routing_error() {
    let cfg = table();
    assert!(cfg.handle(&req(HttpMethod::Get, None)).is_err());
}
