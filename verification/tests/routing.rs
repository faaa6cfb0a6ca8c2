use gotcha::app::{GotchaApp, GotchaAppWrapperExt, MESSAGER_DATA_KEY};
use gotcha::descriptor::{RouteDescriptor, RouteMeta};
use gotcha::dispatch::{complete, DispatchDecision, HandlerOutcome};
use gotcha::method::HttpMethod;
use gotcha::response::Responder;
use gotcha::router::{RegisterError, RouteOutcome, Router};

fn descriptor(id: &str, method: HttpMethod, path: &str) -> RouteDescriptor {
    RouteDescriptor::from_meta(
        id.to_string(),
        method,
        RouteMeta {
            path: path.to_string(),
            group: None,
        },
        None,
    )
}

#[test]
fn hello_world_scenario() {
    let app = GotchaApp::new()
        .service(descriptor("hello_world", HttpMethod::Get, "/hello"), 0)
        .unwrap();
    let service = app.done();
    let conn = service.call();

    match conn.call(HttpMethod::Get, "/hello") {
        DispatchDecision::Invoke { handler, params } => {
            assert_eq!(handler, 0);
            assert!(params.is_empty());
        }
        DispatchDecision::Respond(_) => panic!("expected a handler invocation"),
    }

    let response = complete(HandlerOutcome::Succeeded("hello world".to_string().to_response()));
    assert_eq!(response.status, 200);
    assert_eq!(response.body, "hello world");
}

#[test]
fn path_parameter_scenario() {
    let app = GotchaApp::new()
        .service(descriptor("get_user", HttpMethod::Get, "/users/:id"), 3)
        .unwrap();
    let service = app.done();
    let conn = service.call();

    match conn.call(HttpMethod::Get, "/users/42") {
        DispatchDecision::Invoke { handler, params } => {
            assert_eq!(handler, 3);
            assert_eq!(params.len(), 1);
            assert_eq!(params[0].0, "id");
            assert_eq!(params[0].1, "42");
            let response = complete(HandlerOutcome::Succeeded(params[0].1.clone().to_response()));
            assert_eq!(response.status, 200);
            assert_eq!(response.body, "42");
        }
        DispatchDecision::Respond(_) => panic!("expected a handler invocation"),
    }
}

#[test]
fn unregistered_method_is_404() {
    let app = GotchaApp::new()
        .service(descriptor("hello_world", HttpMethod::Get, "/hello"), 0)
        .unwrap();
    let service = app.done();
    let conn = service.call();

    match conn.call(HttpMethod::Post, "/hello") {
        DispatchDecision::Respond(response) => {
            assert_eq!(response.status, 404);
            assert_eq!(response.body, "this path does not accept this method");
        }
        DispatchDecision::Invoke { .. } => panic!("expected a miss response"),
    }
}

#[test]
fn unknown_path_is_404_with_fixed_body() {
    let app = GotchaApp::new()
        .service(descriptor("hello_world", HttpMethod::Get, "/hello"), 0)
        .unwrap();
    let service = app.done();
    let conn = service.call();

    match conn.call(HttpMethod::Get, "/unknown") {
        DispatchDecision::Respond(response) => {
            assert_eq!(response.status, 404);
            assert_eq!(response.body, "no route matches this path");
        }
        DispatchDecision::Invoke { .. } => panic!("expected a miss response"),
    }
}

#[test]
fn ambiguous_patterns_rejected() {
    let mut router = Router::new();
    assert!(router.register(HttpMethod::Get, "/a/:x", 0).is_ok());
    assert_eq!(
        router.register(HttpMethod::Get, "/a/:y", 1),
        Err(RegisterError::Ambiguous)
    );
}

#[test]
fn duplicate_route_rejected() {
    let mut router = Router::new();
    assert!(router.register(HttpMethod::Get, "/hello", 0).is_ok());
    assert_eq!(
        router.register(HttpMethod::Get, "/hello", 1),
        Err(RegisterError::Ambiguous)
    );
}

#[test]
fn static_and_parameter_segments_conflict() {
    let mut router = Router::new();
    assert!(router.register(HttpMethod::Get, "/a/b", 0).is_ok());
    assert_eq!(
        router.register(HttpMethod::Get, "/a/:x", 1),
        Err(RegisterError::Ambiguous)
    );
}

#[test]
fn same_pattern_different_methods_allowed() {
    let mut router = Router::new();
    assert!(router.register(HttpMethod::Get, "/hello", 0).is_ok());
    assert!(router.register(HttpMethod::Post, "/hello", 1).is_ok());
}

#[test]
fn malformed_patterns_rejected() {
    let mut router = Router::new();
    assert_eq!(
        router.register(HttpMethod::Get, "hello", 0),
        Err(RegisterError::MalformedPattern)
    );
    assert_eq!(
        router.register(HttpMethod::Get, "", 1),
        Err(RegisterError::MalformedPattern)
    );
    assert_eq!(
        router.register(HttpMethod::Get, "/a/:", 2),
        Err(RegisterError::MalformedPattern)
    );
}

#[test]
fn failed_handler_yields_5xx_and_connection_survives() {
    let app = GotchaApp::new()
        .service(descriptor("flaky", HttpMethod::Get, "/flaky"), 0)
        .unwrap()
        .service(descriptor("steady", HttpMethod::Get, "/steady"), 1)
        .unwrap();
    let service = app.done();
    let conn = service.call();

    assert!(matches!(
        conn.call(HttpMethod::Get, "/flaky"),
        DispatchDecision::Invoke { handler: 0, .. }
    ));
    let failure = complete(HandlerOutcome::Failed("handler blew up".to_string()));
    assert_eq!(failure.status, 500);
    assert_eq!(failure.body, "internal server error");

    match conn.call(HttpMethod::Get, "/steady") {
        DispatchDecision::Invoke { handler, .. } => {
            assert_eq!(handler, 1);
            let response = complete(HandlerOutcome::Succeeded("ok".to_string().to_response()));
            assert_eq!(response.status, 200);
            assert_eq!(response.body, "ok");
        }
        DispatchDecision::Respond(_) => panic!("expected a handler invocation"),
    }
}

#[test]
fn wrapping_is_dispatch_transparent() {
    let unwrapped = GotchaApp::new()
        .service(descriptor("hello_world", HttpMethod::Get, "/hello"), 0)
        .unwrap()
        .done();
    let wrapped = GotchaApp::new()
        .service(descriptor("hello_world", HttpMethod::Get, "/hello"), 0)
        .unwrap()
        .wrap()
        .wrap()
        .wrap()
        .done();

    for (method, path) in [
        (HttpMethod::Get, "/hello"),
        (HttpMethod::Post, "/hello"),
        (HttpMethod::Get, "/other"),
    ] {
        let a = unwrapped.call().call(method, path);
        let b = wrapped.call().call(method, path);
        match (a, b) {
            (
                DispatchDecision::Invoke { handler: ha, params: pa },
                DispatchDecision::Invoke { handler: hb, params: pb },
            ) => {
                assert_eq!(ha, hb);
                assert_eq!(pa, pb);
            }
            (DispatchDecision::Respond(ra), DispatchDecision::Respond(rb)) => {
                assert_eq!(ra.status, rb.status);
                assert_eq!(ra.body, rb.body);
            }
            _ => panic!("wrapped and unwrapped apps dispatched differently"),
        }
    }
}

#[test]
fn method_not_allowed_distinguished_from_not_found() {
    let mut router = Router::new();
    router.register(HttpMethod::Get, "/x", 0).unwrap();
    assert!(matches!(
        router.recognize(HttpMethod::Post, "/x"),
        RouteOutcome::MethodNotAllowed
    ));
    assert!(matches!(
        router.recognize(HttpMethod::Get, "/y"),
        RouteOutcome::NotFound
    ));
    assert!(matches!(
        router.recognize(HttpMethod::Get, "no-leading-slash"),
        RouteOutcome::NotFound
    ));
}

#[test]
fn root_path_routes() {
    let mut router = Router::new();
    router.register(HttpMethod::Get, "/", 9).unwrap();
    match router.recognize(HttpMethod::Get, "/") {
        RouteOutcome::Match { handler, params } => {
            assert_eq!(handler, 9);
            assert!(params.is_empty());
        }
        _ => panic!("the root path should match"),
    }
}

#[test]
fn parameter_requires_nonempty_segment() {
    let mut router = Router::new();
    router.register(HttpMethod::Get, "/users/:id", 0).unwrap();
    assert!(matches!(
        router.recognize(HttpMethod::Get, "/users/"),
        RouteOutcome::NotFound
    ));
    assert!(matches!(
        router.recognize(HttpMethod::Get, "/users"),
        RouteOutcome::NotFound
    ));
}

#[test]
fn multiple_parameters_extracted_in_order() {
    let mut router = Router::new();
    router
        .register(HttpMethod::Get, "/a/:x/b/:y", 0)
        .unwrap();
    match router.recognize(HttpMethod::Get, "/a/1/b/2") {
        RouteOutcome::Match { params, .. } => {
            assert_eq!(params.len(), 2);
            assert_eq!(params[0].0, "x");
            assert_eq!(params[0].1, "1");
            assert_eq!(params[1].0, "y");
            assert_eq!(params[1].1, "2");
        }
        _ => panic!("expected a match"),
    }
}

#[test]
fn first_registered_route_wins_across_methods() {
    let mut router = Router::new();
    router.register(HttpMethod::Post, "/a", 0).unwrap();
    router.register(HttpMethod::Get, "/a", 1).unwrap();
    match router.recognize(HttpMethod::Get, "/a") {
        RouteOutcome::Match { handler, .. } => assert_eq!(handler, 1),
        _ => panic!("expected a match"),
    }
}

#[test]
fn default_service_catches_misses() {
    let app = GotchaApp::new()
        .service(descriptor("hello_world", HttpMethod::Get, "/hello"), 0)
        .unwrap()
        .default_service(7);
    let service = app.done();
    let conn = service.call();
    match conn.call(HttpMethod::Get, "/anything") {
        DispatchDecision::Invoke { handler, params } => {
            assert_eq!(handler, 7);
            assert!(params.is_empty());
        }
        DispatchDecision::Respond(_) => panic!("expected the default handler"),
    }
}

#[test]
fn done_installs_messager_and_spawns_tasks() {
    let app = GotchaApp::new().data(11).task().task();
    let service = app.done();
    assert_eq!(service.data_keys, vec![11, MESSAGER_DATA_KEY]);
    assert_eq!(service.pending_tasks, 2);
}

#[test]
fn wrap_preserves_registered_tasks() {
    let service = GotchaApp::new().task().wrap().wrap().done();
    assert_eq!(service.pending_tasks, 1);
}

#[test]
fn into_gotcha_seeds_builder_from_router() {
    let mut router = Router::new();
    router.register(HttpMethod::Get, "/hello", 0).unwrap();
    let service = router.into_gotcha().done();
    let conn = service.call();
    assert!(matches!(
        conn.call(HttpMethod::Get, "/hello"),
        DispatchDecision::Invoke { handler: 0, .. }
    ));
}

#[test]
fn services_are_always_ready() {
    let service = GotchaApp::new().done();
    assert!(service.poll_ready());
    assert!(service.call().poll_ready());
}
