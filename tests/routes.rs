use next_build_core::entrypoints::{
    convert_entrypoints, ConversionError, Entrypoints, Middleware, MiddlewareConfig,
    NapiMiddleware,
};
use next_build_core::options::ProjectOptions;
use next_build_core::project::Project;
use next_build_core::routes::{Endpoint, EndpointHandle, NapiRoute, Route};

fn ep(id: u64) -> Endpoint {
    Endpoint { id }
}

fn h(id: u64) -> Option<EndpointHandle> {
    Some(EndpointHandle { session: 7, endpoint: id })
}

fn slots(n: &NapiRoute) -> [bool; 4] {
    [
        n.endpoint.is_some(),
        n.html_endpoint.is_some(),
        n.rsc_endpoint.is_some(),
        n.data_endpoint.is_some(),
    ]
}

#[test]
fn page_route_has_html_and_data() {
    let n = NapiRoute::from_route(
        "/".to_string(),
        Route::Page { html_endpoint: ep(1), data_endpoint: ep(2) },
        7,
    );
    assert_eq!(n.pathname, "/");
    assert_eq!(n.route_type, "page");
    assert_eq!(n.html_endpoint, h(1));
    assert_eq!(n.data_endpoint, h(2));
    assert_eq!(slots(&n), [false, true, false, true]);
}

#[test]
fn page_api_route_has_endpoint() {
    let n = NapiRoute::from_route("/api/x".to_string(), Route::PageApi { endpoint: ep(3) }, 7);
    assert_eq!(n.route_type, "page-api");
    assert_eq!(n.endpoint, h(3));
    assert_eq!(slots(&n), [true, false, false, false]);
}

#[test]
fn app_page_route_has_html_and_rsc() {
    let n = NapiRoute::from_route(
        "/a".to_string(),
        Route::AppPage { html_endpoint: ep(4), rsc_endpoint: ep(5) },
        7,
    );
    assert_eq!(n.route_type, "app-page");
    assert_eq!(n.html_endpoint, h(4));
    assert_eq!(n.rsc_endpoint, h(5));
    assert_eq!(slots(&n), [false, true, true, false]);
}

#[test]
fn app_route_has_endpoint() {
    let n = NapiRoute::from_route("/r".to_string(), Route::AppRoute { endpoint: ep(6) }, 7);
    assert_eq!(n.route_type, "app-route");
    assert_eq!(n.endpoint, h(6));
    assert_eq!(slots(&n), [true, false, false, false]);
}

#[test]
fn conflict_route_has_no_endpoint() {
    let n = NapiRoute::from_route("/foo".to_string(), Route::Conflict, 7);
    assert_eq!(n.pathname, "/foo");
    assert_eq!(n.route_type, "conflict");
    assert_eq!(slots(&n), [false, false, false, false]);
}

fn middleware(runtime: &str) -> Middleware {
    Middleware {
        endpoint: ep(9),
        config: MiddlewareConfig {
            runtime: runtime.to_string(),
            matcher: Some(vec!["/a/:path*".to_string()]),
        },
    }
}

#[test]
fn middleware_with_known_runtime_converts() {
    for rt in ["edge", "nodejs"] {
        let n = NapiMiddleware::from_middleware(&middleware(rt), 7).ok().unwrap();
        assert_eq!(n.endpoint, EndpointHandle { session: 7, endpoint: 9 });
        assert_eq!(n.runtime, rt);
        assert_eq!(n.matcher, Some(vec!["/a/:path*".to_string()]));
    }
}

#[test]
fn middleware_with_unknown_runtime_fails() {
    let r = NapiMiddleware::from_middleware(&middleware("deno"), 7);
    assert_eq!(r.err(), Some(ConversionError::UnknownRuntime));
    let r = NapiMiddleware::from_middleware(&middleware("Edge"), 7);
    assert_eq!(r.err(), Some(ConversionError::UnknownRuntime));
}

#[test]
fn two_sources_on_one_pathname_conflict() {
    let project = Project::new(
        ProjectOptions {
            root_path: "/repo".to_string(),
            project_path: "/repo/app".to_string(),
            watch: true,
        },
        usize::MAX,
    );
    assert!(project.is_ok());
    let mut e = Entrypoints::new();
    e.add_route("/".to_string(), Route::Page { html_endpoint: ep(1), data_endpoint: ep(2) });
    e.add_route("/foo".to_string(), Route::AppPage { html_endpoint: ep(3), rsc_endpoint: ep(4) });
    e.add_route("/foo".to_string(), Route::Page { html_endpoint: ep(5), data_endpoint: ep(6) });
    assert_eq!(e.routes.len(), 2);
    assert_eq!(e.routes[1].0, "/foo");
    assert_eq!(e.routes[1].1, Route::Conflict);
    assert_eq!(e.routes[0].1, Route::Page { html_endpoint: ep(1), data_endpoint: ep(2) });
    let out = convert_entrypoints(&e, 1).ok().unwrap();
    assert_eq!(out.len(), 1);
    assert_eq!(out[0].routes[1].pathname, "/foo");
    assert_eq!(out[0].routes[1].route_type, "conflict");
    assert!(out[0].middleware.is_none());
}

fn snapshot() -> Entrypoints {
    let mut e = Entrypoints::new();
    e.add_route("/b".to_string(), Route::AppRoute { endpoint: ep(1) });
    e.add_route("/a".to_string(), Route::PageApi { endpoint: ep(2) });
    e.middleware = Some(middleware("edge"));
    e
}

#[test]
fn conversion_keeps_order_and_middleware() {
    let out = convert_entrypoints(&snapshot(), 3).ok().unwrap();
    assert_eq!(out.len(), 1);
    let names: Vec<&str> = out[0].routes.iter().map(|r| r.pathname.as_str()).collect();
    assert_eq!(names, vec!["/b", "/a"]);
    assert_eq!(out[0].routes[0].endpoint, Some(EndpointHandle { session: 3, endpoint: 1 }));
    let m = out[0].middleware.as_ref().unwrap();
    assert_eq!(m.runtime, "edge");
    assert_eq!(m.endpoint, EndpointHandle { session: 3, endpoint: 9 });
}

#[test]
fn conversion_fails_on_unknown_runtime() {
    let mut e = snapshot();
    e.middleware = Some(middleware("bun"));
    assert_eq!(convert_entrypoints(&e, 3).err(), Some(ConversionError::UnknownRuntime));
}

#[test]
fn converting_twice_gives_the_same_content() {
    let e = snapshot();
    let a = convert_entrypoints(&e, 3).ok().unwrap();
    let b = convert_entrypoints(&e, 3).ok().unwrap();
    assert_eq!(a.len(), b.len());
    for (x, y) in a[0].routes.iter().zip(b[0].routes.iter()) {
        assert_eq!(x.pathname, y.pathname);
        assert_eq!(x.route_type, y.route_type);
        assert_eq!(slots(x), slots(y));
        assert_eq!(
            (x.endpoint, x.html_endpoint, x.rsc_endpoint, x.data_endpoint),
            (y.endpoint, y.html_endpoint, y.rsc_endpoint, y.data_endpoint)
        );
    }
    let (ma, mb) = (a[0].middleware.as_ref().unwrap(), b[0].middleware.as_ref().unwrap());
    assert_eq!((ma.endpoint, &ma.runtime, &ma.matcher), (mb.endpoint, &mb.runtime, &mb.matcher));
}
