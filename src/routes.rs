//! The entrypoints snapshot of a project (routes and middleware) and its
//! conversion into the shapes handed to the host.
use vstd::prelude::*;

verus! {

/// A reference to a buildable target in the computation graph.
#[derive(Clone, Copy, PartialEq, Eq, Structural, Debug)]
pub struct Endpoint {
    pub id: u64,
}

/// A handle to an endpoint as the host holds it: the endpoint's identifier
/// and the session that owns it, through which every use is resolved.
#[derive(Clone, Copy, PartialEq, Eq, Structural, Debug)]
pub struct EndpointHandle {
    pub session: u64,
    pub endpoint: u64,
}

/// What a pathname of the project routes to; each variant holds exactly the
/// endpoints of its shape.
#[derive(Clone, Copy, PartialEq, Eq, Structural, Debug)]
pub enum Route {
    Page { html_endpoint: Endpoint, data_endpoint: Endpoint },
    PageApi { endpoint: Endpoint },
    AppPage { html_endpoint: Endpoint, rsc_endpoint: Endpoint },
    AppRoute { endpoint: Endpoint },
    /// Two source files map to the same pathname.
    Conflict,
}

/// The endpoint slots of a converted route.
#[derive(Clone, Copy, PartialEq, Eq, Structural, Debug)]
pub enum Slot {
    Endpoint,
    Html,
    Rsc,
    Data,
}

/// A route as the host sees it: its pathname, the name of its variant, and
/// the endpoints of that variant; the other slots are absent.
pub struct NapiRoute {
    /// The relative path from the project path to the route file.
    pub pathname: String,
    /// The kind of route: "page", "page-api", "app-page", "app-route" or
    /// "conflict".
    pub route_type: &'static str,
    pub endpoint: Option<EndpointHandle>,
    pub html_endpoint: Option<EndpointHandle>,
    pub rsc_endpoint: Option<EndpointHandle>,
    pub data_endpoint: Option<EndpointHandle>,
}

/// The handle of `e` in session `session`.
pub open spec fn handle_of(e: Endpoint, session: u64) -> EndpointHandle {
    EndpointHandle { session, endpoint: e.id }
}

/// The name of a route's variant at the host boundary.
pub open spec fn route_type_of(r: Route) -> Seq<char> {
    match r {
        Route::Page { .. } => "page"@,
        Route::PageApi { .. } => "page-api"@,
        Route::AppPage { .. } => "app-page"@,
        Route::AppRoute { .. } => "app-route"@,
        Route::Conflict => "conflict"@,
    }
}

/// The slots that a route's variant defines.
pub open spec fn route_slots(r: Route) -> Set<Slot> {
    match r {
        Route::Page { .. } => set![Slot::Html, Slot::Data],
        Route::PageApi { .. } => set![Slot::Endpoint],
        Route::AppPage { .. } => set![Slot::Html, Slot::Rsc],
        Route::AppRoute { .. } => set![Slot::Endpoint],
        Route::Conflict => Set::empty(),
    }
}

/// What the `endpoint` slot of the converted route holds.
pub open spec fn endpoint_slot(r: Route, session: u64) -> Option<EndpointHandle> {
    match r {
        Route::PageApi { endpoint } => Some(handle_of(endpoint, session)),
        Route::AppRoute { endpoint } => Some(handle_of(endpoint, session)),
        _ => None,
    }
}

/// What the `html_endpoint` slot of the converted route holds.
pub open spec fn html_slot(r: Route, session: u64) -> Option<EndpointHandle> {
    match r {
        Route::Page { html_endpoint, .. } => Some(handle_of(html_endpoint, session)),
        Route::AppPage { html_endpoint, .. } => Some(handle_of(html_endpoint, session)),
        _ => None,
    }
}

/// What the `rsc_endpoint` slot of the converted route holds.
pub open spec fn rsc_slot(r: Route, session: u64) -> Option<EndpointHandle> {
    match r {
        Route::AppPage { rsc_endpoint, .. } => Some(handle_of(rsc_endpoint, session)),
        _ => None,
    }
}

/// What the `data_endpoint` slot of the converted route holds.
pub open spec fn data_slot(r: Route, session: u64) -> Option<EndpointHandle> {
    match r {
        Route::Page { data_endpoint, .. } => Some(handle_of(data_endpoint, session)),
        _ => None,
    }
}

/// The slots of a converted route that hold an endpoint.
pub open spec fn present_slots(n: NapiRoute) -> Set<Slot> {
    Set::new(
        |s: Slot|
            match s {
                Slot::Endpoint => n.endpoint.is_some(),
                Slot::Html => n.html_endpoint.is_some(),
                Slot::Rsc => n.rsc_endpoint.is_some(),
                Slot::Data => n.data_endpoint.is_some(),
            },
    )
}

/// `n` is the conversion of `route`, found at `pathname`, in session
/// `session`.
pub open spec fn is_route_conversion(
    n: NapiRoute,
    pathname: Seq<char>,
    route: Route,
    session: u64,
) -> bool {
    &&& n.pathname@ == pathname
    &&& n.route_type@ == route_type_of(route)
    &&& n.endpoint == endpoint_slot(route, session)
    &&& n.html_endpoint == html_slot(route, session)
    &&& n.rsc_endpoint == rsc_slot(route, session)
    &&& n.data_endpoint == data_slot(route, session)
}

fn convert_endpoint(endpoint: Endpoint, session: u64) -> (r: Option<EndpointHandle>)
    ensures
        r == Some(handle_of(endpoint, session)),
{
    Some(EndpointHandle { session, endpoint: endpoint.id })
}

impl NapiRoute {
    /// Converts the route found at `pathname` into the host's shape.
    pub fn from_route(pathname: String, value: Route, session: u64) -> (r: NapiRoute)
        ensures
            is_route_conversion(r, pathname@, value, session),
    {
        match value {
            Route::Page { html_endpoint, data_endpoint } => NapiRoute {
                pathname,
                route_type: "page",
                endpoint: None,
                html_endpoint: convert_endpoint(html_endpoint, session),
                rsc_endpoint: None,
                data_endpoint: convert_endpoint(data_endpoint, session),
            },
            Route::PageApi { endpoint } => NapiRoute {
                pathname,
                route_type: "page-api",
                endpoint: convert_endpoint(endpoint, session),
                html_endpoint: None,
                rsc_endpoint: None,
                data_endpoint: None,
            },
            Route::AppPage { html_endpoint, rsc_endpoint } => NapiRoute {
                pathname,
                route_type: "app-page",
                endpoint: None,
                html_endpoint: convert_endpoint(html_endpoint, session),
                rsc_endpoint: convert_endpoint(rsc_endpoint, session),
                data_endpoint: None,
            },
            Route::AppRoute { endpoint } => NapiRoute {
                pathname,
                route_type: "app-route",
                endpoint: convert_endpoint(endpoint, session),
                html_endpoint: None,
                rsc_endpoint: None,
                data_endpoint: None,
            },
            Route::Conflict => NapiRoute {
                pathname,
                route_type: "conflict",
                endpoint: None,
                html_endpoint: None,
                rsc_endpoint: None,
                data_endpoint: None,
            },
        }
    }
}

/// A converted route holds an endpoint in exactly the slots that its
/// variant defines: both of `Page`, both of `AppPage`, the single one of
/// `PageApi` and `AppRoute`, and none of `Conflict`.
pub proof fn lemma_route_shape(n: NapiRoute, pathname: Seq<char>, route: Route, session: u64)
    requires
        is_route_conversion(n, pathname, route, session),
    ensures
        present_slots(n) == route_slots(route),
{
    assert(present_slots(n) =~= route_slots(route));
}

} // verus!
