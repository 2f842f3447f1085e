//! Entrypoints snapshots, their middleware, and their conversion into the
//! values delivered to the host.
use vstd::prelude::*;
use crate::routes::{
    handle_of, is_route_conversion, Endpoint, EndpointHandle, NapiRoute, Route,
};

verus! {

/// The runtimes a middleware can run on.
#[derive(Clone, Copy, PartialEq, Eq, Structural, Debug)]
pub enum NextRuntime {
    NodeJs,
    Edge,
}

/// The runtime that an identifier names, if it names one.
pub open spec fn runtime_of(id: Seq<char>) -> Option<NextRuntime> {
    if id == "nodejs"@ {
        Some(NextRuntime::NodeJs)
    } else if id == "edge"@ {
        Some(NextRuntime::Edge)
    } else {
        None
    }
}

/// The identifier of a runtime.
pub open spec fn runtime_name(r: NextRuntime) -> Seq<char> {
    match r {
        NextRuntime::NodeJs => "nodejs"@,
        NextRuntime::Edge => "edge"@,
    }
}

/// Errors of converting a snapshot for the host.
#[derive(Clone, Copy, PartialEq, Eq, Structural, Debug)]
pub enum ConversionError {
    /// The middleware's runtime identifier names no known runtime.
    UnknownRuntime,
}

/// The configuration of a middleware.
pub struct MiddlewareConfig {
    /// The identifier of the runtime the middleware runs on.
    pub runtime: String,
    /// The path patterns the middleware applies to, in order.
    pub matcher: Option<Vec<String>>,
}

/// A middleware of the project.
pub struct Middleware {
    pub endpoint: Endpoint,
    pub config: MiddlewareConfig,
}

/// A middleware as the host sees it.
pub struct NapiMiddleware {
    pub endpoint: EndpointHandle,
    pub runtime: String,
    pub matcher: Option<Vec<String>>,
}

/// The routes and middleware of a project at one revision. Pathnames are
/// unique.
pub struct Entrypoints {
    pub routes: Vec<(String, Route)>,
    pub middleware: Option<Middleware>,
}

/// The snapshot converted for the host.
pub struct NapiEntrypoints {
    pub routes: Vec<NapiRoute>,
    pub middleware: Option<NapiMiddleware>,
}

/// No pathname appears twice.
pub open spec fn unique_pathnames(routes: Seq<(String, Route)>) -> bool {
    forall|i: int, j: int|
        0 <= i < routes.len() && 0 <= j < routes.len() && i != j ==> #[trigger] routes[i].0@
            != #[trigger] routes[j].0@
}

/// The pathnames and routes of a list of routes.
pub open spec fn route_views(routes: Seq<(String, Route)>) -> Seq<(Seq<char>, Route)> {
    routes.map_values(|e: (String, Route)| (e.0@, e.1))
}

/// The routes after the route at `pathname` became a conflict.
pub open spec fn mark_conflict(views: Seq<(Seq<char>, Route)>, pathname: Seq<char>) -> Seq<(Seq<char>, Route)> {
    views.map_values(
        |e: (Seq<char>, Route)|
            if e.0 == pathname {
                (e.0, Route::Conflict)
            } else {
                e
            },
    )
}

/// Some route of the list is at `pathname`.
pub open spec fn has_pathname(routes: Seq<(String, Route)>, pathname: Seq<char>) -> bool {
    exists|i: int| 0 <= i < routes.len() && #[trigger] routes[i].0@ == pathname
}

/// `n` is the conversion of `m` in session `session`.
pub open spec fn is_middleware_conversion(n: NapiMiddleware, m: Middleware, session: u64) -> bool {
    &&& n.endpoint == handle_of(m.endpoint, session)
    &&& runtime_of(m.config.runtime@).is_some()
    &&& n.runtime@ == runtime_name(runtime_of(m.config.runtime@).unwrap())
    &&& matcher_view(n.matcher) == matcher_view(m.config.matcher)
}

/// The patterns of a matcher.
pub open spec fn matcher_view(m: Option<Vec<String>>) -> Option<Seq<String>> {
    match m {
        Some(v) => Some(v@),
        None => None,
    }
}

/// The conversion of a snapshot's middleware succeeds.
pub open spec fn middleware_convertible(m: Option<Middleware>) -> bool {
    match m {
        Some(m) => runtime_of(m.config.runtime@).is_some(),
        None => true,
    }
}

/// `n` is the conversion of `e` in session `session`.
pub open spec fn is_entrypoints_conversion(n: NapiEntrypoints, e: Entrypoints, session: u64) -> bool {
    &&& n.routes.len() == e.routes.len()
    &&& forall|i: int|
        0 <= i < e.routes.len() ==> is_route_conversion(
            #[trigger] n.routes[i],
            e.routes[i].0@,
            e.routes[i].1,
            session,
        )
    &&& match (n.middleware, e.middleware) {
        (None, None) => true,
        (Some(nm), Some(em)) => is_middleware_conversion(nm, em, session),
        _ => false,
    }
}

fn runtime_from_id(id: &String) -> (r: Option<NextRuntime>)
    ensures
        r == runtime_of(id@),
{
    let nodejs = String::from_str("nodejs");
    let edge = String::from_str("edge");
    if *id == nodejs {
        Some(NextRuntime::NodeJs)
    } else if *id == edge {
        Some(NextRuntime::Edge)
    } else {
        None
    }
}

fn runtime_to_string(r: NextRuntime) -> (s: String)
    ensures
        s@ == runtime_name(r),
{
    match r {
        NextRuntime::NodeJs => String::from_str("nodejs"),
        NextRuntime::Edge => String::from_str("edge"),
    }
}

fn clone_strings(v: &Vec<String>) -> (r: Vec<String>)
    ensures
        r@ == v@,
{
    let mut r: Vec<String> = Vec::new();
    let mut i: usize = 0;
    while i < v.len()
        invariant
            i <= v.len(),
            r@ == v@.subrange(0, i as int),
        decreases v.len() - i,
    {
        r.push(v[i].clone());
        i = i + 1;
    }
    assert(r@ =~= v@);
    r
}

impl Entrypoints {
    /// The routes are well formed: no pathname appears twice.
    pub open spec fn wf(&self) -> bool {
        unique_pathnames(self.routes@)
    }

    /// A snapshot with no route and no middleware.
    pub fn new() -> (r: Entrypoints)
        ensures
            r.wf(),
            r.routes@.len() == 0,
            r.middleware.is_none(),
    {
        Entrypoints { routes: Vec::new(), middleware: None }
    }

    /// Records that a source file routes to `route` at `pathname`. A new
    /// pathname is appended; where another source file already maps to it,
    /// its route becomes a conflict, in place.
    pub fn add_route(&mut self, pathname: String, route: Route)
        requires
            old(self).wf(),
        ensures
            final(self).wf(),
            final(self).middleware == old(self).middleware,
            final(self).routes@.len() == old(self).routes@.len() + if has_pathname(
                old(self).routes@,
                pathname@,
            ) {
                0int
            } else {
                1int
            },
            has_pathname(old(self).routes@, pathname@) ==> route_views(final(self).routes@)
                == mark_conflict(route_views(old(self).routes@), pathname@),
            !has_pathname(old(self).routes@, pathname@) ==> route_views(final(self).routes@)
                == route_views(old(self).routes@).push((pathname@, route)),
    {
        match find_route(&self.routes, &pathname) {
            Some(i) => {
                let ghost before = self.routes@;
                let name = self.routes[i].0.clone();
                self.routes.set(i, (name, Route::Conflict));
                proof {
                    assert forall|a: int, b: int|
                        0 <= a < self.routes@.len() && 0 <= b < self.routes@.len() && a != b
                        implies #[trigger] self.routes@[a].0@ != #[trigger] self.routes@[b].0@ by {
                        assert(self.routes@[a].0@ == before[a].0@);
                        assert(self.routes@[b].0@ == before[b].0@);
                    }
                    assert forall|k: int| 0 <= k < before.len() && k != i implies #[trigger] before[k].0@ != pathname@ by {
                        assert(before[k].0@ != before[i as int].0@);
                    }
                    assert(route_views(self.routes@) =~= mark_conflict(route_views(before), pathname@));
                }
            },
            None => {
                let ghost before = self.routes@;
                self.routes.push((pathname, route));
                proof {
                    assert forall|a: int, b: int|
                        0 <= a < self.routes@.len() && 0 <= b < self.routes@.len() && a != b
                        implies #[trigger] self.routes@[a].0@ != #[trigger] self.routes@[b].0@ by {
                        if a == before.len() {
                            assert(self.routes@[b] == before[b]);
                        } else if b == before.len() {
                            assert(self.routes@[a] == before[a]);
                        } else {
                            assert(self.routes@[a] == before[a]);
                            assert(self.routes@[b] == before[b]);
                        }
                    }
                    assert(route_views(self.routes@) =~= route_views(before).push((pathname@, route)));
                }
            },
        }
    }
}

/// The position of the route at `pathname`, if there is one.
fn find_route(routes: &Vec<(String, Route)>, pathname: &String) -> (r: Option<usize>)
    ensures
        match r {
            Some(i) => i < routes@.len() && routes@[i as int].0@ == pathname@,
            None => !has_pathname(routes@, pathname@),
        },
{
    let mut i: usize = 0;
    while i < routes.len()
        invariant
            i <= routes.len(),
            forall|k: int| 0 <= k < i ==> #[trigger] routes@[k].0@ != pathname@,
        decreases routes.len() - i,
    {
        if routes[i].0 == *pathname {
            return Some(i);
        }
        i = i + 1;
    }
    None
}

impl NapiMiddleware {
    /// Converts a middleware into the host's shape; fails where its runtime
    /// identifier names no known runtime.
    pub fn from_middleware(value: &Middleware, session: u64) -> (r: Result<
        NapiMiddleware,
        ConversionError,
    >)
        ensures
            runtime_of(value.config.runtime@).is_some() <==> r.is_ok(),
            r.is_ok() ==> is_middleware_conversion(r.unwrap(), *value, session),
            r.is_err() ==> r == Err::<NapiMiddleware, _>(ConversionError::UnknownRuntime),
    {
        match runtime_from_id(&value.config.runtime) {
            None => Err(ConversionError::UnknownRuntime),
            Some(runtime) => {
                let matcher = match &value.config.matcher {
                    Some(m) => Some(clone_strings(m)),
                    None => None,
                };
                Ok(NapiMiddleware {
                    endpoint: EndpointHandle { session, endpoint: value.endpoint.id },
                    runtime: runtime_to_string(runtime),
                    matcher,
                })
            },
        }
    }
}


/// The content of a converted route.
pub open spec fn napi_route_view(n: NapiRoute) -> (
    Seq<char>,
    Seq<char>,
    Option<EndpointHandle>,
    Option<EndpointHandle>,
    Option<EndpointHandle>,
    Option<EndpointHandle>,
) {
    (n.pathname@, n.route_type@, n.endpoint, n.html_endpoint, n.rsc_endpoint, n.data_endpoint)
}

/// The content of a converted middleware.
pub open spec fn napi_middleware_view(m: Option<NapiMiddleware>) -> Option<
    (EndpointHandle, Seq<char>, Option<Seq<String>>),
> {
    match m {
        Some(m) => Some((m.endpoint, m.runtime@, matcher_view(m.matcher))),
        None => None,
    }
}

/// The content of a converted snapshot.
pub open spec fn napi_entrypoints_view(n: NapiEntrypoints) -> (
    Seq<
        (
            Seq<char>,
            Seq<char>,
            Option<EndpointHandle>,
            Option<EndpointHandle>,
            Option<EndpointHandle>,
            Option<EndpointHandle>,
        ),
    >,
    Option<(EndpointHandle, Seq<char>, Option<Seq<String>>)>,
) {
    (n.routes@.map_values(|r: NapiRoute| napi_route_view(r)), napi_middleware_view(n.middleware))
}

/// Converts a snapshot into the values delivered to the host in one cycle:
/// one converted snapshot, with the routes in the snapshot's order. Fails
/// where the middleware's runtime identifier names no known runtime.
pub fn convert_entrypoints(entrypoints: &Entrypoints, session: u64) -> (r: Result<
    Vec<NapiEntrypoints>,
    ConversionError,
>)
    ensures
        r.is_ok() <==> middleware_convertible(entrypoints.middleware),
        r.is_err() ==> r == Err::<Vec<NapiEntrypoints>, _>(ConversionError::UnknownRuntime),
        r.is_ok() ==> r.unwrap()@.len() == 1 && is_entrypoints_conversion(
            r.unwrap()@[0],
            *entrypoints,
            session,
        ),
{
    let mut routes: Vec<NapiRoute> = Vec::new();
    let mut i: usize = 0;
    while i < entrypoints.routes.len()
        invariant
            i <= entrypoints.routes.len(),
            routes@.len() == i,
            forall|k: int|
                0 <= k < i ==> is_route_conversion(
                    #[trigger] routes@[k],
                    entrypoints.routes@[k].0@,
                    entrypoints.routes@[k].1,
                    session,
                ),
        decreases entrypoints.routes.len() - i,
    {
        let pathname = entrypoints.routes[i].0.clone();
        routes.push(NapiRoute::from_route(pathname, entrypoints.routes[i].1, session));
        i = i + 1;
    }
    let middleware = match &entrypoints.middleware {
        Some(m) => match NapiMiddleware::from_middleware(m, session) {
            Ok(n) => Some(n),
            Err(e) => {
                return Err(e);
            },
        },
        None => None,
    };
    let converted = NapiEntrypoints { routes, middleware };
    let mut out: Vec<NapiEntrypoints> = Vec::new();
    out.push(converted);
    Ok(out)
}

/// Converting the same snapshot twice, in the same session, gives the same
/// content.
pub proof fn lemma_conversion_idempotent(
    a: NapiEntrypoints,
    b: NapiEntrypoints,
    entrypoints: Entrypoints,
    session: u64,
)
    requires
        is_entrypoints_conversion(a, entrypoints, session),
        is_entrypoints_conversion(b, entrypoints, session),
    ensures
        napi_entrypoints_view(a) == napi_entrypoints_view(b),
{
    let ra = a.routes@.map_values(|r: NapiRoute| napi_route_view(r));
    let rb = b.routes@.map_values(|r: NapiRoute| napi_route_view(r));
    assert forall|i: int| 0 <= i < ra.len() implies ra[i] == rb[i] by {
        assert(is_route_conversion(a.routes[i], entrypoints.routes[i].0@, entrypoints.routes[i].1, session));
        assert(is_route_conversion(b.routes[i], entrypoints.routes[i].0@, entrypoints.routes[i].1, session));
    }
    assert(ra =~= rb);
}

} // verus!
