//! Route tables as plain values.
//!
//! A [`RouteGroup`] holds what a framework route group is made of: an
//! optional prefix and an ordered list of `(uri, method, handler)` entries.
//! A [`RouteMounts`] holds the groups mounted on the application, in the
//! order in which they were added.
use vstd::prelude::*;

verus! {

/// The HTTP method that a route answers.
#[derive(Clone, Copy, Debug, PartialEq, Eq, Structural)]
pub enum HttpMethod {
    Get,
    Post,
}

/// The request handler that a route dispatches to.
#[derive(Clone, Copy, Debug, PartialEq, Eq, Structural)]
pub enum Action {
    HomeIndex,
    HomeHello,
    ApiRegister,
    ApiVerify,
    ApiLogin,
    ApiForgot,
    ApiReset,
    ApiCurrent,
    ApiMagicLink,
    ApiMagicLinkVerify,
    ApiResendVerificationMail,
    WebLoginForm,
    WebLoginSubmit,
    WebRegisterForm,
    WebRegisterSubmit,
    WebLogout,
    WebDashboard,
}

/// A method together with the handler that serves it.
#[derive(Clone, Copy, Debug, PartialEq, Eq, Structural)]
pub struct Endpoint {
    pub method: HttpMethod,
    pub action: Action,
}

/// An endpoint answering `GET` with `action`.
pub fn get(action: Action) -> (e: Endpoint)
    ensures
        e == (Endpoint { method: HttpMethod::Get, action }),
{
    Endpoint { method: HttpMethod::Get, action }
}

/// An endpoint answering `POST` with `action`.
pub fn post(action: Action) -> (e: Endpoint)
    ensures
        e == (Endpoint { method: HttpMethod::Post, action }),
{
    Endpoint { method: HttpMethod::Post, action }
}

/// One route of a group: a uri relative to the group's prefix and its endpoint.
pub struct RouteEntry {
    pub uri: String,
    pub endpoint: Endpoint,
}

/// The mathematical value of a [`RouteEntry`].
pub struct RouteView {
    pub uri: Seq<char>,
    pub endpoint: Endpoint,
}

impl View for RouteEntry {
    type V = RouteView;

    open spec fn view(&self) -> RouteView {
        RouteView { uri: self.uri@, endpoint: self.endpoint }
    }
}

/// The spec value of a route: a uri, a method and a handler.
pub open spec fn route(uri: Seq<char>, method: HttpMethod, action: Action) -> RouteView {
    RouteView { uri, endpoint: Endpoint { method, action } }
}

/// A group of routes sharing an optional prefix.
pub struct RouteGroup {
    pub prefix: Option<String>,
    pub handlers: Vec<RouteEntry>,
}

/// The mathematical value of a [`RouteGroup`].
pub struct RouteGroupView {
    pub prefix: Option<Seq<char>>,
    pub handlers: Seq<RouteView>,
}

/// The view of an optional string.
pub open spec fn opt_string_view(s: Option<String>) -> Option<Seq<char>> {
    match s {
        Some(v) => Some(v@),
        None => None,
    }
}

impl View for RouteGroup {
    type V = RouteGroupView;

    open spec fn view(&self) -> RouteGroupView {
        RouteGroupView {
            prefix: opt_string_view(self.prefix),
            handlers: self.handlers@.map_values(|h: RouteEntry| h@),
        }
    }
}

impl RouteGroupView {
    /// This group with one more route at its end.
    pub open spec fn with_route(self, r: RouteView) -> RouteGroupView {
        RouteGroupView { prefix: self.prefix, handlers: self.handlers.push(r) }
    }

    /// No two routes of the group answer the same method on the same uri.
    pub open spec fn no_overlap(self) -> bool {
        forall|i: int, j: int|
            0 <= i < j < self.handlers.len() ==> !(#[trigger] self.handlers[i].uri
                == #[trigger] self.handlers[j].uri && self.handlers[i].endpoint.method
                == self.handlers[j].endpoint.method)
    }
}

/// The path at which a route of a group is served: the group's prefix, if
/// any, followed by the route's uri. (Mounting joins the two with a slash
/// and collapses repeated slashes; for a prefix without a trailing slash and
/// a uri with a leading one, that is the two side by side.)
pub open spec fn mounted_path(prefix: Option<Seq<char>>, uri: Seq<char>) -> Seq<char> {
    match prefix {
        Some(p) => p + uri,
        None => uri,
    }
}

/// The method and mounted path of each route of `g`, in order.
pub open spec fn group_paths(g: RouteGroupView) -> Seq<(HttpMethod, Seq<char>)> {
    g.handlers.map_values(|h: RouteView| (h.endpoint.method, mounted_path(g.prefix, h.uri)))
}

/// The method and mounted path of each route of each of `groups`, in order.
pub open spec fn mounted_paths(groups: Seq<RouteGroupView>) -> Seq<(HttpMethod, Seq<char>)> {
    groups.map_values(|g: RouteGroupView| group_paths(g)).flatten()
}

/// No two routes are served with the same method at the same path.
pub open spec fn no_collisions(paths: Seq<(HttpMethod, Seq<char>)>) -> bool {
    forall|i: int, j: int| 0 <= i < j < paths.len() ==> #[trigger] paths[i] != #[trigger] paths[j]
}

impl RouteGroup {
    /// An empty group with no prefix.
    pub fn new() -> (g: RouteGroup)
        ensures
            g@.prefix == None::<Seq<char>>,
            g@.handlers == Seq::<RouteView>::empty(),
    {
        let g = RouteGroup { prefix: None, handlers: Vec::new() };
        assert(g@.handlers =~= Seq::<RouteView>::empty());
        g
    }

    /// This group with its prefix set to `uri`.
    pub fn prefix(self, uri: &str) -> (g: RouteGroup)
        ensures
            g@.prefix == Some(uri@),
            g@.handlers == self@.handlers,
    {
        RouteGroup { prefix: Some(uri.to_owned()), handlers: self.handlers }
    }

    /// This group with a route for `uri` answered by `endpoint` added at its end.
    pub fn add(self, uri: &str, endpoint: Endpoint) -> (g: RouteGroup)
        ensures
            g@ == self@.with_route(RouteView { uri: uri@, endpoint }),
    {
        let mut handlers = self.handlers;
        let entry = RouteEntry { uri: uri.to_owned(), endpoint };
        handlers.push(entry);
        let g = RouteGroup { prefix: self.prefix, handlers };
        assert(g@.handlers =~= self@.handlers.push(RouteView { uri: uri@, endpoint }));
        g
    }
}

/// The route groups mounted on an application, in mounting order.
///
/// The framework combines each group's prefix with the application's own
/// prefix when a group is mounted; this value records the groups as they
/// were handed over.
pub struct RouteMounts {
    pub groups: Vec<RouteGroup>,
}

impl View for RouteMounts {
    type V = Seq<RouteGroupView>;

    open spec fn view(&self) -> Seq<RouteGroupView> {
        self.groups@.map_values(|g: RouteGroup| g@)
    }
}

impl RouteMounts {
    /// No group mounted yet.
    pub fn empty() -> (m: RouteMounts)
        ensures
            m@ == Seq::<RouteGroupView>::empty(),
    {
        let m = RouteMounts { groups: Vec::new() };
        assert(m@ =~= Seq::<RouteGroupView>::empty());
        m
    }

    /// These mounts with `group` mounted after the others.
    pub fn add_route(self, group: RouteGroup) -> (m: RouteMounts)
        ensures
            m@ == self@.push(group@),
    {
        let mut groups = self.groups;
        let ghost g = group@;
        groups.push(group);
        let m = RouteMounts { groups };
        assert(m@ =~= self@.push(g));
        m
    }

    /// These mounts with each of `mounts` mounted after the others, in order.
    pub fn add_routes(self, mounts: Vec<RouteGroup>) -> (m: RouteMounts)
        ensures
            m@ == self@ + mounts@.map_values(|g: RouteGroup| g@),
    {
        let ghost base = self@;
        let ghost added = mounts@.map_values(|g: RouteGroup| g@);
        let n = mounts.len();
        let mut rest = mounts;
        let mut m = self;
        let mut k: usize = 0;
        while rest.len() > 0
            invariant
                added.len() == n,
                n == k + rest@.len(),
                rest@.map_values(|g: RouteGroup| g@) == added.skip(k as int),
                m@ == base + added.take(k as int),
            decreases rest@.len(),
        {
            let ghost before = rest@;
            let group = rest.remove(0);
            assert(group@ == added[k as int]) by {
                assert(before.map_values(|g: RouteGroup| g@)[0] == added.skip(k as int)[0]);
            }
            let ghost mapped = rest@.map_values(|g: RouteGroup| g@);
            assert(mapped =~= added.skip(k + 1)) by {
                assert forall|i: int| 0 <= i < rest@.len() implies
                    #[trigger] mapped[i] == added.skip(k + 1)[i] by {
                    assert(rest@[i] == before[i + 1]);
                    assert(before.map_values(|g: RouteGroup| g@)[i + 1] == added.skip(k as int)[i + 1]);
                }
            }
            m = m.add_route(group);
            assert(added.take(k + 1) =~= added.take(k as int).push(added[k as int]));
            k = k + 1;
        }
        assert(added.take(k as int) =~= added);
        m
    }
}

} // verus!
