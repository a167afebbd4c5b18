//! The routing table: an ordered list of routes, matched first to last.

use vstd::prelude::*;
use vstd::string::*;
use crate::text::same_text;

verus! {

/// An HTTP request method.
#[derive(Clone, Copy, Debug, PartialEq, Eq, Structural)]
pub enum Method {
    Get,
    Head,
    Post,
    Put,
    Delete,
    Connect,
    Options,
    Trace,
    Patch,
    /// Any method token that is none of the above.
    Other,
}

/// What a matched route runs.
#[derive(Clone, Copy, Debug, PartialEq, Eq, Structural)]
pub enum Handler {
    /// Answers with the greeting payload.
    HelloWorld,
}

/// A method and a path, mapped to a handler.
#[derive(Debug)]
pub struct Route {
    pub method: Method,
    pub path: String,
    pub handler: Handler,
}

/// The mathematical value of a route.
pub struct RouteView {
    pub method: Method,
    pub path: Seq<char>,
    pub handler: Handler,
}

impl View for Route {
    type V = RouteView;

    open spec fn view(&self) -> RouteView {
        RouteView { method: self.method, path: self.path@, handler: self.handler }
    }
}

impl RouteView {
    /// Whether this route answers the given method and path.
    pub open spec fn accepts(self, method: Method, path: Seq<char>) -> bool {
        self.method == method && self.path == path
    }

    /// The same route, moved under a path prefix.
    pub open spec fn under(self, prefix: Seq<char>) -> RouteView {
        RouteView { method: self.method, path: prefix + self.path, handler: self.handler }
    }
}

/// The routes of `routes`, each moved under `prefix`, in the same order.
pub open spec fn nested(prefix: Seq<char>, routes: Seq<RouteView>) -> Seq<RouteView> {
    Seq::new(routes.len(), |i: int| routes[i].under(prefix))
}

/// The handler of the first route from index `from` on that accepts the
/// request, if there is one.
pub open spec fn lookup_from(routes: Seq<RouteView>, from: int, method: Method, path: Seq<char>)
    -> Option<Handler>
    decreases routes.len() - from,
{
    if from < 0 || from >= routes.len() {
        None
    } else if routes[from].accepts(method, path) {
        Some(routes[from].handler)
    } else {
        lookup_from(routes, from + 1, method, path)
    }
}

/// The handler of the first route that accepts the request, if there is one.
pub open spec fn lookup(routes: Seq<RouteView>, method: Method, path: Seq<char>) -> Option<
    Handler,
> {
    lookup_from(routes, 0, method, path)
}

/// An ordered routing table.
#[derive(Debug)]
pub struct Router {
    pub routes: Vec<Route>,
}

impl View for Router {
    type V = Seq<RouteView>;

    open spec fn view(&self) -> Seq<RouteView> {
        Seq::new(self.routes@.len(), |i: int| self.routes@[i]@)
    }
}

impl Method {
    /// The method that a request-line token names. Tokens are case-sensitive.
    pub open spec fn of_token(token: Seq<char>) -> Method {
        if token == "GET"@ {
            Method::Get
        } else if token == "HEAD"@ {
            Method::Head
        } else if token == "POST"@ {
            Method::Post
        } else if token == "PUT"@ {
            Method::Put
        } else if token == "DELETE"@ {
            Method::Delete
        } else if token == "CONNECT"@ {
            Method::Connect
        } else if token == "OPTIONS"@ {
            Method::Options
        } else if token == "TRACE"@ {
            Method::Trace
        } else if token == "PATCH"@ {
            Method::Patch
        } else {
            Method::Other
        }
    }

    /// Reads a method from its request-line token.
    pub fn from_token(token: &str) -> (method: Method)
        ensures
            method == Method::of_token(token@),
    {
        if same_text(token, "GET") {
            Method::Get
        } else if same_text(token, "HEAD") {
            Method::Head
        } else if same_text(token, "POST") {
            Method::Post
        } else if same_text(token, "PUT") {
            Method::Put
        } else if same_text(token, "DELETE") {
            Method::Delete
        } else if same_text(token, "CONNECT") {
            Method::Connect
        } else if same_text(token, "OPTIONS") {
            Method::Options
        } else if same_text(token, "TRACE") {
            Method::Trace
        } else if same_text(token, "PATCH") {
            Method::Patch
        } else {
            Method::Other
        }
    }
}

impl Router {
    /// A table without routes.
    pub fn new() -> (router: Router)
        ensures
            router@ == Seq::<RouteView>::empty(),
    {
        let router = Router { routes: Vec::new() };
        assert(router@ =~= Seq::<RouteView>::empty());
        router
    }

    /// The table with one more route at its end.
    pub fn route(self, method: Method, path: &str, handler: Handler) -> (router: Router)
        ensures
            router@ == self@.push(RouteView { method, path: path@, handler }),
    {
        let mut routes = self.routes;
        routes.push(Route { method, path: String::from_str(path), handler });
        let router = Router { routes };
        assert(router@ =~= self@.push(RouteView { method, path: path@, handler }));
        router
    }

    /// The table followed by the routes of `inner`, each moved under `prefix`:
    /// the prefix is put in front of the path, character for character.
    pub fn nest(self, prefix: &str, inner: &Router) -> (router: Router)
        ensures
            router@ == self@ + nested(prefix@, inner@),
    {
        let ghost before = self@;
        let mut routes = self.routes;
        let mut i: usize = 0;
        while i < inner.routes.len()
            invariant
                0 <= i <= inner.routes.len(),
                routes@.len() == before.len() + i,
                forall|j: int| 0 <= j < before.len() ==> (#[trigger] routes@[j])@ == before[j],
                forall|k: int|
                    before.len() <= k < before.len() + i ==> (#[trigger] routes@[k])@ == inner@[k
                        - before.len()].under(prefix@),
            decreases inner.routes.len() - i,
        {
            let source = &inner.routes[i];
            let mut path = String::from_str(prefix);
            path.append(source.path.as_str());
            routes.push(Route { method: source.method, path, handler: source.handler });
            i += 1;
        }
        let router = Router { routes };
        assert(router@ =~= before + nested(prefix@, inner@));
        router
    }

    /// The handler for a request: that of the first route, in table order,
    /// with the same method and the same path.
    pub fn find(&self, method: Method, path: &str) -> (found: Option<Handler>)
        ensures
            found == lookup(self@, method, path@),
    {
        let mut i: usize = 0;
        while i < self.routes.len()
            invariant
                0 <= i <= self.routes.len(),
                lookup(self@, method, path@) == lookup_from(self@, i as int, method, path@),
            decreases self.routes.len() - i,
        {
            let route = &self.routes[i];
            if route.method == method && same_text(route.path.as_str(), path) {
                return Some(route.handler);
            }
            i += 1;
        }
        None
    }
}

/// Routes that do not accept the request are passed over: the search from
/// `from` continues at `to` when nothing in between accepts.
pub proof fn lemma_lookup_skips(
    routes: Seq<RouteView>,
    from: int,
    to: int,
    method: Method,
    path: Seq<char>,
)
    requires
        0 <= from <= to <= routes.len(),
        forall|j: int| from <= j < to ==> !(#[trigger] routes[j]).accepts(method, path),
    ensures
        lookup_from(routes, from, method, path) == lookup_from(routes, to, method, path),
    decreases to - from,
{
    if from < to {
        lemma_lookup_skips(routes, from + 1, to, method, path);
    }
}

/// The first match wins: the route at `index` decides when it accepts the
/// request and no route before it does.
pub proof fn lemma_first_match_wins(
    routes: Seq<RouteView>,
    index: int,
    method: Method,
    path: Seq<char>,
)
    requires
        0 <= index < routes.len(),
        routes[index].accepts(method, path),
        forall|j: int| 0 <= j < index ==> !(#[trigger] routes[j]).accepts(method, path),
    ensures
        lookup(routes, method, path) == Some(routes[index].handler),
{
    lemma_lookup_skips(routes, 0, index, method, path);
}

/// A request finds no handler exactly when no route accepts it.
pub proof fn lemma_miss_means_no_route(routes: Seq<RouteView>, method: Method, path: Seq<char>)
    ensures
        lookup(routes, method, path) is None <==> forall|j: int|
            0 <= j < routes.len() ==> !(#[trigger] routes[j]).accepts(method, path),
{
    lemma_found_from(routes, 0, method, path);
}

/// From any index on, the search fails exactly when no later route accepts.
proof fn lemma_found_from(routes: Seq<RouteView>, from: int, method: Method, path: Seq<char>)
    requires
        0 <= from <= routes.len(),
    ensures
        lookup_from(routes, from, method, path) is None <==> forall|j: int|
            from <= j < routes.len() ==> !(#[trigger] routes[j]).accepts(method, path),
    decreases routes.len() - from,
{
    if from < routes.len() {
        lemma_found_from(routes, from + 1, method, path);
    }
}

/// Nesting is prefix concatenation: under the prefix, a nested table finds
/// for `prefix + path` what the inner table finds for `path`.
pub proof fn lemma_nested_lookup(
    prefix: Seq<char>,
    routes: Seq<RouteView>,
    method: Method,
    path: Seq<char>,
)
    ensures
        lookup(nested(prefix, routes), method, prefix + path) == lookup(routes, method, path),
{
    lemma_nested_lookup_from(prefix, routes, 0, method, path);
}

/// The same, for the search from any index on.
proof fn lemma_nested_lookup_from(
    prefix: Seq<char>,
    routes: Seq<RouteView>,
    from: int,
    method: Method,
    path: Seq<char>,
)
    requires
        0 <= from <= routes.len(),
    ensures
        lookup_from(nested(prefix, routes), from, method, prefix + path) == lookup_from(
            routes,
            from,
            method,
            path,
        ),
    decreases routes.len() - from,
{
    if from < routes.len() {
        lemma_nested_lookup_from(prefix, routes, from + 1, method, path);
        let inner = routes[from].path;
        assert((prefix + inner == prefix + path) <==> inner == path) by {
            if prefix + inner == prefix + path {
                assert(inner =~= (prefix + inner).subrange(prefix.len() as int, (prefix + inner).len() as int));
                assert(path =~= (prefix + path).subrange(prefix.len() as int, (prefix + path).len() as int));
            }
        }
    }
}

} // verus!
