use vstd::prelude::*;
use crate::endpoint::{Receiver, Sender};

verus! {

/// The view of a route: the writing node's name, then the reading node's.
pub type RouteView = (Seq<char>, Seq<char>);

/// A channel of the graph: `from` writes into it and `to` reads from it.
pub struct Route {
    pub from: String,
    pub to: String,
}

impl View for Route {
    type V = RouteView;

    open spec fn view(&self) -> RouteView {
        (self.from@, self.to@)
    }
}

/// Why a topology was not accepted.
#[derive(Debug)]
pub enum OpenError {
    /// A node has an empty name.
    EmptyName,
    /// The name is declared twice.
    DuplicateNode(String),
    /// A route names this node, which is not declared.
    UndeclaredNode(String),
}

/// Why a name could not be resolved into a channel endpoint.
#[derive(Debug)]
pub enum ResolutionError {
    /// The graph declares no node of this name.
    UnknownNode(String),
    /// Both names are declared, but no route fits the request.
    NoRoute,
}

/// What a graph is: its node names and its routes, in declaration order.
pub struct DataflowView {
    pub nodes: Seq<Seq<char>>,
    pub routes: Seq<RouteView>,
}

/// A topology of named nodes and the routes between them. Immutable once
/// opened; resolving names against it is a pure lookup.
pub struct Dataflow {
    nodes: Vec<String>,
    routes: Vec<Route>,
}

/// The names of a list of nodes.
pub open spec fn names_view(v: Seq<String>) -> Seq<Seq<char>> {
    v.map_values(|s: String| s@)
}

/// The views of a list of routes.
pub open spec fn routes_view(v: Seq<Route>) -> Seq<RouteView> {
    v.map_values(|r: Route| r@)
}

impl View for Dataflow {
    type V = DataflowView;

    closed spec fn view(&self) -> DataflowView {
        DataflowView { nodes: names_view(self.nodes@), routes: routes_view(self.routes@) }
    }
}

/// Every name is non-empty.
pub open spec fn names_nonempty(nodes: Seq<Seq<char>>) -> bool {
    forall|i: int| 0 <= i < nodes.len() ==> #[trigger] nodes[i].len() > 0
}

/// No name is declared twice.
pub open spec fn names_unique(nodes: Seq<Seq<char>>) -> bool {
    forall|i: int, j: int|
        0 <= i < nodes.len() && 0 <= j < nodes.len() && i != j ==> nodes[i] != nodes[j]
}

/// Every route joins two declared nodes.
pub open spec fn routes_declared(g: DataflowView) -> bool {
    forall|k: int|
        0 <= k < g.routes.len() ==> g.nodes.contains(#[trigger] g.routes[k].0) && g.nodes.contains(
            g.routes[k].1,
        )
}

/// A valid topology.
pub open spec fn valid_graph(g: DataflowView) -> bool {
    names_nonempty(g.nodes) && names_unique(g.nodes) && routes_declared(g)
}

/// A route fits a request when it agrees with each end that the request names.
pub open spec fn fits(r: RouteView, from: Option<Seq<char>>, to: Option<Seq<char>>) -> bool {
    (from is None || r.0 == from->0) && (to is None || r.1 == to->0)
}

/// The first route, in declaration order, that fits a request.
pub open spec fn first_fit(
    routes: Seq<RouteView>,
    from: Option<Seq<char>>,
    to: Option<Seq<char>>,
) -> Option<RouteView>
    decreases routes.len(),
{
    if routes.len() == 0 {
        None
    } else if fits(routes[0], from, to) {
        Some(routes[0])
    } else {
        first_fit(routes.drop_first(), from, to)
    }
}

/// The default outgoing route of `node`.
pub open spec fn default_out(g: DataflowView, node: Seq<char>) -> Option<RouteView> {
    first_fit(g.routes, Some(node), None)
}

/// The default incoming route of `node`.
pub open spec fn default_in(g: DataflowView, node: Seq<char>) -> Option<RouteView> {
    first_fit(g.routes, None, Some(node))
}

/// The route from `from` to `to`.
pub open spec fn route_between(g: DataflowView, from: Seq<char>, to: Seq<char>) -> Option<
    RouteView,
> {
    first_fit(g.routes, Some(from), Some(to))
}

/// The answer that resolving a route with one named end gives.
pub open spec fn resolved_one(
    g: DataflowView,
    node: Seq<char>,
    found: Option<RouteView>,
    r: Result<RouteView, ResolutionError>,
) -> bool {
    if !g.nodes.contains(node) {
        r matches Err(ResolutionError::UnknownNode(n)) && n@ == node
    } else {
        match found {
            Some(route) => r == Ok::<RouteView, ResolutionError>(route),
            None => r matches Err(ResolutionError::NoRoute),
        }
    }
}

/// The answer that resolving a route with both ends named gives.
pub open spec fn resolved_two(
    g: DataflowView,
    node: Seq<char>,
    peer: Seq<char>,
    found: Option<RouteView>,
    r: Result<RouteView, ResolutionError>,
) -> bool {
    if !g.nodes.contains(node) {
        r matches Err(ResolutionError::UnknownNode(n)) && n@ == node
    } else if !g.nodes.contains(peer) {
        r matches Err(ResolutionError::UnknownNode(n)) && n@ == peer
    } else {
        match found {
            Some(route) => r == Ok::<RouteView, ResolutionError>(route),
            None => r matches Err(ResolutionError::NoRoute),
        }
    }
}

/// The route of a resolved sender, or the error.
pub open spec fn sender_route(r: Result<Sender, ResolutionError>) -> Result<RouteView, ResolutionError> {
    match r {
        Ok(e) => Ok(e@.route),
        Err(e) => Err(e),
    }
}

/// The route of a resolved receiver, or the error.
pub open spec fn receiver_route(r: Result<Receiver, ResolutionError>) -> Result<RouteView, ResolutionError> {
    match r {
        Ok(e) => Ok(e@),
        Err(e) => Err(e),
    }
}

/// The name that an optional end of a request gives, if any.
pub open spec fn opt_name(o: Option<&String>) -> Option<Seq<char>> {
    match o {
        Some(s) => Some(s@),
        None => None,
    }
}

/// The graph that a list of node names and a list of routes describe.
pub open spec fn described(nodes: Seq<String>, routes: Seq<Route>) -> DataflowView {
    DataflowView { nodes: names_view(nodes), routes: routes_view(routes) }
}

/// Opens a topology from its node names and routes, after checking that it
/// is valid: names non-empty and unique, every route between declared nodes.
pub fn load_dataflow(nodes: Vec<String>, routes: Vec<Route>) -> (r: Result<Dataflow, OpenError>)
    ensures
        (r is Ok) == valid_graph(described(nodes@, routes@)),
        (r matches Ok(g) ==> g@ == described(nodes@, routes@)),
        (r matches Err(OpenError::EmptyName) ==> exists|i: int|
            0 <= i < nodes@.len() && nodes@[i]@.len() == 0),
        (r matches Err(OpenError::DuplicateNode(n)) ==> exists|i: int, j: int|
            0 <= i < j < nodes@.len() && nodes@[i]@ == n@ && nodes@[j]@ == n@),
        (r matches Err(OpenError::UndeclaredNode(n)) ==> !names_view(nodes@).contains(n@) && exists|k: int|
            0 <= k < routes@.len() && (routes@[k].from@ == n@ || routes@[k].to@ == n@)),
{
    let ghost nv = names_view(nodes@);
    let ghost g = described(nodes@, routes@);
    let mut i: usize = 0;
    while i < nodes.len()
        invariant
            0 <= i <= nodes@.len(),
            nv == names_view(nodes@),
            forall|a: int| 0 <= a < i ==> #[trigger] nv[a].len() > 0,
            forall|a: int, b: int| 0 <= a < i && 0 <= b < nodes@.len() && a != b ==> nv[a] != nv[b],
        decreases nodes@.len() - i,
    {
        if nodes[i].as_str().is_empty() {
            assert(nv[i as int].len() == 0);
            return Err(OpenError::EmptyName);
        }
        let mut j: usize = i + 1;
        while j < nodes.len()
            invariant
                0 <= i < j <= nodes@.len(),
                nv == names_view(nodes@),
                forall|b: int| i < b < j ==> nv[i as int] != #[trigger] nv[b],
            decreases nodes@.len() - j,
        {
            if nodes[i] == nodes[j] {
                assert(nv[i as int] == nv[j as int]);
                return Err(OpenError::DuplicateNode(nodes[i].clone()));
            }
            j = j + 1;
        }
        assert forall|a: int, b: int| 0 <= a < i + 1 && 0 <= b < nodes@.len() && a != b implies nv[a]
            != nv[b] by {
            if a == i {
                if b < i {
                    assert(nv[b] != nv[a]);
                }
            }
        }
        i = i + 1;
    }
    let ghost given = nodes@;
    let tmp = Dataflow { nodes, routes: Vec::new() };
    let mut k: usize = 0;
    while k < routes.len()
        invariant
            0 <= k <= routes@.len(),
            names_view(tmp.nodes@) == nv,
            g == described(nodes@, routes@),
            tmp.nodes@ == given,
            given == nodes@,
            forall|a: int| 0 <= a < k ==> nv.contains(#[trigger] g.routes[a].0) && nv.contains(g.routes[a].1),
        decreases routes@.len() - k,
    {
        assert(g.routes[k as int] == routes@[k as int]@);
        assert(tmp@.nodes == g.nodes);
        if !tmp.declares(&routes[k].from) {
            assert(!g.nodes.contains(g.routes[k as int].0));
            return Err(OpenError::UndeclaredNode(routes[k].from.clone()));
        }
        if !tmp.declares(&routes[k].to) {
            assert(g.nodes.contains(g.routes[k as int].0) && !g.nodes.contains(g.routes[k as int].1));
            return Err(OpenError::UndeclaredNode(routes[k].to.clone()));
        }
        k = k + 1;
    }
    let r = Dataflow { nodes: tmp.nodes, routes };
    assert(r@ == g);
    Ok(r)
}

fn same_name(a: &String, b: &String) -> (r: bool)
    ensures
        r == (a@ == b@),
{
    *a == *b
}

impl Dataflow {
    /// Whether `name` is a declared node.
    pub fn declares(&self, name: &String) -> (r: bool)
        ensures
            r == self@.nodes.contains(name@),
    {
        let ghost nv = self@.nodes;
        let mut i: usize = 0;
        while i < self.nodes.len()
            invariant
                0 <= i <= self.nodes@.len(),
                nv == names_view(self.nodes@),
                forall|a: int| 0 <= a < i ==> #[trigger] nv[a] != name@,
            decreases self.nodes@.len() - i,
        {
            if self.nodes[i] == *name {
                assert(nv[i as int] == name@);
                return true;
            }
            i = i + 1;
        }
        false
    }

    /// The first route, in declaration order, that agrees with each named end.
    fn find_route(&self, from: Option<&String>, to: Option<&String>) -> (r: Option<Route>)
        ensures
            match r {
                Some(route) => first_fit(self@.routes, opt_name(from), opt_name(to)) == Some(route@),
                None => first_fit(self@.routes, opt_name(from), opt_name(to)) is None,
            },
    {
        let ghost rv = self@.routes;
        let ghost f = opt_name(from);
        let ghost t = opt_name(to);
        let mut i: usize = 0;
        assert(rv.subrange(0, rv.len() as int) =~= rv);
        while i < self.routes.len()
            invariant
                0 <= i <= self.routes@.len(),
                rv == routes_view(self.routes@),
                f == opt_name(from),
                t == opt_name(to),
                first_fit(rv, f, t) == first_fit(rv.subrange(i as int, rv.len() as int), f, t),
            decreases self.routes@.len() - i,
        {
            let ghost rest = rv.subrange(i as int, rv.len() as int);
            assert(rest[0] == rv[i as int]);
            assert(rv[i as int] == self.routes@[i as int]@);
            let from_ok = match from {
                Some(n) => same_name(&self.routes[i].from, n),
                None => true,
            };
            let to_ok = match to {
                Some(n) => same_name(&self.routes[i].to, n),
                None => true,
            };
            if from_ok && to_ok {
                assert(rest[0] == rv[i as int]);
                let route = Route { from: self.routes[i].from.clone(), to: self.routes[i].to.clone() };
                return Some(route);
            }
            assert(rest.drop_first() =~= rv.subrange(i + 1, rv.len() as int));
            i = i + 1;
        }
        assert(rv.subrange(i as int, rv.len() as int).len() == 0);
        None
    }

    /// Resolves `node`'s default outgoing route: its first declared one.
    pub fn build_sender(&self, node: &str) -> (r: Result<Sender, ResolutionError>)
        ensures
            resolved_one(self@, node@, default_out(self@, node@), sender_route(r)),
            r matches Ok(s) ==> s@.open && s@.pending.len() == 0,
    {
        let name = node.to_owned();
        if !self.declares(&name) {
            return Err(ResolutionError::UnknownNode(name));
        }
        match self.find_route(Some(&name), None) {
            Some(route) => Ok(Sender::new(route)),
            None => Err(ResolutionError::NoRoute),
        }
    }

    /// Resolves the route from `node` to `to`.
    pub fn build_sender_to(&self, node: &str, to: &str) -> (r: Result<Sender, ResolutionError>)
        ensures
            resolved_two(self@, node@, to@, route_between(self@, node@, to@), sender_route(r)),
            r matches Ok(s) ==> s@.open && s@.pending.len() == 0,
    {
        let name = node.to_owned();
        let peer = to.to_owned();
        if !self.declares(&name) {
            return Err(ResolutionError::UnknownNode(name));
        }
        if !self.declares(&peer) {
            return Err(ResolutionError::UnknownNode(peer));
        }
        match self.find_route(Some(&name), Some(&peer)) {
            Some(route) => Ok(Sender::new(route)),
            None => Err(ResolutionError::NoRoute),
        }
    }

    /// Resolves `node`'s default incoming route: its first declared one.
    pub fn build_receiver(&self, node: &str) -> (r: Result<Receiver, ResolutionError>)
        ensures
            resolved_one(self@, node@, default_in(self@, node@), receiver_route(r)),
    {
        let name = node.to_owned();
        if !self.declares(&name) {
            return Err(ResolutionError::UnknownNode(name));
        }
        match self.find_route(None, Some(&name)) {
            Some(route) => Ok(Receiver { route }),
            None => Err(ResolutionError::NoRoute),
        }
    }

    /// Resolves the route from `from` into `node`.
    pub fn build_receiver_from(&self, node: &str, from: &str) -> (r: Result<Receiver, ResolutionError>)
        ensures
            resolved_two(self@, node@, from@, route_between(self@, from@, node@), receiver_route(r)),
    {
        let name = node.to_owned();
        let peer = from.to_owned();
        if !self.declares(&name) {
            return Err(ResolutionError::UnknownNode(name));
        }
        if !self.declares(&peer) {
            return Err(ResolutionError::UnknownNode(peer));
        }
        match self.find_route(Some(&peer), Some(&name)) {
            Some(route) => Ok(Receiver { route }),
            None => Err(ResolutionError::NoRoute),
        }
    }
}

} // verus!
