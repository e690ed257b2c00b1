//! Routing table: maps a path selector (and, for function routes, the POST
//! method) to a registered resolver. Built once before serving; read-only
//! thereafter.

use vstd::prelude::*;

use crate::errors::ServerError;
use crate::request::HttpMethod;
use crate::request::Request;

verus! {

/// Index of the first route whose key equals `key`, if any.
pub open spec fn spec_lookup<R>(table: Seq<(String, R)>, key: Seq<char>) -> Option<int>
    decreases table.len(),
{
    if table.len() == 0 {
        None
    } else if table[0].0@ == key {
        Some(0int)
    } else {
        match spec_lookup(table.drop_first(), key) {
            Some(i) => Some(i + 1),
            None => None,
        }
    }
}

/// Scanning left to right settles where the first match sits.
proof fn lemma_lookup_from_scan<R>(table: Seq<(String, R)>, key: Seq<char>, i: int)
    requires
        0 <= i <= table.len(),
        forall|j: int| 0 <= j < i ==> #[trigger] table[j].0@ != key,
        i < table.len() ==> table[i].0@ == key,
    ensures
        spec_lookup(table, key) == if i < table.len() {
            Some(i)
        } else {
            None::<int>
        },
    decreases i,
{
    if i > 0 {
        assert(table[0].0@ != key);
        assert forall|j: int| 0 <= j < i - 1 implies #[trigger] table.drop_first()[j].0@ != key by {
            assert(table.drop_first()[j] == table[j + 1]);
        }
        if i < table.len() {
            assert(table.drop_first()[i - 1] == table[i]);
        }
        lemma_lookup_from_scan(table.drop_first(), key, i - 1);
    }
}

/// First route registered under `key`, by linear scan.
fn find_route<'a, R>(table: &'a Vec<(String, R)>, key: &String) -> (r: Option<&'a R>)
    ensures
        match spec_lookup(table@, key@) {
            Some(i) => (r matches Some(spec) && spec == &table@[i].1),
            None => r is None,
        },
{
    let mut i: usize = 0;
    while i < table.len()
        invariant
            0 <= i <= table.len(),
            forall|j: int| 0 <= j < i ==> #[trigger] table@[j].0@ != key@,
        decreases table.len() - i,
    {
        if table[i].0 == *key {
            proof {
                lemma_lookup_from_scan(table@, key@, i as int);
            }
            return Some(&table[i].1);
        }
        i = i + 1;
    }
    proof {
        lemma_lookup_from_scan(table@, key@, table@.len() as int);
    }
    None
}

/// The resolver a request was routed to.
#[derive(Debug)]
pub enum RouteTarget<'a, F, C> {
    Function(&'a F),
    Crud(&'a C),
}

/// The routing table: selector-keyed function routes (reached by POST only)
/// and selector-keyed CRUD routes. Function routes take precedence.
pub struct RoutingConfig<F, C> {
    pub function_routes: Vec<(String, F)>,
    pub crud_routes: Vec<(String, C)>,
}

/// The function route a request selects: POST only, first key match.
pub open spec fn spec_function_route<F, C>(cfg: RoutingConfig<F, C>, req: Request) -> Option<int> {
    if req.method is Post {
        match req.selector {
            Some(sel) => spec_lookup(cfg.function_routes@, sel@),
            None => None,
        }
    } else {
        None
    }
}

/// The CRUD route a request selects: first key match, any method.
pub open spec fn spec_crud_route<F, C>(cfg: RoutingConfig<F, C>, req: Request) -> Option<int> {
    match req.selector {
        Some(sel) => spec_lookup(cfg.crud_routes@, sel@),
        None => None,
    }
}

impl<F, C> RoutingConfig<F, C> {
    /// Routes a request: the function table is consulted first (POST only),
    /// then the CRUD table; a request no table knows is a client error that
    /// keeps the offending path for logs only.
    pub fn handle(&self, request: &Request) -> (r: Result<RouteTarget<F, C>, ServerError>)
        ensures
            match spec_function_route(*self, *request) {
                Some(i) => (r matches Ok(t) && t matches RouteTarget::Function(f) && f
                    == &self.function_routes@[i].1),
                None => match spec_crud_route(*self, *request) {
                    Some(j) => (r matches Ok(t) && t matches RouteTarget::Crud(c) && c
                        == &self.crud_routes@[j].1),
                    None => (r matches Err(e) && {
                        &&& e.behavior is ForwardToClient
                        &&& e.message@ == "Invalid route."@
                        &&& e.detail matches Some(d) && d@ == request.path@
                    }),
                },
            },
    {
        match self.find_function_spec(request) {
            Some(t) => Ok(t),
            None => match self.find_crud_spec(request) {
                Some(t) => Ok(t),
                None => Err(ServerError::invalid_route(self_path(request))),
            },
        }
    }

    /// The function route for the request, if its method and selector name
    /// one.
    fn find_function_spec(&self, request: &Request) -> (r: Option<RouteTarget<F, C>>)
        ensures
            match spec_function_route(*self, *request) {
                Some(i) => (r matches Some(t) && t matches RouteTarget::Function(f) && f
                    == &self.function_routes@[i].1),
                None => r is None,
            },
    {
        if let HttpMethod::Post = request.method {
            match &request.selector {
                Some(sel) => match find_route(&self.function_routes, sel) {
                    Some(f) => Some(RouteTarget::Function(f)),
                    None => None,
                },
                None => None,
            }
        } else {
            None
        }
    }

    /// The CRUD route for the request, if its selector names one.
    fn find_crud_spec(&self, request: &Request) -> (r: Option<RouteTarget<F, C>>)
        ensures
            match spec_crud_route(*self, *request) {
                Some(j) => (r matches Some(t) && t matches RouteTarget::Crud(c) && c
                    == &self.crud_routes@[j].1),
                None => r is None,
            },
    {
        match &request.selector {
            Some(sel) => match find_route(&self.crud_routes, sel) {
                Some(c) => Some(RouteTarget::Crud(c)),
                None => None,
            },
            None => None,
        }
    }
}

/// The request's path, for the route-not-found log detail.
fn self_path(request: &Request) -> (r: &str)
    ensures
        r@ == request.path@,
{
    request.path.as_str()
}

} // verus!
