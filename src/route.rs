//! The route table, first match wins, and the dispatcher that runs a
//! route's filters and picks the controller operation for the method.

use vstd::prelude::*;
use vstd::string::*;

use crate::errors::InternalServerError;
use crate::filter::{chain, run_request_filters, run_response_filters, Filter, OutcomeView, RequestFilterOutcome};
use crate::http::{is_bare, Method, ParamMap, Request, Response};
use crate::path::{
    names_unique, target_accepted, target_params, template_segments, PathTemplate, SegmentView,
};

verus! {

/// A template, the controller that answers it, and the filters around it.
#[derive(Clone, Debug)]
pub struct Route<H> {
    pub template: PathTemplate,
    pub path: String,
    pub handler: H,
    pub filters: Vec<Filter>,
}

impl<H> Route<H> {
    /// A route on the template `path`; None when two of its captures share a name.
    pub fn filtered(path: &str, handler: H, filters: Vec<Filter>) -> (r: Option<Route<H>>)
        ensures
            names_unique(template_segments(path@)) ==> (r matches Some(rt) && rt.template@
                == template_segments(path@) && rt.path@ == path@ && rt.handler == handler
                && rt.filters@ == filters@),
            !names_unique(template_segments(path@)) ==> r is None,
    {
        match PathTemplate::compile(path) {
            None => None,
            Some(template) => Some(Route { template, path: path.to_owned(), handler, filters }),
        }
    }

    /// The template text of the route.
    pub fn full_path(&self) -> (r: &str)
        ensures
            r@ == self.path@,
    {
        self.path.as_str()
    }
}

/// The templates of some routes.
pub open spec fn templates<H>(routes: Seq<Route<H>>) -> Seq<Seq<SegmentView>> {
    routes.map_values(|r: Route<H>| r.template@)
}

/// The index of the first template that accepts the target.
pub open spec fn first_accepting(ts: Seq<Seq<SegmentView>>, target: Seq<char>) -> Option<nat>
    decreases ts.len(),
{
    if ts.len() == 0 {
        None
    } else if target_accepted(ts[0], target) {
        Some(0)
    } else {
        match first_accepting(ts.drop_first(), target) {
            Some(k) => Some(k + 1),
            None => None,
        }
    }
}

proof fn lemma_first_accepting(ts: Seq<Seq<SegmentView>>, target: Seq<char>)
    ensures
        first_accepting(ts, target) matches Some(i) ==> i < ts.len() && target_accepted(
            ts[i as int],
            target,
        ) && forall|j: int| 0 <= j < i ==> !target_accepted(#[trigger] ts[j], target),
        first_accepting(ts, target) is None ==> forall|j: int|
            0 <= j < ts.len() ==> !target_accepted(#[trigger] ts[j], target),
    decreases ts.len(),
{
    if ts.len() > 0 {
        lemma_first_accepting(ts.drop_first(), target);
        if !target_accepted(ts[0], target) {
            assert forall|j: int| 1 <= j < ts.len() implies ts[j] == ts.drop_first()[j - 1] by {}
        }
    }
}

/// The controller operation that answers each method.
#[derive(Clone, Copy, Debug, PartialEq, Eq, Structural)]
pub enum Operation {
    Fetch,
    Create,
    Update,
    Delete,
}

/// The operation for a method; the four methods have one each.
pub open spec fn operation_of(m: Method) -> Option<Operation> {
    match m {
        Method::Get => Some(Operation::Fetch),
        Method::Post => Some(Operation::Create),
        Method::Put => Some(Operation::Update),
        Method::Delete => Some(Operation::Delete),
        Method::Other => None,
    }
}

/// The operation for a method; the four methods have one each.
pub fn operation_for(m: Method) -> (r: Option<Operation>)
    ensures
        r == operation_of(m),
{
    match m {
        Method::Get => Some(Operation::Fetch),
        Method::Post => Some(Operation::Create),
        Method::Put => Some(Operation::Update),
        Method::Delete => Some(Operation::Delete),
        Method::Other => None,
    }
}

/// What the dispatcher decided for a request.
#[derive(Clone, Debug)]
pub enum Dispatch {
    /// The answer is known without a controller.
    Respond(Response),
    /// Run this operation of the route's controller.
    Invoke { route: usize, operation: Operation, request: Request, params: ParamMap },
}

/// Routes in the order they were registered.
#[derive(Clone, Debug)]
pub struct RouteTable<H> {
    pub routes: Vec<Route<H>>,
}

impl<H> RouteTable<H> {
    /// A table with no route.
    pub fn new() -> (t: RouteTable<H>)
        ensures
            t.routes@ == Seq::<Route<H>>::empty(),
    {
        RouteTable { routes: Vec::new() }
    }

    /// Adds a route after those already registered.
    pub fn register(&mut self, route: Route<H>)
        ensures
            final(self).routes@ == old(self).routes@.push(route),
    {
        self.routes.push(route);
    }

    /// The first route, in registration order, whose template accepts the
    /// target, and the parameters it binds.
    pub fn find(&self, target: &str) -> (r: Option<(usize, ParamMap)>)
        ensures
            r matches Some((i, m)) ==> first_accepting(templates(self.routes@), target@) == Some(
                i as nat,
            ) && m@ == target_params(self.routes@[i as int].template@, target@),
            r is None ==> first_accepting(templates(self.routes@), target@) is None,
    {
        let ghost ts = templates(self.routes@);
        proof {
            lemma_first_accepting(ts, target@);
        }
        let mut i: usize = 0;
        while i < self.routes.len()
            invariant
                ts == templates(self.routes@),
                i <= ts.len(),
                forall|j: int| 0 <= j < i ==> !target_accepted(#[trigger] ts[j], target@),
                first_accepting(ts, target@) matches Some(k) ==> k < ts.len() && target_accepted(
                    ts[k as int],
                    target@,
                ) && forall|j: int| 0 <= j < k ==> !target_accepted(#[trigger] ts[j], target@),
                first_accepting(ts, target@) is None ==> forall|j: int|
                    0 <= j < ts.len() ==> !target_accepted(#[trigger] ts[j], target@),
            decreases ts.len() - i,
        {
            proof {
                assert(ts[i as int] == self.routes@[i as int].template@);
            }
            if let Some(m) = self.routes[i].template.match_target(target) {
                return Some((i, m));
            }
            i = i + 1;
        }
        None
    }

    /// Matches the request to a route and runs the route's request filters.
    /// 404 with an empty body when no route matches or the method has no
    /// operation; a filter's failure is the answer as it is; otherwise the
    /// operation to run, with the request and parameters the filters passed.
    pub fn route_request(&self, req: Request) -> (r: Dispatch)
        ensures
            match first_accepting(templates(self.routes@), req.path@) {
                None => r matches Dispatch::Respond(res) && is_bare(res, 404),
                Some(i) => {
                    let rt = self.routes@[i as int];
                    let params = target_params(rt.template@, req.path@);
                    match chain(rt.filters@, req@, params).0 {
                        OutcomeView::Fail(res) => r matches Dispatch::Respond(x) && x@ == res,
                        OutcomeView::Pass(q, p) => match operation_of(q.method) {
                            None => r matches Dispatch::Respond(res) && is_bare(res, 404),
                            Some(op) => r matches Dispatch::Invoke { route, operation, request, params } && route == i && operation == op && request@ == q && params@ == p,
                        },
                    }
                },
            },
    {
        proof {
            lemma_first_accepting(templates(self.routes@), req.path@);
        }
        let found = self.find(req.path.as_str());
        match found {
            None => Dispatch::Respond(Response::bare(404)),
            Some((i, params)) => {
                let (outcome, _ran) = run_request_filters(&self.routes[i].filters, req, params);
                match outcome {
                    RequestFilterOutcome::Fail(res) => Dispatch::Respond(res),
                    RequestFilterOutcome::Pass(q, p) => match operation_for(q.method) {
                        None => Dispatch::Respond(Response::bare(404)),
                        Some(operation) => Dispatch::Invoke {
                            route: i,
                            operation,
                            request: q,
                            params: p,
                        },
                    },
                }
            },
        }
    }

    /// Finishes a request the controller of route `route` answered: runs
    /// the route's response filters in order. A failure below the
    /// controller becomes 500 with an empty body.
    pub fn complete(&self, route: usize, result: Result<Response, String>) -> (r: Response)
        requires
            route < self.routes@.len(),
        ensures
            match result {
                Err(_) => is_bare(r, 500),
                Ok(res) => r == res,
            },
    {
        match result {
            Err(_) => InternalServerError.response(),
            Ok(res) => run_response_filters(&self.routes[route].filters, res),
        }
    }
}

/// The collection route on `base` and the item route on `base/:id`, in
/// that order, both with the same controller and filters. None when a
/// template has two captures of one name.
pub fn generate_routes<H: Copy>(base: &str, id: &str, handler: H, filters: &Vec<Filter>) -> (r:
    Option<Vec<Route<H>>>)
    ensures
        ({
            let with_id = base@ + "/:"@ + id@;
            if names_unique(template_segments(base@)) && names_unique(template_segments(with_id)) {
                r matches Some(v) && v@.len() == 2 && v@[0].path@ == base@ && v@[1].path@ == with_id
                    && v@[0].template@ == template_segments(base@) && v@[1].template@
                    == template_segments(with_id) && v@[0].handler == handler && v@[1].handler
                    == handler && v@[0].filters@ == filters@ && v@[1].filters@ == filters@
            } else {
                r is None
            }
        }),
{
    let mut with_id = String::from_str(base);
    with_id.append("/:");
    with_id.append(id);
    let first = Route::filtered(base, handler, copy_filters(filters));
    let second = Route::filtered(with_id.as_str(), handler, copy_filters(filters));
    match (first, second) {
        (Some(a), Some(b)) => {
            let mut v: Vec<Route<H>> = Vec::new();
            v.push(a);
            v.push(b);
            Some(v)
        },
        _ => None,
    }
}

fn copy_filters(fs: &Vec<Filter>) -> (r: Vec<Filter>)
    ensures
        r@ == fs@,
{
    let mut out: Vec<Filter> = Vec::new();
    let mut i: usize = 0;
    while i < fs.len()
        invariant
            i <= fs@.len(),
            out@ == fs@.take(i as int),
        decreases fs@.len() - i,
    {
        out.push(fs[i]);
        proof {
            assert(out@ =~= fs@.take(i + 1));
        }
        i = i + 1;
    }
    proof {
        assert(fs@.take(i as int) =~= fs@);
    }
    out
}

/// Appends new routes after those already there, keeping their order.
pub fn add_routes<H>(routes: &mut Vec<Route<H>>, new_routes: Vec<Route<H>>)
    ensures
        final(routes)@ == old(routes)@ + new_routes@,
{
    let mut new_routes = new_routes;
    routes.append(&mut new_routes);
}

} // verus!

verus! {

/// With two templates that never accept the same target registered, the
/// route a target reaches does not depend on their order: it is the one
/// that accepts the target.
pub proof fn law_disjoint_pair_any_order(
    t1: Seq<SegmentView>,
    t2: Seq<SegmentView>,
    target: Seq<char>,
)
    requires
        !(target_accepted(t1, target) && target_accepted(t2, target)),
    ensures
        first_accepting(seq![t1, t2], target) == (if target_accepted(t1, target) {
            Some(0nat)
        } else if target_accepted(t2, target) {
            Some(1nat)
        } else {
            None
        }),
        first_accepting(seq![t2, t1], target) == (if target_accepted(t2, target) {
            Some(0nat)
        } else if target_accepted(t1, target) {
            Some(1nat)
        } else {
            None
        }),
{
    assert(seq![t1, t2].drop_first() =~= seq![t2]);
    assert(seq![t2, t1].drop_first() =~= seq![t1]);
    assert(seq![t2].drop_first() =~= Seq::<Seq<SegmentView>>::empty());
    assert(seq![t1].drop_first() =~= Seq::<Seq<SegmentView>>::empty());
    reveal_with_fuel(first_accepting, 3);
}

} // verus!
