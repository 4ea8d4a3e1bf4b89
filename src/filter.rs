//! Filters and the chain that runs them around a controller.

use vstd::prelude::*;

use crate::http::{bare_view, lookup, Method, ParamMap, Request, RequestView, Response, ResponseView};
use crate::search::{search_id, SearchController};

verus! {

/// What a request filter decides.
#[derive(Clone, Debug)]
pub enum RequestFilterOutcome {
    /// Go on with this request and these parameters.
    Pass(Request, ParamMap),
    /// Stop; this is the final response.
    Fail(Response),
}

/// What a request filter decides, as values.
pub enum OutcomeView {
    Pass(RequestView, Seq<(Seq<char>, Seq<char>)>),
    Fail(ResponseView),
}

impl View for RequestFilterOutcome {
    type V = OutcomeView;

    open spec fn view(&self) -> OutcomeView {
        match self {
            RequestFilterOutcome::Pass(q, p) => OutcomeView::Pass(q@, p@),
            RequestFilterOutcome::Fail(r) => OutcomeView::Fail(r@),
        }
    }
}

/// A filter that lets every request and response through as it is.
#[derive(Clone, Copy, Debug)]
pub struct LinkAuthor;

impl LinkAuthor {
    /// Passes the request on unchanged.
    pub fn filter_request(&self, req: Request, params: ParamMap) -> (r: RequestFilterOutcome)
        ensures
            r@ == OutcomeView::Pass(req@, params@),
    {
        RequestFilterOutcome::Pass(req, params)
    }

    /// Passes the response on unchanged.
    pub fn filter_response(&self, res: Response) -> (r: Response)
        ensures
            r == res,
    {
        res
    }
}

/// The link search controller's rule: a POST must not name a link, a PUT
/// must name one; otherwise 404 with an empty body.
pub open spec fn link_search_rule(req: RequestView, params: Seq<(Seq<char>, Seq<char>)>) -> OutcomeView {
    let named = lookup(params, search_id()) is Some;
    if (req.method == Method::Post && named) || (req.method == Method::Put && !named) {
        OutcomeView::Fail(bare_view(404))
    } else {
        OutcomeView::Pass(req, params)
    }
}

/// The filters a route can carry.
#[derive(Clone, Copy, Debug)]
pub enum Filter {
    LinkAuthor(LinkAuthor),
    LinkSearch(SearchController),
}

/// What filter `f` decides on a request.
pub open spec fn apply(f: Filter, req: RequestView, params: Seq<(Seq<char>, Seq<char>)>) -> OutcomeView {
    match f {
        Filter::LinkAuthor(_) => OutcomeView::Pass(req, params),
        Filter::LinkSearch(_) => link_search_rule(req, params),
    }
}

/// Runs the filters from index `i` on: the first `Fail` ends the chain,
/// each `Pass` hands its request and parameters to the next filter. The
/// number is the count of filters run from the start.
pub open spec fn chain_from(
    fs: Seq<Filter>,
    i: nat,
    req: RequestView,
    params: Seq<(Seq<char>, Seq<char>)>,
) -> (OutcomeView, nat)
    decreases fs.len() - i,
{
    if i >= fs.len() {
        (OutcomeView::Pass(req, params), i)
    } else {
        match apply(fs[i as int], req, params) {
            OutcomeView::Fail(r) => (OutcomeView::Fail(r), i + 1),
            OutcomeView::Pass(q, p) => chain_from(fs, i + 1, q, p),
        }
    }
}

/// The outcome of the whole chain and the number of filters it ran.
pub open spec fn chain(fs: Seq<Filter>, req: RequestView, params: Seq<(Seq<char>, Seq<char>)>) -> (OutcomeView, nat) {
    chain_from(fs, 0, req, params)
}

/// The request and parameters handed to filter `i`; None when an earlier
/// filter failed, so that filter `i` never runs.
pub open spec fn reaching(
    fs: Seq<Filter>,
    req: RequestView,
    params: Seq<(Seq<char>, Seq<char>)>,
    i: nat,
) -> Option<(RequestView, Seq<(Seq<char>, Seq<char>)>)>
    decreases i,
{
    if i == 0 {
        Some((req, params))
    } else {
        match reaching(fs, req, params, (i - 1) as nat) {
            None => None,
            Some((q, p)) => match apply(fs[i - 1], q, p) {
                OutcomeView::Fail(_) => None,
                OutcomeView::Pass(q2, p2) => Some((q2, p2)),
            },
        }
    }
}

proof fn lemma_chain_at(
    fs: Seq<Filter>,
    req: RequestView,
    params: Seq<(Seq<char>, Seq<char>)>,
    k: nat,
)
    requires
        k <= fs.len(),
        reaching(fs, req, params, k) is Some,
    ensures
        ({
            let (q, p) = reaching(fs, req, params, k).unwrap();
            chain(fs, req, params) == chain_from(fs, k, q, p)
        }),
    decreases k,
{
    if k > 0 {
        lemma_chain_at(fs, req, params, (k - 1) as nat);
    }
}

proof fn lemma_none_after(
    fs: Seq<Filter>,
    req: RequestView,
    params: Seq<(Seq<char>, Seq<char>)>,
    i: nat,
    j: nat,
)
    requires
        i < j,
        reaching(fs, req, params, i + 1) is None,
    ensures
        reaching(fs, req, params, j) is None,
    decreases j,
{
    if j > i + 1 {
        lemma_none_after(fs, req, params, i, (j - 1) as nat);
    }
}

/// When filter `i` is reached and fails with `r`, the chain's outcome is
/// exactly `r`, it has run `i + 1` filters, and no later filter is reached.
pub proof fn law_chain_stops_at_failure(
    fs: Seq<Filter>,
    req: RequestView,
    params: Seq<(Seq<char>, Seq<char>)>,
    i: nat,
    r: ResponseView,
)
    requires
        i < fs.len(),
        reaching(fs, req, params, i) matches Some((q, p)) && apply(fs[i as int], q, p) == OutcomeView::Fail(r),
    ensures
        chain(fs, req, params) == (OutcomeView::Fail(r), i + 1),
        forall|j: nat| i < j ==> #[trigger] reaching(fs, req, params, j) is None,
{
    lemma_chain_at(fs, req, params, i);
    assert forall|j: nat| i < j implies #[trigger] reaching(fs, req, params, j) is None by {
        lemma_none_after(fs, req, params, i, j);
    }
}

impl Filter {
    /// Runs this filter on a request.
    pub fn filter_request(&self, req: Request, params: ParamMap) -> (r: RequestFilterOutcome)
        ensures
            r@ == apply(*self, req@, params@),
    {
        match self {
            Filter::LinkAuthor(f) => f.filter_request(req, params),
            Filter::LinkSearch(c) => c.filter_request(req, params),
        }
    }

    /// Runs this filter on a response.
    pub fn filter_response(&self, res: Response) -> (r: Response)
        ensures
            r == res,
    {
        match self {
            Filter::LinkAuthor(f) => f.filter_response(res),
            Filter::LinkSearch(c) => c.filter_response(res),
        }
    }
}

/// Runs the request filters in order and stops at the first that fails.
/// Returns the outcome and the number of filters that ran.
pub fn run_request_filters(fs: &Vec<Filter>, req: Request, params: ParamMap) -> (r: (
    RequestFilterOutcome,
    usize,
))
    ensures
        (r.0@, r.1 as nat) == chain(fs@, req@, params@),
{
    let ghost start = chain(fs@, req@, params@);
    let mut q = req;
    let mut p = params;
    let mut i: usize = 0;
    while i < fs.len()
        invariant
            i <= fs@.len(),
            start == chain(fs@, req@, params@),
            start == chain_from(fs@, i as nat, q@, p@),
        decreases fs@.len() - i,
    {
        match fs[i].filter_request(q, p) {
            RequestFilterOutcome::Fail(res) => {
                return (RequestFilterOutcome::Fail(res), i + 1);
            },
            RequestFilterOutcome::Pass(q2, p2) => {
                q = q2;
                p = p2;
            },
        }
        i = i + 1;
    }
    (RequestFilterOutcome::Pass(q, p), i)
}

/// Runs the response filters in the order they were registered.
pub fn run_response_filters(fs: &Vec<Filter>, res: Response) -> (r: Response)
    ensures
        r == res,
{
    let mut cur = res;
    let mut i: usize = 0;
    while i < fs.len()
        invariant
            i <= fs@.len(),
            cur == res,
        decreases fs@.len() - i,
    {
        cur = fs[i].filter_response(cur);
        i = i + 1;
    }
    cur
}

} // verus!

verus! {

/// A chain that starts with the link search filter refuses a POST that
/// names a link and a PUT that names none with 404 and an empty body,
/// after running that one filter only, so no controller operation runs.
pub proof fn law_guard_refuses_before_controller(
    fs: Seq<Filter>,
    c: SearchController,
    req: RequestView,
    params: Seq<(Seq<char>, Seq<char>)>,
)
    requires
        fs.len() >= 1,
        fs[0] == Filter::LinkSearch(c),
        (req.method == Method::Post && lookup(params, search_id()) is Some) || (req.method
            == Method::Put && lookup(params, search_id()) is None),
    ensures
        chain(fs, req, params) == (OutcomeView::Fail(bare_view(404)), 1nat),
{
    law_chain_stops_at_failure(fs, req, params, 0, bare_view(404));
}

} // verus!
