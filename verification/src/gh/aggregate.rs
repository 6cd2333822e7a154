//! From the result graph to the list of pull requests and to their summary.
//!
//! Both walks are the same: `data` → `search` → `edges` → `node`, keeping the
//! nodes that are pull requests. Whatever is absent on the way, and whatever
//! node is of another kind, is passed over.

use vstd::prelude::*;
use crate::gh::api::{Counts, Response, Summary};
use crate::gh::pull_requests_view::{
    edge_pull_request, PullRequest, PullRequestState, SearchEdge, SearchNode,
};

verus! {

/// [`edge_pull_request`] as a function value.
pub open spec fn carried() -> spec_fn(Option<SearchEdge>) -> Option<PullRequest> {
    |edge: Option<SearchEdge>| edge_pull_request(edge)
}

/// The pull requests among the edges, in the order of the edges.
pub open spec fn listed(edges: Seq<Option<SearchEdge>>) -> Seq<PullRequest> {
    edges.filter_map(carried())
}

/// Whether a pull request is open.
pub open spec fn is_open() -> spec_fn(PullRequest) -> bool {
    |pr: PullRequest| pr.state is OPEN
}

/// Whether a pull request is closed without having been merged.
pub open spec fn is_closed() -> spec_fn(PullRequest) -> bool {
    |pr: PullRequest| pr.state is CLOSED
}

/// Whether a pull request is merged.
pub open spec fn is_merged() -> spec_fn(PullRequest) -> bool {
    |pr: PullRequest| pr.state is MERGED
}

/// Whether a pull request is a draft.
pub open spec fn is_draft() -> spec_fn(PullRequest) -> bool {
    |pr: PullRequest| pr.is_draft
}

/// How many of the pull requests meet `p`.
pub open spec fn count(pulls: Seq<PullRequest>, p: spec_fn(PullRequest) -> bool) -> nat {
    pulls.filter(p).len()
}

/// The summary of a sequence of pull requests: one counter per known state,
/// and the drafts counted beside them. A pull request in an unknown state
/// adds to no state counter.
pub open spec fn counts(pulls: Seq<PullRequest>) -> Counts {
    Counts {
        open: count(pulls, is_open()),
        closed: count(pulls, is_closed()),
        merged: count(pulls, is_merged()),
        draft: count(pulls, is_draft()),
    }
}

/// What one more pull request adds to a counter.
pub(crate) proof fn lemma_count_push(pulls: Seq<PullRequest>, pr: PullRequest, p: spec_fn(PullRequest) -> bool)
    ensures
        count(pulls.push(pr), p) == count(pulls, p) + if p(pr) { 1int } else { 0int },
        count(pulls, p) <= pulls.len(),
{
    pulls.lemma_filter_len_push(p, pr);
    pulls.lemma_filter_len(p);
}

/// What one more edge adds to the list.
pub(crate) proof fn lemma_listed_push(edges: Seq<Option<SearchEdge>>, edge: Option<SearchEdge>)
    ensures
        listed(edges.push(edge)) == match edge_pull_request(edge) {
            Some(pr) => listed(edges).push(pr),
            None => listed(edges),
        },
        listed(edges).len() <= edges.len(),
    decreases edges.len(),
{
    assert(edges.push(edge).drop_last() == edges);
    if edges.len() > 0 {
        lemma_listed_push(edges.drop_last(), edges.last());
        assert(edges.drop_last().push(edges.last()) == edges);
    }
}

/// The pull requests of a reply, in the order of its edges.
///
/// A reply without `data`, data without `search.edges`, an absent edge, an
/// edge without a node and a node of another kind all give nothing: none of
/// them is an error.
pub fn extract_pull_requests(response: Response) -> (pulls: Vec<PullRequest>)
    ensures
        pulls@ == listed(response.edges()),
{
    let mut pulls: Vec<PullRequest> = Vec::new();
    if let Some(data) = response.data {
        if let Some(edges) = data.search.edges {
            let ghost all = edges@;
            for edge in it: edges
                invariant
                    it.seq() == all,
                    pulls@ == listed(all.take(it.index() as int)),
            {
                proof {
                    lemma_listed_push(all.take(it.index() as int), edge);
                    assert(all.take(it.index() + 1) == all.take(it.index() as int).push(edge));
                }
                if let Some(edge) = edge {
                    if let Some(SearchNode::PullRequest(pr)) = edge.node {
                        pulls.push(pr);
                    }
                }
            }
            assert(all.take(all.len() as int) == all);
        }
    }
    pulls
}

/// The summary of the pull requests of a reply.
///
/// The walk is that of [`extract_pull_requests`]; each pull request adds one
/// to the counter of its state, if the state is known, and one to the draft
/// counter if it is a draft.
pub fn summarize(response: &Response) -> (summary: Summary)
    ensures
        summary@ == counts(listed(response.edges())),
{
    let mut summary = Summary::default();
    if let Some(data) = &response.data {
        if let Some(edges) = &data.search.edges {
            let mut i: usize = 0;
            while i < edges.len()
                invariant
                    i <= edges.len(),
                    summary@ == counts(listed(edges@.take(i as int))),
                    listed(edges@.take(i as int)).len() <= i,
                decreases edges.len() - i,
            {
                proof {
                    let seen = edges@.take(i as int);
                    lemma_listed_push(seen, edges@[i as int]);
                    assert(edges@.take(i + 1) == seen.push(edges@[i as int]));
                    if let Some(pr) = edge_pull_request(edges@[i as int]) {
                        lemma_count_push(listed(seen), pr, is_open());
                        lemma_count_push(listed(seen), pr, is_closed());
                        lemma_count_push(listed(seen), pr, is_merged());
                        lemma_count_push(listed(seen), pr, is_draft());
                    }
                }
                if let Some(edge) = &edges[i] {
                    if let Some(SearchNode::PullRequest(pr)) = &edge.node {
                        if pr.is_draft {
                            summary.draft = summary.draft + 1;
                        }
                        match &pr.state {
                            PullRequestState::CLOSED => {
                                summary.closed = summary.closed + 1;
                            },
                            PullRequestState::MERGED => {
                                summary.merged = summary.merged + 1;
                            },
                            PullRequestState::OPEN => {
                                summary.open = summary.open + 1;
                            },
                            PullRequestState::Other(_) => {},
                        }
                    }
                }
                i = i + 1;
            }
            assert(edges@.take(edges@.len() as int) == edges@);
        }
    }
    summary
}

} // verus!
