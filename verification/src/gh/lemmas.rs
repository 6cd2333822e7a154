//! What holds of the list and of the summary, whatever the reply.

use vstd::prelude::*;
use crate::gh::aggregate::{
    count, counts, is_closed, is_draft, is_merged, is_open, lemma_count_push, lemma_listed_push,
    listed,
};
use crate::gh::api::{Counts, Response};
use crate::gh::pull_requests_view::{edge_pull_request, PullRequest, PullRequestState, SearchEdge};
use crate::seqs::lemma_filter_len_ignores_order;

verus! {

/// A reply whose data, or whose `search.edges`, is absent or empty lists no
/// pull request, and all four counters of its summary are zero.
pub proof fn lemma_nothing_without_edges(response: Response)
    requires
        response.data is None || response.data->0.search.edges is None
            || response.data->0.search.edges->0@.len() == 0,
    ensures
        listed(response.edges()) == Seq::<PullRequest>::empty(),
        counts(listed(response.edges())) == Counts::zero(),
{
    reveal(Seq::filter);
    assert(response.edges() == Seq::<Option<SearchEdge>>::empty());
}

/// Whether an edge carries a pull request that meets `p`.
pub open spec fn carries(p: spec_fn(PullRequest) -> bool) -> spec_fn(Option<SearchEdge>) -> bool {
    |edge: Option<SearchEdge>|
        match edge_pull_request(edge) {
            Some(pr) => p(pr),
            None => false,
        }
}

/// As many listed pull requests meet `p` as edges carry one that does.
proof fn lemma_count_by_edges(edges: Seq<Option<SearchEdge>>, p: spec_fn(PullRequest) -> bool)
    ensures
        count(listed(edges), p) == edges.filter(carries(p)).len(),
    decreases edges.len(),
{
    if edges.len() == 0 {
        reveal(Seq::filter);
    } else {
        let front = edges.drop_last();
        let last = edges.last();
        assert(front.push(last) == edges);
        lemma_count_by_edges(front, p);
        lemma_listed_push(front, last);
        front.lemma_filter_len_push(carries(p), last);
        if let Some(pr) = edge_pull_request(last) {
            lemma_count_push(listed(front), pr, p);
        }
    }
}

/// Two sequences of edges with the same edges, each as often in one as in
/// the other, have as many pull requests that meet `p`.
proof fn lemma_count_ignores_order(
    a: Seq<Option<SearchEdge>>,
    b: Seq<Option<SearchEdge>>,
    p: spec_fn(PullRequest) -> bool,
)
    requires
        a.to_multiset() == b.to_multiset(),
    ensures
        count(listed(a), p) == count(listed(b), p),
{
    lemma_count_by_edges(a, p);
    lemma_count_by_edges(b, p);
    lemma_filter_len_ignores_order(a, b, carries(p));
}

/// The summary does not depend on the order of the edges: two sequences that
/// hold the same edges the same number of times have the same summary.
pub proof fn lemma_summary_ignores_order(a: Seq<Option<SearchEdge>>, b: Seq<Option<SearchEdge>>)
    requires
        a.to_multiset() == b.to_multiset(),
    ensures
        counts(listed(a)) == counts(listed(b)),
{
    lemma_count_ignores_order(a, b, is_open());
    lemma_count_ignores_order(a, b, is_closed());
    lemma_count_ignores_order(a, b, is_merged());
    lemma_count_ignores_order(a, b, is_draft());
}

/// The state of a pull request as the summary reads it: one of the three
/// known states, or none of them.
pub enum Standing {
    Open,
    Closed,
    Merged,
    Unknown,
}

/// All that the summary reads of a pull request: its state and whether it
/// is a draft.
pub struct Mark {
    pub standing: Standing,
    pub draft: bool,
}

/// What the summary reads of a pull request.
pub open spec fn mark(pr: PullRequest) -> Mark {
    Mark {
        standing: match pr.state {
            PullRequestState::OPEN => Standing::Open,
            PullRequestState::CLOSED => Standing::Closed,
            PullRequestState::MERGED => Standing::Merged,
            PullRequestState::Other(_) => Standing::Unknown,
        },
        draft: pr.is_draft,
    }
}

/// What the summary reads of each of the pull requests.
pub open spec fn marks(pulls: Seq<PullRequest>) -> Seq<Mark> {
    pulls.map_values(|pr: PullRequest| mark(pr))
}

/// The summary, counted from the marks.
pub open spec fn counts_of_marks(marks: Seq<Mark>) -> Counts {
    Counts {
        open: marks.filter(|m: Mark| m.standing is Open).len(),
        closed: marks.filter(|m: Mark| m.standing is Closed).len(),
        merged: marks.filter(|m: Mark| m.standing is Merged).len(),
        draft: marks.filter(|m: Mark| m.draft).len(),
    }
}

/// As many pull requests meet `p` as marks meet `q`, where `p` reads of a
/// pull request what `q` reads of its mark.
proof fn lemma_count_by_marks(
    pulls: Seq<PullRequest>,
    p: spec_fn(PullRequest) -> bool,
    q: spec_fn(Mark) -> bool,
)
    requires
        forall|pr: PullRequest| #[trigger] p(pr) == q(mark(pr)),
    ensures
        count(pulls, p) == marks(pulls).filter(q).len(),
    decreases pulls.len(),
{
    if pulls.len() == 0 {
        reveal(Seq::filter);
        assert(marks(pulls) == Seq::<Mark>::empty());
    } else {
        let front = pulls.drop_last();
        let last = pulls.last();
        assert(front.push(last) == pulls);
        lemma_count_by_marks(front, p, q);
        lemma_count_push(front, last, p);
        assert(marks(pulls) == marks(front).push(mark(last)));
        marks(front).lemma_filter_len_push(q, mark(last));
    }
}

/// The summary can be counted from the marks alone.
pub proof fn lemma_summary_by_marks(pulls: Seq<PullRequest>)
    ensures
        counts(pulls) == counts_of_marks(marks(pulls)),
{
    lemma_count_by_marks(pulls, is_open(), |m: Mark| m.standing is Open);
    lemma_count_by_marks(pulls, is_closed(), |m: Mark| m.standing is Closed);
    lemma_count_by_marks(pulls, is_merged(), |m: Mark| m.standing is Merged);
    lemma_count_by_marks(pulls, is_draft(), |m: Mark| m.draft);
}

/// The summary depends on nothing but the states and the draft flags, and
/// not on their order: pull requests with the same marks, each as often
/// among the ones as among the others, have the same summary.
pub proof fn lemma_summary_reads_marks_only(a: Seq<PullRequest>, b: Seq<PullRequest>)
    requires
        marks(a).to_multiset() == marks(b).to_multiset(),
    ensures
        counts(a) == counts(b),
{
    lemma_summary_by_marks(a);
    lemma_summary_by_marks(b);
    lemma_filter_len_ignores_order(marks(a), marks(b), |m: Mark| m.standing is Open);
    lemma_filter_len_ignores_order(marks(a), marks(b), |m: Mark| m.standing is Closed);
    lemma_filter_len_ignores_order(marks(a), marks(b), |m: Mark| m.standing is Merged);
    lemma_filter_len_ignores_order(marks(a), marks(b), |m: Mark| m.draft);
}

/// How many pull requests of two runs of edges, one after the other, meet
/// `p`: as many as in the first and in the second together.
proof fn lemma_count_of_both(
    a: Seq<Option<SearchEdge>>,
    b: Seq<Option<SearchEdge>>,
    p: spec_fn(PullRequest) -> bool,
)
    ensures
        count(listed(a + b), p) == count(listed(a), p) + count(listed(b), p),
    decreases b.len(),
{
    if b.len() == 0 {
        reveal(Seq::filter);
        assert(a + b == a);
    } else {
        let front = b.drop_last();
        let last = b.last();
        assert(front.push(last) == b);
        assert((a + front).push(last) == a + b);
        lemma_count_of_both(a, front, p);
        lemma_listed_push(a + front, last);
        lemma_listed_push(front, last);
        if let Some(pr) = edge_pull_request(last) {
            lemma_count_push(listed(a + front), pr, p);
            lemma_count_push(listed(front), pr, p);
        }
    }
}

/// The summary of two runs of edges, one after the other, is the sum of
/// their summaries: a reply can be summarized piece by piece.
pub proof fn lemma_summary_of_both(a: Seq<Option<SearchEdge>>, b: Seq<Option<SearchEdge>>)
    ensures
        counts(listed(a + b)) == counts(listed(a)).plus(counts(listed(b))),
{
    lemma_count_of_both(a, b, is_open());
    lemma_count_of_both(a, b, is_closed());
    lemma_count_of_both(a, b, is_merged());
    lemma_count_of_both(a, b, is_draft());
}

/// Where every pull request is in a known state, the three state counters
/// add up to the number of pull requests.
pub proof fn lemma_states_account_for_all(pulls: Seq<PullRequest>)
    requires
        forall|i: int| 0 <= i < pulls.len() ==> !(#[trigger] pulls[i].state is Other),
    ensures
        counts(pulls).open + counts(pulls).closed + counts(pulls).merged == pulls.len(),
    decreases pulls.len(),
{
    if pulls.len() == 0 {
        reveal(Seq::filter);
    } else {
        let front = pulls.drop_last();
        let last = pulls.last();
        assert(front.push(last) == pulls);
        assert forall|i: int| 0 <= i < front.len() implies !(#[trigger] front[i].state is Other) by {
            assert(front[i] == pulls[i]);
        }
        lemma_states_account_for_all(front);
        lemma_count_push(front, last, is_open());
        lemma_count_push(front, last, is_closed());
        lemma_count_push(front, last, is_merged());
    }
}

/// No counter exceeds the number of pull requests; in particular there are
/// no more drafts than pull requests.
pub proof fn lemma_counters_bounded(pulls: Seq<PullRequest>)
    ensures
        counts(pulls).open <= pulls.len(),
        counts(pulls).closed <= pulls.len(),
        counts(pulls).merged <= pulls.len(),
        counts(pulls).draft <= pulls.len(),
{
    pulls.lemma_filter_len(is_open());
    pulls.lemma_filter_len(is_closed());
    pulls.lemma_filter_len(is_merged());
    pulls.lemma_filter_len(is_draft());
}

/// An edge that carries no pull request (an absent edge, an edge without a
/// node, a node of another kind) leaves no trace: with it or without it, the
/// list is the same, and so is the summary.
pub proof fn lemma_other_edges_leave_no_trace(edges: Seq<Option<SearchEdge>>, i: int)
    requires
        0 <= i < edges.len(),
        edge_pull_request(edges[i]) is None,
    ensures
        listed(edges.remove(i)) == listed(edges),
        counts(listed(edges.remove(i))) == counts(listed(edges)),
    decreases edges.len(),
{
    let front = edges.drop_last();
    let last = edges.last();
    assert(front.push(last) == edges);
    lemma_listed_push(front, last);
    if i == edges.len() - 1 {
        assert(edges.remove(i) == front);
    } else {
        lemma_other_edges_leave_no_trace(front, i);
        assert(edges.remove(i) == front.remove(i).push(last));
        lemma_listed_push(front.remove(i), last);
    }
}

} // verus!
