//! The search operation: what it sends, what it gets, and the summary that
//! is made of what it gets.

use vstd::prelude::*;
use crate::gh::pull_requests_view::{
    data_edges, ResponseData, SearchEdge, Variables, OPERATION_NAME, QUERY,
};

verus! {

/// The pull-request search operation.
#[derive(Debug)]
pub struct PullRequestsView;

/// What goes out to the endpoint: the document of the operation, its name
/// and its variables.
#[derive(Debug, Clone, PartialEq, Eq)]
pub struct QueryBody {
    pub variables: Variables,
    pub query: &'static str,
    pub operation_name: &'static str,
}

impl PullRequestsView {
    /// The request for the search with the given variables: always the same
    /// document and the same operation name.
    pub fn build_query(variables: Variables) -> (body: QueryBody)
        ensures
            body.variables == variables,
            body.query@ == QUERY@,
            body.operation_name@ == OPERATION_NAME@,
    {
        QueryBody { variables, query: QUERY, operation_name: OPERATION_NAME }
    }
}

/// How many pull requests are in each state, and how many are drafts.
///
/// A draft is counted under its state as well: the draft counter stands
/// beside the three state counters, not among them.
#[derive(Debug, Clone, Copy, PartialEq, Eq, Structural)]
pub struct Summary {
    pub open: u64,
    pub closed: u64,
    pub merged: u64,
    pub draft: u64,
}

/// The four counters of a [`Summary`] as natural numbers.
pub struct Counts {
    pub open: nat,
    pub closed: nat,
    pub merged: nat,
    pub draft: nat,
}

impl Counts {
    /// All four counters at zero.
    pub open spec fn zero() -> Counts {
        Counts { open: 0, closed: 0, merged: 0, draft: 0 }
    }

    /// Counter by counter, the sum of two summaries.
    pub open spec fn plus(self, other: Counts) -> Counts {
        Counts {
            open: self.open + other.open,
            closed: self.closed + other.closed,
            merged: self.merged + other.merged,
            draft: self.draft + other.draft,
        }
    }
}

impl View for Summary {
    type V = Counts;

    open spec fn view(&self) -> Counts {
        Counts {
            open: self.open as nat,
            closed: self.closed as nat,
            merged: self.merged as nat,
            draft: self.draft as nat,
        }
    }
}

impl Default for Summary {
    fn default() -> (summary: Summary)
        ensures
            summary@ == Counts::zero(),
    {
        Summary { open: 0, closed: 0, merged: 0, draft: 0 }
    }
}

/// The body of a reply to the search operation, once parsed.
#[derive(Debug, PartialEq, Eq)]
pub struct Response {
    pub data: Option<ResponseData>,
    pub errors: Option<Vec<graphql_client::Error>>,
}

impl Response {
    /// The edges of the reply; none where `data` or `search.edges` is absent.
    pub open spec fn edges(self) -> Seq<Option<SearchEdge>> {
        data_edges(self.data)
    }
}

} // verus!
