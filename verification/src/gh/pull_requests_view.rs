//! The pull-request search as the endpoint knows it: the document of the
//! operation, the variables that go out with it, and the result graph that
//! comes back (`search` → `edges` → `node`).

use vstd::prelude::*;

verus! {

/// The name of the search operation.
pub const OPERATION_NAME: &'static str = "PullRequestsView";

/// The document of the search operation: one page of search results, and of
/// each result that is a pull request its id, title, draft flag and state.
pub const QUERY: &'static str =
    "query PullRequestsView($query: String!) {\n  search(query: $query, type: ISSUE, first: 100) {\n    edges {\n      node {\n        __typename\n        ... on PullRequest {\n          id\n          title\n          isDraft\n          state\n        }\n      }\n    }\n  }\n}\n";

/// The variables of the search operation.
#[derive(Debug, Clone, PartialEq, Eq)]
pub struct Variables {
    /// The search string, in the provider's qualifier syntax.
    pub query: String,
}

/// The state a pull request is reported in.
#[derive(Debug, Clone, PartialEq, Eq)]
pub enum PullRequestState {
    CLOSED,
    MERGED,
    OPEN,
    /// A state this library does not know, with the text it arrived as.
    Other(String),
}

/// A pull request as the search reports it.
#[derive(Debug, Clone, PartialEq, Eq)]
pub struct PullRequest {
    pub id: String,
    pub title: String,
    pub is_draft: bool,
    pub state: PullRequestState,
}

/// A node of the search result: a pull request, or any other kind of node.
#[derive(Debug, Clone, PartialEq, Eq)]
pub enum SearchNode {
    PullRequest(PullRequest),
    /// A node of a kind other than a pull request.
    Other,
}

/// An edge of the search result; only its node is of interest.
#[derive(Debug, Clone, PartialEq, Eq)]
pub struct SearchEdge {
    pub node: Option<SearchNode>,
}

/// The `search` field of the reply.
#[derive(Debug, Clone, PartialEq, Eq)]
pub struct Search {
    pub edges: Option<Vec<Option<SearchEdge>>>,
}

/// The `data` field of the reply.
#[derive(Debug, Clone, PartialEq, Eq)]
pub struct ResponseData {
    pub search: Search,
}

/// The pull request an edge carries, if it carries one: an absent edge, an
/// edge without a node and a node of another kind carry none.
pub open spec fn edge_pull_request(edge: Option<SearchEdge>) -> Option<PullRequest> {
    match edge {
        Some(SearchEdge { node: Some(SearchNode::PullRequest(pr)) }) => Some(pr),
        _ => None,
    }
}

/// The edges of a reply's data; none where the data or its edges are absent.
pub open spec fn data_edges(data: Option<ResponseData>) -> Seq<Option<SearchEdge>> {
    match data {
        Some(ResponseData { search: Search { edges: Some(edges) } }) => edges@,
        _ => Seq::empty(),
    }
}

} // verus!
