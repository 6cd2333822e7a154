//! The pull-request search: its query, its reply and what is made of the reply.

pub mod aggregate;
pub mod api;
pub mod client;
pub mod error;
pub mod lemmas;
pub mod pull_requests_view;
pub mod query;
pub mod reply;

pub use aggregate::{extract_pull_requests, summarize};
pub use api::{PullRequestsView, QueryBody, Response, Summary};
pub use client::{GithubBuilder, GithubClient};
pub use error::GithubError;
pub use reply::{check_errors, check_status, classify_response};
