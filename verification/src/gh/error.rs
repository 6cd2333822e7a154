//! What can go wrong between building the client and reading the reply.

use vstd::prelude::*;
use crate::detail::debug_text;

verus! {

/// An error of the HTTP client, as `reqwest` reports it.
#[verifier::external_type_specification]
#[verifier::external_body]
pub struct ExRequestError(reqwest::Error);

/// The reason a text is no absolute URL, as `url` reports it.
#[verifier::external_type_specification]
#[verifier::external_body]
pub struct ExUrlParseError(url::ParseError);

/// One entry of the `errors` array of a reply, as `graphql_client` reads it.
#[verifier::external_type_specification]
#[verifier::external_body]
pub struct ExQueryErrorEntry(graphql_client::Error);

/// Why a search did not yield a reply to work on.
#[derive(Debug)]
#[allow(inconsistent_fields)]
pub enum GithubError {
    /// The HTTP client could not be built, or the exchange failed.
    RequestError { source: reqwest::Error },
    /// The endpoint is no absolute URL.
    UrlParseError { source: url::ParseError },
    /// The endpoint answered 401: the token is missing or wrong.
    Unauthorized,
    /// The endpoint answered with a list of errors; all of them are kept.
    QueryError { errors: Vec<graphql_client::Error> },
}

impl From<reqwest::Error> for GithubError {
    fn from(source: reqwest::Error) -> (error: GithubError) {
        GithubError::RequestError { source }
    }
}

impl vstd::std_specs::convert::FromSpecImpl<reqwest::Error> for GithubError {
    open spec fn obeys_from_spec() -> bool {
        true
    }

    open spec fn from_spec(source: reqwest::Error) -> GithubError {
        GithubError::RequestError { source }
    }
}

impl From<url::ParseError> for GithubError {
    fn from(source: url::ParseError) -> (error: GithubError) {
        GithubError::UrlParseError { source }
    }
}

impl vstd::std_specs::convert::FromSpecImpl<url::ParseError> for GithubError {
    open spec fn obeys_from_spec() -> bool {
        true
    }

    open spec fn from_spec(source: url::ParseError) -> GithubError {
        GithubError::UrlParseError { source }
    }
}

/// What precedes the detail in the message of a `RequestError`.
pub const REQUEST_ERROR: &'static str = "Reqwest error: ";

/// What precedes the detail in the message of a `UrlParseError`.
pub const URL_PARSE_ERROR: &'static str = "URL parse error: ";

/// The message of `Unauthorized`: it tells where to look.
pub const UNAUTHORIZED_REQUEST: &'static str = "unauthorized request, check your GITHUB_API_TOKEN";

/// What precedes the errors in the message of a `QueryError`.
pub const QUERY_ERROR: &'static str = "failure: ";

/// The reason a text is no absolute URL, as its `Debug` form writes it:
/// the name of the reason.
pub uninterp spec fn url_fault_text(fault: url::ParseError) -> Seq<char>;

/// The reason a text is no absolute URL, in the words of its `Debug` form.
/// Calls `format!` with `{:?}`; the reasons are an enum without fields, so
/// the text depends on the reason alone.
#[verifier::external_body]
fn url_fault_detail(fault: &url::ParseError) -> (text: String)
    ensures
        text@ == url_fault_text(*fault),
{
    format!("{:?}", fault)
}

impl GithubError {
    /// The error in words: what went wrong, then the detail as the source
    /// of the error writes it.
    pub fn message(&self) -> (text: String)
        ensures
            self is RequestError ==> REQUEST_ERROR@.is_prefix_of(text@),
            (self matches GithubError::UrlParseError { source } ==> text@ == URL_PARSE_ERROR@
                + url_fault_text(*source)),
            self is Unauthorized ==> text@ == UNAUTHORIZED_REQUEST@,
            self is QueryError ==> QUERY_ERROR@.is_prefix_of(text@),
    {
        match self {
            GithubError::RequestError { source } => {
                String::from_str(REQUEST_ERROR).concat(debug_text(source).as_str())
            },
            GithubError::UrlParseError { source } => {
                String::from_str(URL_PARSE_ERROR).concat(url_fault_detail(source).as_str())
            },
            GithubError::Unauthorized => String::from_str(UNAUTHORIZED_REQUEST),
            GithubError::QueryError { errors } => {
                String::from_str(QUERY_ERROR).concat(debug_text(errors).as_str())
            },
        }
    }
}

} // verus!
