//! How a reply is read: first its HTTP status, then its parsed body.

use vstd::prelude::*;
use crate::gh::api::Response;
use crate::gh::error::GithubError;

verus! {

/// The HTTP status that tells of a missing or wrong token.
pub const UNAUTHORIZED: u16 = 401;

/// Whether a reply carries a list of errors with at least one entry.
pub open spec fn reports_errors(body: Response) -> bool {
    body.errors matches Some(errors) && errors@.len() > 0
}

/// What is made of a reply, by its HTTP status and its parsed body.
///
/// Status 401 means a missing or wrong token, whatever the body says. With
/// any other status a body that reports errors is a failure that carries all
/// of them, whether or not it has data as well. Anything else is handed on
/// as it is.
pub open spec fn classified(status: u16, body: Response) -> Result<Response, GithubError> {
    if status == UNAUTHORIZED {
        Err(GithubError::Unauthorized)
    } else if reports_errors(body) {
        Err(GithubError::QueryError { errors: body.errors->0 })
    } else {
        Ok(body)
    }
}

/// Reads the HTTP status of a reply: 401 is a failure, and the body need not
/// be read; with any other status the body decides.
pub fn check_status(status: u16) -> (checked: Result<(), GithubError>)
    ensures
        status == UNAUTHORIZED ==> checked is Err && checked->Err_0 is Unauthorized,
        status != UNAUTHORIZED ==> checked is Ok,
{
    if status == UNAUTHORIZED {
        Err(GithubError::Unauthorized)
    } else {
        Ok(())
    }
}

/// Reads the parsed body of a reply whose status was not 401: a body that
/// reports errors is a failure that carries all of them, any other body is
/// handed on as it is.
pub fn check_errors(body: Response) -> (checked: Result<Response, GithubError>)
    ensures
        reports_errors(body) ==> checked is Err && checked->Err_0 is QueryError
            && checked->Err_0->errors == body.errors->0,
        !reports_errors(body) ==> checked is Ok && checked->Ok_0 == body,
{
    let Response { data, errors } = body;
    match errors {
        Some(errors) => {
            if errors.len() > 0 {
                Err(GithubError::QueryError { errors })
            } else {
                Ok(Response { data, errors: Some(errors) })
            }
        },
        None => Ok(Response { data, errors: None }),
    }
}

/// Classifies a reply by its HTTP status and its parsed body.
pub fn classify_response(status: u16, body: Response) -> (outcome: Result<Response, GithubError>)
    ensures
        outcome == classified(status, body),
        status == UNAUTHORIZED ==> outcome is Err && outcome->Err_0 is Unauthorized,
        status != UNAUTHORIZED && reports_errors(body) ==> outcome is Err
            && outcome->Err_0 is QueryError && outcome->Err_0->errors == body.errors->0,
        status != UNAUTHORIZED && !reports_errors(body) ==> outcome is Ok && outcome->Ok_0 == body,
{
    match check_status(status) {
        Err(error) => Err(error),
        Ok(()) => check_errors(body),
    }
}

} // verus!
