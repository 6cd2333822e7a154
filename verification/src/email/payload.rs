//! What a report is about, and how the template gets to read it.

use vstd::prelude::*;
use crate::email::json::{
    items_of, json_array, json_fields, json_flag, json_number, json_object, json_of, json_set,
    json_text, Json,
};
use crate::gh::api::{Counts, Summary};
use crate::gh::pull_requests_view::{PullRequest, PullRequestState};

verus! {

/// What a report is about: the pull requests themselves, in order, or
/// their summary.
#[derive(Debug, Clone, PartialEq, Eq)]
pub enum EmailPayload {
    Pulls(Vec<PullRequest>),
    Summary(Summary),
}

/// The name a state goes by in JSON: that of a known state, or the text an
/// unknown state arrived as.
pub open spec fn state_name(state: PullRequestState) -> Seq<char> {
    match state {
        PullRequestState::CLOSED => "CLOSED"@,
        PullRequestState::MERGED => "MERGED"@,
        PullRequestState::OPEN => "OPEN"@,
        PullRequestState::Other(text) => text@,
    }
}

/// A pull request as a JSON object: `id`, `title`, `isDraft` and `state`.
pub open spec fn pull_request_json(pr: PullRequest) -> Json {
    Json::Object(
        Map::<Seq<char>, Json>::empty().insert("id"@, Json::Text(pr.id@)).insert(
            "title"@,
            Json::Text(pr.title@),
        ).insert("isDraft"@, Json::Flag(pr.is_draft)).insert(
            "state"@,
            Json::Text(state_name(pr.state)),
        ),
    )
}

/// Pull requests as a JSON array of objects, in their order.
pub open spec fn pull_requests_json(pulls: Seq<PullRequest>) -> Json {
    Json::Array(Seq::new(pulls.len(), |i: int| pull_request_json(pulls[i])))
}

/// A summary as a JSON object: `open`, `closed`, `merged` and `draft`.
pub open spec fn summary_json(counts: Counts) -> Json {
    Json::Object(
        Map::<Seq<char>, Json>::empty().insert("open"@, Json::Number(counts.open as int)).insert(
            "closed"@,
            Json::Number(counts.closed as int),
        ).insert("merged"@, Json::Number(counts.merged as int)).insert(
            "draft"@,
            Json::Number(counts.draft as int),
        ),
    )
}

/// What the template is given: the subject under `subject`, and beside it
/// the summary under `summary` or the pull requests under `pulls`.
pub open spec fn template_data(subject: Seq<char>, payload: EmailPayload) -> Json {
    let fields = Map::<Seq<char>, Json>::empty().insert("subject"@, Json::Text(subject));
    match payload {
        EmailPayload::Summary(summary) => Json::Object(
            fields.insert("summary"@, summary_json(summary@)),
        ),
        EmailPayload::Pulls(pulls) => Json::Object(
            fields.insert("pulls"@, pull_requests_json(pulls@)),
        ),
    }
}

/// The name of a state as JSON.
fn state_value(state: &PullRequestState) -> (value: serde_json::Value)
    ensures
        json_of(value) == Json::Text(state_name(*state)),
{
    match state {
        PullRequestState::CLOSED => json_text("CLOSED"),
        PullRequestState::MERGED => json_text("MERGED"),
        PullRequestState::OPEN => json_text("OPEN"),
        PullRequestState::Other(text) => json_text(text.as_str()),
    }
}

/// A pull request as JSON.
pub fn pull_request_value(pr: &PullRequest) -> (value: serde_json::Value)
    ensures
        json_of(value) == pull_request_json(*pr),
{
    let mut fields = json_fields();
    json_set(&mut fields, "id", json_text(pr.id.as_str()));
    json_set(&mut fields, "title", json_text(pr.title.as_str()));
    json_set(&mut fields, "isDraft", json_flag(pr.is_draft));
    json_set(&mut fields, "state", state_value(&pr.state));
    json_object(fields)
}

/// Pull requests as JSON, in their order.
pub fn pull_requests_value(pulls: &Vec<PullRequest>) -> (value: serde_json::Value)
    ensures
        json_of(value) == pull_requests_json(pulls@),
{
    let mut items: Vec<serde_json::Value> = Vec::new();
    let mut i: usize = 0;
    while i < pulls.len()
        invariant
            i <= pulls.len(),
            items@.len() == i,
            forall|j: int| 0 <= j < i ==> json_of(#[trigger] items@[j]) == pull_request_json(pulls@[j]),
        decreases pulls.len() - i,
    {
        items.push(pull_request_value(&pulls[i]));
        i = i + 1;
    }
    assert(items_of(items@) == Seq::new(pulls@.len(), |i: int| pull_request_json(pulls@[i])));
    json_array(items)
}

/// A summary as JSON.
pub fn summary_value(summary: &Summary) -> (value: serde_json::Value)
    ensures
        json_of(value) == summary_json(summary@),
{
    let mut fields = json_fields();
    json_set(&mut fields, "open", json_number(summary.open));
    json_set(&mut fields, "closed", json_number(summary.closed));
    json_set(&mut fields, "merged", json_number(summary.merged));
    json_set(&mut fields, "draft", json_number(summary.draft));
    json_object(fields)
}

/// What the template is given for a subject and a payload.
pub fn template_value(subject: &str, payload: &EmailPayload) -> (value: serde_json::Value)
    ensures
        json_of(value) == template_data(subject@, *payload),
{
    let mut fields = json_fields();
    json_set(&mut fields, "subject", json_text(subject));
    match payload {
        EmailPayload::Summary(summary) => {
            json_set(&mut fields, "summary", summary_value(summary));
        },
        EmailPayload::Pulls(pulls) => {
            json_set(&mut fields, "pulls", pull_requests_value(pulls));
        },
    }
    json_object(fields)
}

} // verus!
