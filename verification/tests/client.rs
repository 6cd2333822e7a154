use pr_weekly::gh::pull_requests_view::{OPERATION_NAME, QUERY};
use pr_weekly::gh::client::{
    authorization, is_header_value, DEFAULT_ENDPOINT, DEFAULT_USER_AGENT,
};
use pr_weekly::gh::reply::UNAUTHORIZED;
use pr_weekly::gh::pull_requests_view::{
    PullRequest, PullRequestState, ResponseData, Search, SearchEdge, SearchNode, Variables,
};
use pr_weekly::gh::{
    check_errors, check_status, classify_response, GithubBuilder, GithubClient, GithubError,
    PullRequestsView, Response,
};

fn entry(message: &str) -> graphql_client::Error {
    graphql_client::Error {
        message: message.to_string(),
        locations: None,
        path: None,
        extensions: None,
    }
}

fn data() -> ResponseData {
    ResponseData {
        search: Search {
            edges: Some(vec![Some(SearchEdge {
                node: Some(SearchNode::PullRequest(PullRequest {
                    id: "a".to_string(),
                    title: "t".to_string(),
                    is_draft: false,
                    state: PullRequestState::OPEN,
                })),
            })]),
        },
    }
}

#[test]
fn status_401_is_unauthorized_whatever_the_body() {
    let bodies = vec![
        Response { data: None, errors: None },
        Response { data: Some(data()), errors: None },
        Response { data: None, errors: Some(vec![entry("x")]) },
        Response { data: Some(data()), errors: Some(vec![entry("x"), entry("y")]) },
        Response { data: Some(data()), errors: Some(Vec::new()) },
    ];
    for body in bodies {
        assert!(matches!(classify_response(401, body), Err(GithubError::Unauthorized)));
    }
    assert_eq!(UNAUTHORIZED, 401);
}

#[test]
fn status_200_with_errors_carries_all_of_them() {
    let errors = vec![entry("first"), entry("second"), entry("third")];
    let body = Response { data: None, errors: Some(errors.clone()) };
    match classify_response(200, body) {
        Err(GithubError::QueryError { errors: carried }) => assert_eq!(carried, errors),
        other => panic!("unexpected: {:?}", other),
    }
}

#[test]
fn errors_win_over_data() {
    let errors = vec![entry("too many records")];
    let body = Response { data: Some(data()), errors: Some(errors.clone()) };
    match classify_response(200, body) {
        Err(GithubError::QueryError { errors: carried }) => assert_eq!(carried, errors),
        other => panic!("unexpected: {:?}", other),
    }
}

#[test]
fn errors_are_read_with_any_status_but_401() {
    for status in [0u16, 200, 201, 400, 403, 404, 500, 502, u16::MAX] {
        let body = Response { data: None, errors: Some(vec![entry("e")]) };
        assert!(matches!(
            classify_response(status, body),
            Err(GithubError::QueryError { .. })
        ));
    }
}

#[test]
fn a_reply_without_errors_is_handed_on() {
    let outcome = classify_response(200, Response { data: Some(data()), errors: None });
    assert_eq!(outcome.unwrap(), Response { data: Some(data()), errors: None });
    let outcome = classify_response(200, Response { data: None, errors: None });
    assert_eq!(outcome.unwrap(), Response { data: None, errors: None });
    let outcome = classify_response(500, Response { data: Some(data()), errors: None });
    assert_eq!(outcome.unwrap(), Response { data: Some(data()), errors: None });
}

#[test]
fn an_empty_list_of_errors_is_no_failure() {
    let outcome = classify_response(200, Response { data: Some(data()), errors: Some(Vec::new()) });
    assert_eq!(outcome.unwrap(), Response { data: Some(data()), errors: Some(Vec::new()) });
}

#[test]
fn check_status_fails_on_401_only() {
    assert!(matches!(check_status(401), Err(GithubError::Unauthorized)));
    for status in [0u16, 200, 400, 402, 403, 500, u16::MAX] {
        assert!(check_status(status).is_ok());
    }
}

#[test]
fn check_errors_reads_the_body() {
    let errors = vec![entry("a"), entry("b")];
    match check_errors(Response { data: Some(data()), errors: Some(errors.clone()) }) {
        Err(GithubError::QueryError { errors: carried }) => assert_eq!(carried, errors),
        other => panic!("unexpected: {:?}", other),
    }
    let body = check_errors(Response { data: Some(data()), errors: None }).unwrap();
    assert_eq!(body, Response { data: Some(data()), errors: None });
}

#[test]
fn build_query_wraps_the_variables() {
    let body = PullRequestsView::build_query(Variables { query: "repo:a/b is:pr".to_string() });
    assert_eq!(body.variables, Variables { query: "repo:a/b is:pr".to_string() });
    assert_eq!(body.operation_name, "PullRequestsView");
    assert_eq!(body.operation_name, OPERATION_NAME);
    assert_eq!(body.query, QUERY);
    assert!(body.query.starts_with("query PullRequestsView($query: String!)"));
    assert!(body.query.contains("search(query: $query, type: ISSUE"));
    assert!(body.query.contains("isDraft"));
    assert!(body.query.contains("state"));
}

#[test]
fn header_values_are_told_from_other_texts() {
    assert!(is_header_value(""));
    assert!(is_header_value("Bearer abc123"));
    assert!(is_header_value("a\tb"));
    assert!(is_header_value(" ~"));
    assert!(is_header_value("é✓"));
    assert!(!is_header_value("a\nb"));
    assert!(!is_header_value("a\rb"));
    assert!(!is_header_value("\u{0}"));
    assert!(!is_header_value("\u{1f}"));
    assert!(!is_header_value("abc\u{7f}"));
}

#[test]
fn header_values_are_what_the_http_library_takes() {
    let texts = ["", "Bearer abc", "a\tb", " ~", "é✓", "a\nb", "\u{0}", "\u{1f}", "abc\u{7f}", "\u{80}"];
    for text in texts {
        let taken = reqwest::header::HeaderValue::from_str(text).is_ok();
        assert_eq!(is_header_value(text), taken, "{:?}", text);
    }
}

#[test]
fn authorization_puts_bearer_before_the_token() {
    assert_eq!(authorization("abc"), "Bearer abc");
    assert_eq!(authorization(""), "Bearer ");
}

#[test]
fn a_new_builder_points_to_the_public_endpoint() {
    assert_eq!(DEFAULT_ENDPOINT, "https://api.github.com/graphql");
    assert_eq!(DEFAULT_USER_AGENT, "graphql-rust/0.10.0");
    let builder = GithubBuilder::new();
    assert!(builder.has_sendable_token());
    let client = builder.build().unwrap();
    assert_eq!(client.endpoint_url(), "https://api.github.com/graphql");
    let client = GithubClient::builder().build().unwrap();
    assert_eq!(client.endpoint_url(), "https://api.github.com/graphql");
}

#[test]
fn the_endpoint_is_the_one_that_was_set_last() {
    let client = GithubBuilder::new()
        .endpoint_url("https://first.example/graphql")
        .user_agent("pr_weekly/0.0.1")
        .token("secret")
        .endpoint_url("https://second.example/api")
        .build()
        .unwrap();
    assert_eq!(client.endpoint_url(), "https://second.example/api");
}

#[test]
fn the_endpoint_is_written_as_the_url_library_reads_it() {
    let client = GithubBuilder::new().endpoint_url("HTTPS://Example.COM:443/a/../b").build().unwrap();
    assert_eq!(client.endpoint_url(), "https://example.com/b");
    assert_eq!(client.endpoint_url(), url::Url::parse("HTTPS://Example.COM:443/a/../b").unwrap().as_str());
}

#[test]
fn an_endpoint_that_is_no_url_fails_the_build() {
    for endpoint in ["", "not a url", "/graphql", "https://", "http://[::1"] {
        let built = GithubBuilder::new().endpoint_url(endpoint).token("t").build();
        match built {
            Err(GithubError::UrlParseError { source }) => {
                assert_eq!(source, url::Url::parse(endpoint).unwrap_err());
            },
            other => panic!("unexpected: {:?}", other.map(|c| c.endpoint_url().to_string())),
        }
    }
}

#[test]
fn a_user_agent_that_is_no_header_value_fails_the_build() {
    let built = GithubBuilder::new().user_agent("bad\nagent").build();
    assert!(matches!(built, Err(GithubError::RequestError { .. })));
}

#[test]
fn tokens_are_checked_before_the_build() {
    assert!(GithubBuilder::new().token("ghp_abcDEF123").has_sendable_token());
    assert!(GithubBuilder::new().token("").has_sendable_token());
    assert!(!GithubBuilder::new().token("line\nbreak").has_sendable_token());
    assert!(!GithubBuilder::new().token("nul\u{0}").has_sendable_token());
    assert!(GithubBuilder::new().token("bad\n").token("good").has_sendable_token());
}

#[test]
fn a_default_builder_has_nothing_set() {
    let built = GithubBuilder::default().build();
    assert!(matches!(built, Err(GithubError::UrlParseError { .. })));
}

#[test]
fn a_built_client_can_be_cloned() {
    let client = GithubBuilder::new().token("t").build().unwrap();
    let copy = client.clone();
    assert_eq!(copy.endpoint_url(), client.endpoint_url());
    let _http: &reqwest::Client = copy.http();
}

#[test]
fn messages_say_what_went_wrong() {
    assert_eq!(
        GithubError::Unauthorized.message(),
        "unauthorized request, check your GITHUB_API_TOKEN"
    );
    let error = GithubError::from(url::ParseError::EmptyHost);
    assert_eq!(error.message(), "URL parse error: EmptyHost");
    let error = GithubError::QueryError { errors: vec![entry("boom")] };
    let text = error.message();
    assert!(text.starts_with("failure: ["));
    assert!(text.contains("boom"));
    match GithubBuilder::new().user_agent("bad\nagent").build() {
        Err(error) => assert!(error.message().starts_with("Reqwest error: ")),
        Ok(_) => panic!("built"),
    }
}

#[test]
fn outside_errors_turn_into_their_variant() {
    assert!(matches!(
        GithubError::from(url::ParseError::InvalidPort),
        GithubError::UrlParseError { source: url::ParseError::InvalidPort }
    ));
    let source = reqwest::Client::builder().user_agent("bad\nagent").build().unwrap_err();
    assert!(matches!(GithubError::from(source), GithubError::RequestError { .. }));
}

#[test]
fn a_built_client_carries_the_user_agent_and_the_token() {
    let client = GithubBuilder::new()
        .user_agent("pr_weekly/0.0.1")
        .token("secret-token")
        .build()
        .unwrap();
    let text = format!("{:?}", client.http());
    assert!(text.contains("\"user-agent\": \"pr_weekly/0.0.1\""), "{}", text);
    assert!(text.contains("\"authorization\": \"Bearer secret-token\""), "{}", text);
    let client = GithubBuilder::new().build().unwrap();
    let text = format!("{:?}", client.http());
    assert!(text.contains("\"user-agent\": \"graphql-rust/0.10.0\""), "{}", text);
    assert!(text.contains("\"authorization\": \"Bearer \""), "{}", text);
}

#[test]
fn the_message_of_a_url_fault_names_the_reason() {
    let faults = [
        (url::ParseError::EmptyHost, "URL parse error: EmptyHost"),
        (url::ParseError::InvalidPort, "URL parse error: InvalidPort"),
        (url::ParseError::RelativeUrlWithoutBase, "URL parse error: RelativeUrlWithoutBase"),
    ];
    for (fault, text) in faults {
        assert_eq!(GithubError::from(fault).message(), text);
        assert_eq!(format!("URL parse error: {:?}", fault), text);
    }
}
