use ghommit::headers::{base_headers, GitHubApiType};
use ghommit::status::{unexpected_status_message, Status};

#[test]
fn graphql_headers() {
    let headers = base_headers(GitHubApiType::GraphQL, "abc").unwrap();

    assert_eq!(headers.len(), 3);
    assert_eq!(headers.get("accept").unwrap(), "application/json");
    assert_eq!(headers.get("authorization").unwrap(), "Bearer abc");
    assert_eq!(headers.get("user-agent").unwrap(), "ghommit");
}

#[test]
fn rest_headers() {
    let headers = base_headers(GitHubApiType::REST, "abc").unwrap();

    assert_eq!(headers.len(), 4);
    assert_eq!(headers.get("accept").unwrap(), "application/vnd.github+json");
    assert_eq!(headers.get("authorization").unwrap(), "Bearer abc");
    assert_eq!(headers.get("user-agent").unwrap(), "ghommit");
    assert_eq!(headers.get("x-github-api-version").unwrap(), "2022-11-28");
}

#[test]
fn tokens_that_do_not_fit_a_header() {
    for token in ["a\nb", "\u{7f}", "\0"] {
        assert_eq!(
            base_headers(GitHubApiType::REST, token).unwrap_err(),
            "Unable to create header value with JWT string"
        );
    }
}

#[test]
fn tokens_that_fit_a_header() {
    for token in ["", "a\tb", "\u{20ac}", "!~ "] {
        let headers = base_headers(GitHubApiType::GraphQL, token).unwrap();
        let expected = format!("Bearer {}", token);
        assert_eq!(headers.get("authorization").unwrap().as_bytes(), expected.as_bytes());
    }
}

#[test]
fn status_codes_have_three_digits() {
    assert!(Status::from_u16(99).is_none());
    assert!(Status::from_u16(100).is_some());
    assert!(Status::from_u16(999).is_some());
    assert!(Status::from_u16(1000).is_none());
}

#[test]
fn status_codes_as_text() {
    assert_eq!(Status::from_u16(201).unwrap().text(), "201 Created");
    assert_eq!(Status::from_u16(404).unwrap().text(), "404 Not Found");
    assert_eq!(Status::from_u16(599).unwrap().text(), "599 <unknown status code>");
}

#[test]
fn only_201_means_created() {
    assert!(Status::from_u16(201).unwrap().is_created());
    assert!(!Status::from_u16(200).unwrap().is_created());
    assert!(!Status::from_u16(202).unwrap().is_created());
}

#[test]
fn unexpected_status_messages() {
    assert_eq!(
        unexpected_status_message("404 Not Found", "creating branch", Some("no")),
        "Unexpected status code 404 Not Found while creating branch: no"
    );
    assert_eq!(
        unexpected_status_message("500 Internal Server Error", "creating branch", None),
        "Unexpected status code 500 Internal Server Error while creating branch; body could not be decoded as text"
    );
}
