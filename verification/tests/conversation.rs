use ghommit::config::Config;
use ghommit::github::conversation::{Action, Conversation, DataError, Event};
use ghommit::github::request::{
    CommitMessage, CommittableBranch, CreateCommitOnBranchInput, FileAddition, FileChanges,
    FileDeletion,
};
use ghommit::github::response;
use ghommit::github::GitHubClient;
use ghommit::status::Status;
use jsonwebtoken::EncodingKey;
use reqwest::header::HeaderMap;

const CHECK_BODY: &str = "{\"query\":\"\\n            query ($owner: String!, $repoName: String!, $branchName: String!) {\\n                repository(owner: $owner, name: $repoName) {\\n                    ref(qualifiedName: $branchName) {\\n                        name\\n                    }\\n                }\\n            }\\n        \",\"variables\":{\"owner\":\"octo\",\"repoName\":\"cat\",\"branchName\":\"topic/x\"}}";

const CREATE_BODY: &str = "{\"ref\":\"refs/heads/topic/x\",\"sha\":\"c0ffee\"}";

const COMMIT_BODY: &str = "{\"query\":\"\\n            mutation ($input: CreateCommitOnBranchInput!) {\\n                createCommitOnBranch(input: $input) {\\n                    commit {\\n                        url\\n                    }\\n                }\\n            }\\n        \",\"variables\":{\"input\":{\"branch\":{\"repositoryNameWithOwner\":\"octo/cat\",\"branchName\":\"topic/x\"},\"clientMutationId\":null,\"expectedHeadOid\":\"c0ffee\",\"fileChanges\":{\"additions\":[{\"path\":\"a\",\"contents\":\"QQ==\"},{\"path\":\"b\",\"contents\":\"Qg==\"}],\"deletions\":[{\"path\":\"c\"}]},\"message\":{\"body\":\"more\",\"headline\":\"less\"}}}}";

const TOKEN_URL: &str = "https://api.github.com/app/installations/42/access_tokens";
const REFS_URL: &str = "https://api.github.com/repos/octo/cat/git/refs";
const GRAPHQL_URL: &str = "https://api.github.com/graphql";

fn config() -> Config {
    Config {
        git_branch_name: "topic/x".to_owned(),
        git_head_object_id: "c0ffee".to_owned(),
        github_repo_name: "cat".to_owned(),
        github_repo_owner: "octo".to_owned(),
    }
}

fn input() -> CreateCommitOnBranchInput {
    CreateCommitOnBranchInput {
        branch: CommittableBranch {
            repository_name_with_owner: "octo/cat".to_owned(),
            branch_name: "topic/x".to_owned(),
        },
        client_mutation_id: None,
        expected_head_oid: "c0ffee".to_owned(),
        file_changes: Some(FileChanges {
            additions: vec![
                FileAddition { path: "a".to_owned(), contents: "QQ==".to_owned() },
                FileAddition { path: "b".to_owned(), contents: "Qg==".to_owned() },
            ],
            deletions: vec![FileDeletion { path: "c".to_owned() }],
        }),
        message: CommitMessage { body: Some("more".to_owned()), headline: "less".to_owned() },
    }
}

fn start(config: &Config) -> (Conversation<'_>, Action) {
    let key = EncodingKey::from_secret(b"unused");
    let client = GitHubClient {
        github_app_id: 7,
        github_app_installation_id: 42,
        github_app_private_key: &key,
    };
    client.create_commit_on_branch(config, input())
}

fn status(code: u16) -> Status {
    Status::from_u16(code).unwrap()
}

fn access_token(token: &str) -> Event {
    Event::AccessToken(Ok(response::GitHubAccessToken { token: token.to_owned() }))
}

fn branch(found: bool) -> response::DoesBranchExist {
    response::DoesBranchExist {
        data: response::DoesBranchExistData {
            repository: response::DoesBranchExistRepository {
                reference: if found {
                    Some(response::DoesBranchExistName { name: "topic/x".to_owned() })
                } else {
                    None
                },
            },
        },
    }
}

fn commit(url: &str) -> response::CreateCommitOnBranch {
    response::CreateCommitOnBranch {
        data: response::CreateCommitOnBranchData {
            create_commit_on_branch: response::CreateCommitOnBranchCreateCommitOnBranch {
                commit: response::CreateCommitOnBranchCommit { url: url.to_owned() },
            },
        },
    }
}

fn data_error() -> DataError {
    DataError { expected: "T".to_owned(), reason: "bad".to_owned() }
}

fn next(conversation: &mut Conversation, event: Event) -> Action {
    conversation.step(event).unwrap()
}

fn assert_build(action: Action) {
    match action {
        Action::BuildClient { timeout_seconds } => assert_eq!(timeout_seconds, 60),
        _ => panic!("a client should be built"),
    }
}

fn assert_post(action: Action, expected_url: &str, rest: bool, token: &str, body: Option<&str>) {
    match action {
        Action::Post { url, headers, json } => {
            assert_eq!(url, expected_url);
            assert_headers(&headers, rest, token);
            assert_eq!(json.as_deref(), body);
        }
        _ => panic!("a request should be posted"),
    }
}

fn assert_headers(headers: &HeaderMap, rest: bool, token: &str) {
    let authorization = format!("Bearer {}", token);
    assert_eq!(headers.get("authorization").unwrap(), authorization.as_str());
    assert_eq!(headers.get("x-github-api-version").is_some(), rest);
}

fn assert_error(action: Action, message: &str) {
    match action {
        Action::Finish(outcome) => assert_eq!(outcome.unwrap_err(), message),
        _ => panic!("the conversation should be over"),
    }
}

/// Leads a conversation up to the answer to the request for an access token.
fn up_to_token_reply(conversation: &mut Conversation, jwt: &str) {
    assert_build(next(conversation, Event::Client(Ok(()))));
    assert!(matches!(next(conversation, Event::Client(Ok(()))), Action::MakeJwt));
    let action = next(conversation, Event::Jwt(Ok(jwt.to_owned())));
    assert_post(action, TOKEN_URL, true, jwt, None);
}

/// Leads a conversation up to its stage's request, which is returned.
fn up_to_request(conversation: &mut Conversation, jwt: &str, token: &str) -> Action {
    up_to_token_reply(conversation, jwt);
    let action = next(conversation, Event::Reply(Ok(status(201))));
    assert!(matches!(action, Action::ReadAccessToken));
    next(conversation, access_token(token))
}

/// Leads a conversation up to the data of a GraphQL answer.
fn up_to_data(conversation: &mut Conversation, code: u16, body: &str) -> Action {
    let action = next(conversation, Event::Reply(Ok(status(code))));
    assert!(matches!(action, Action::ReadText));
    next(conversation, Event::Text(Ok(body.to_owned())))
}

#[test]
fn commit_on_an_existing_branch() {
    let config = config();
    let (mut conversation, first) = start(&config);
    assert_build(first);

    let action = up_to_request(&mut conversation, "j1", "t1");
    assert_post(action, GRAPHQL_URL, false, "t1", Some(CHECK_BODY));
    match up_to_data(&mut conversation, 200, "{1}") {
        Action::DecodeBranchData { text } => assert_eq!(text, "{1}"),
        _ => panic!("the branch should be looked for"),
    }
    assert_build(next(&mut conversation, Event::BranchData(Ok(branch(true)))));

    let action = up_to_request(&mut conversation, "j2", "t2");
    assert_post(action, GRAPHQL_URL, false, "t2", Some(COMMIT_BODY));
    // - The status of a GraphQL answer does not matter
    match up_to_data(&mut conversation, 502, "{2}") {
        Action::DecodeCommitData { text } => assert_eq!(text, "{2}"),
        _ => panic!("the commit should be looked for"),
    }
    match next(&mut conversation, Event::CommitData(Ok(commit("https://x/1")))) {
        Action::Finish(outcome) => assert_eq!(outcome.unwrap(), "https://x/1"),
        _ => panic!("the conversation should be over"),
    }
    assert!(conversation.step(Event::Client(Ok(()))).is_none());
}

#[test]
fn commit_on_a_new_branch() {
    let config = config();
    let (mut conversation, _) = start(&config);

    up_to_request(&mut conversation, "j1", "t1");
    up_to_data(&mut conversation, 200, "");
    assert_build(next(&mut conversation, Event::BranchData(Ok(branch(false)))));

    let action = up_to_request(&mut conversation, "j2", "t2");
    assert_post(action, REFS_URL, true, "t2", Some(CREATE_BODY));
    assert_build(next(&mut conversation, Event::Reply(Ok(status(201)))));

    let action = up_to_request(&mut conversation, "j3", "t3");
    assert_post(action, GRAPHQL_URL, false, "t3", Some(COMMIT_BODY));
    up_to_data(&mut conversation, 200, "");
    match next(&mut conversation, Event::CommitData(Ok(commit("u")))) {
        Action::Finish(outcome) => assert_eq!(outcome.unwrap(), "u"),
        _ => panic!("the conversation should be over"),
    }
}

#[test]
fn longest_conversation_takes_22_events() {
    let request = |events: &mut Vec<Event>| {
        events.push(Event::Client(Ok(())));
        events.push(Event::Client(Ok(())));
        events.push(Event::Jwt(Ok("j".to_owned())));
        events.push(Event::Reply(Ok(status(201))));
        events.push(access_token("t"));
    };
    let mut events = Vec::new();
    request(&mut events);
    events.push(Event::Reply(Ok(status(200))));
    events.push(Event::Text(Ok(String::new())));
    events.push(Event::BranchData(Ok(branch(false))));
    request(&mut events);
    events.push(Event::Reply(Ok(status(201))));
    request(&mut events);
    events.push(Event::Reply(Ok(status(200))));
    events.push(Event::Text(Ok(String::new())));
    events.push(Event::CommitData(Ok(commit("u"))));
    assert_eq!(events.len(), 22);

    let config = config();
    let (mut conversation, mut action) = start(&config);
    let mut bodies = Vec::new();
    for event in events {
        assert!(!matches!(action, Action::Finish(_)));
        action = next(&mut conversation, event);
        if let Action::Post { json: Some(body), .. } = &action {
            bodies.push(body.clone());
        }
    }
    assert!(matches!(action, Action::Finish(Ok(_))));
    // - Each request is posted once, and the mutation last
    assert_eq!(bodies, vec![CHECK_BODY, CREATE_BODY, COMMIT_BODY]);
}

#[test]
fn branch_that_cannot_be_created() {
    let config = config();
    for (body, message) in [
        (Ok("gone".to_owned()), "Unexpected status code 422 Unprocessable Entity while creating branch: gone"),
        (Err("x".to_owned()), "Unexpected status code 422 Unprocessable Entity while creating branch; body could not be decoded as text"),
    ] {
        let (mut conversation, _) = start(&config);
        up_to_request(&mut conversation, "j", "t");
        up_to_data(&mut conversation, 200, "");
        next(&mut conversation, Event::BranchData(Ok(branch(false))));
        up_to_request(&mut conversation, "j", "t");
        let action = next(&mut conversation, Event::Reply(Ok(status(422))));
        assert!(matches!(action, Action::ReadText));
        assert_error(next(&mut conversation, Event::Text(body)), message);
    }
}

#[test]
fn clients_that_cannot_be_built() {
    let config = config();
    let (mut conversation, _) = start(&config);
    let action = next(&mut conversation, Event::Client(Err(())));
    assert_error(action, "Unable to create HTTP client");

    let (mut conversation, _) = start(&config);
    next(&mut conversation, Event::Client(Ok(())));
    let action = next(&mut conversation, Event::Client(Err(())));
    assert_error(action, "Unable to create HTTP client");
}

#[test]
fn jwt_that_cannot_be_used() {
    let config = config();
    for (jwt, message) in [
        (Err("Unable to create JWT: no".to_owned()), "Unable to create JWT: no"),
        (Ok("a\nb".to_owned()), "Unable to create header value with JWT string"),
    ] {
        let (mut conversation, _) = start(&config);
        next(&mut conversation, Event::Client(Ok(())));
        next(&mut conversation, Event::Client(Ok(())));
        assert_error(next(&mut conversation, Event::Jwt(jwt)), message);
    }
}

#[test]
fn access_token_that_is_refused() {
    let config = config();
    for (body, message) in [
        (Ok("bad key".to_owned()), "Unexpected status code 401 Unauthorized while acquiring access token: bad key"),
        (Err("x".to_owned()), "Unexpected status code 401 Unauthorized while acquiring access token; body could not be decoded as text"),
    ] {
        let (mut conversation, _) = start(&config);
        up_to_token_reply(&mut conversation, "j");
        let action = next(&mut conversation, Event::Reply(Ok(status(401))));
        assert!(matches!(action, Action::ReadText));
        assert_error(next(&mut conversation, Event::Text(body)), message);
    }
}

#[test]
fn access_token_that_cannot_be_used() {
    let config = config();
    let (mut conversation, _) = start(&config);
    up_to_token_reply(&mut conversation, "j");
    next(&mut conversation, Event::Reply(Ok(status(201))));
    let action = next(&mut conversation, Event::AccessToken(Err(())));
    assert_error(action, "Unable to deserialize access token");

    let (mut conversation, _) = start(&config);
    let action = up_to_request(&mut conversation, "j", "\u{7f}");
    assert_error(action, "Unable to create header value with JWT string");
}

#[test]
fn requests_without_an_answer() {
    let config = config();
    let (mut conversation, _) = start(&config);
    up_to_token_reply(&mut conversation, "j");
    let action = next(&mut conversation, Event::Reply(Err("timeout".to_owned())));
    assert_error(action, "Request failed: timeout");

    let (mut conversation, _) = start(&config);
    up_to_request(&mut conversation, "j", "t");
    let action = next(&mut conversation, Event::Reply(Err("reset".to_owned())));
    assert_error(action, "Request failed: reset");
}

#[test]
fn graphql_answers_that_make_no_sense() {
    let config = config();
    let (mut conversation, _) = start(&config);
    up_to_request(&mut conversation, "j", "t");
    next(&mut conversation, Event::Reply(Ok(status(200))));
    let action = next(&mut conversation, Event::Text(Err("cut".to_owned())));
    assert_error(action, "Error occurred while reading GraphQL response body as text: cut");

    let (mut conversation, _) = start(&config);
    up_to_request(&mut conversation, "j", "t");
    up_to_data(&mut conversation, 200, "<>");
    let action = next(&mut conversation, Event::BranchData(Err(data_error())));
    assert_error(action, "Error occurred while deserializing GraphQL response to T: bad: <>");

    let (mut conversation, _) = start(&config);
    up_to_request(&mut conversation, "j", "t");
    up_to_data(&mut conversation, 200, "");
    next(&mut conversation, Event::BranchData(Ok(branch(true))));
    up_to_request(&mut conversation, "j", "t");
    up_to_data(&mut conversation, 200, "[]");
    let action = next(&mut conversation, Event::CommitData(Err(data_error())));
    assert_error(action, "Error occurred while deserializing GraphQL response to T: bad: []");
}

#[test]
fn events_that_answer_nothing() {
    let config = config();
    let (mut conversation, _) = start(&config);

    assert!(conversation.step(Event::Jwt(Ok("j".to_owned()))).is_none());
    assert!(conversation.step(Event::Reply(Ok(status(201)))).is_none());
    assert!(conversation.step(access_token("t")).is_none());
    assert!(conversation.step(Event::Text(Ok(String::new()))).is_none());
    assert!(conversation.step(Event::BranchData(Ok(branch(true)))).is_none());
    assert!(conversation.step(Event::CommitData(Ok(commit("u")))).is_none());
    up_to_request(&mut conversation, "j", "t");
    up_to_data(&mut conversation, 200, "");
    assert!(conversation.step(Event::CommitData(Ok(commit("u")))).is_none());
    assert_build(next(&mut conversation, Event::BranchData(Ok(branch(true)))));
}
