use ghommit::github::endpoint::{
    access_token_url_text, create_commit_payload, http_timeout_seconds,
};
use ghommit::github::request::{
    CommitMessage, CommittableBranch, CreateBranch, CreateCommitOnBranchInput, FileChanges,
};
use ghommit::github::response::{
    DoesBranchExist, DoesBranchExistData, DoesBranchExistName, DoesBranchExistRepository,
};

fn input(headline: &str) -> CreateCommitOnBranchInput {
    CreateCommitOnBranchInput {
        branch: CommittableBranch {
            repository_name_with_owner: "o/r".to_owned(),
            branch_name: "b".to_owned(),
        },
        client_mutation_id: Some("id".to_owned()),
        expected_head_oid: "0".to_owned(),
        file_changes: None,
        message: CommitMessage { body: None, headline: headline.to_owned() },
    }
}

#[test]
fn timeouts() {
    assert_eq!(http_timeout_seconds(None), 60);
    assert_eq!(http_timeout_seconds(Some(0)), 0);
    assert_eq!(http_timeout_seconds(Some(5)), 5);
}

#[test]
fn access_token_urls() {
    assert_eq!(
        access_token_url_text(u64::MAX),
        "https://api.github.com/app/installations/18446744073709551615/access_tokens"
    );
}

#[test]
fn what_is_absent_is_null() {
    assert_eq!(
        input("h").to_json().into_string(),
        "{\"branch\":{\"repositoryNameWithOwner\":\"o/r\",\"branchName\":\"b\"},\"clientMutationId\":\"id\",\"expectedHeadOid\":\"0\",\"fileChanges\":null,\"message\":{\"body\":null,\"headline\":\"h\"}}"
    );
}

#[test]
fn no_changes() {
    let changes = FileChanges { additions: Vec::new(), deletions: Vec::new() };

    assert_eq!(changes.to_json().into_string(), "{\"additions\":[],\"deletions\":[]}");
}

#[test]
fn different_commits_have_different_bodies() {
    let body = |headline: &str| create_commit_payload(input(headline)).to_json().into_string();

    assert_eq!(body("h"), body("h"));
    assert_ne!(body("h"), body("g"));
}

#[test]
fn reference_is_called_ref() {
    let payload = CreateBranch { reference: "refs/heads/b", sha: "0" };

    assert_eq!(payload.to_json().into_string(), "{\"ref\":\"refs/heads/b\",\"sha\":\"0\"}");
}

#[test]
fn branch_exists_if_there_is_a_reference() {
    let answer = |reference| DoesBranchExist {
        data: DoesBranchExistData { repository: DoesBranchExistRepository { reference } },
    };

    assert!(answer(Some(DoesBranchExistName { name: "b".to_owned() })).branch_exists());
    assert!(!answer(None).branch_exists());
}
