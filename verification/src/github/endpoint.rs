//! The endpoints that are called, and the bodies that are sent to them.

use vstd::prelude::*;

use crate::config::Config;
use crate::github::request;
use crate::json::{Json, render};
use crate::text::{decimal, decimal_text};

verus! {

pub const GRAPHQL_URL: &'static str = "https://api.github.com/graphql";

pub const REST_API_BASE_URL: &'static str = "https://api.github.com";

/// The query that asks for a branch by its name.
pub const DOES_BRANCH_EXIST_QUERY: &'static str = r#"
            query ($owner: String!, $repoName: String!, $branchName: String!) {
                repository(owner: $owner, name: $repoName) {
                    ref(qualifiedName: $branchName) {
                        name
                    }
                }
            }
        "#;

/// The mutation that makes a commit.
pub const CREATE_COMMIT_MUTATION: &'static str = r#"
            mutation ($input: CreateCommitOnBranchInput!) {
                createCommitOnBranch(input: $input) {
                    commit {
                        url
                    }
                }
            }
        "#;

/// How long a request may take if nothing else is asked for.
pub const DEFAULT_TIMEOUT_SECONDS: u64 = 60;

/// How long a request may take.
pub fn http_timeout_seconds(maybe_timeout_seconds: Option<u64>) -> (seconds: u64)
    ensures
        seconds == (match maybe_timeout_seconds {
            Some(seconds) => seconds,
            None => DEFAULT_TIMEOUT_SECONDS,
        }),
{
    match maybe_timeout_seconds {
        Some(seconds) => seconds,
        None => DEFAULT_TIMEOUT_SECONDS,
    }
}

/// Where an installation gets its access tokens.
pub open spec fn access_token_url(github_app_installation_id: u64) -> Seq<char> {
    REST_API_BASE_URL@ + "/app/installations/"@ + decimal(github_app_installation_id as nat)
        + "/access_tokens"@
}

/// Writes the URL where an installation gets its access tokens.
pub fn access_token_url_text(github_app_installation_id: u64) -> (url: String)
    ensures
        url@ == access_token_url(github_app_installation_id),
{
    let mut url = REST_API_BASE_URL.to_owned();
    url.append("/app/installations/");
    let id = decimal_text(github_app_installation_id as u128);
    url.append(id.as_str());
    url.append("/access_tokens");
    url
}

/// Where a repository's references are created.
pub open spec fn refs_url(config: Config) -> Seq<char> {
    REST_API_BASE_URL@ + "/repos/"@ + config.github_repo_owner@ + "/"@ + config.github_repo_name@
        + "/git/refs"@
}

/// Writes the URL where a repository's references are created.
pub fn refs_url_text(config: &Config) -> (url: String)
    ensures
        url@ == refs_url(*config),
{
    let mut url = REST_API_BASE_URL.to_owned();
    url.append("/repos/");
    url.append(config.github_repo_owner.as_str());
    url.append("/");
    url.append(config.github_repo_name.as_str());
    url.append("/git/refs");
    url
}

/// The body of the request that asks for the branch.
pub open spec fn does_branch_exist_json(config: Config) -> Json {
    Json::Object(
        seq![
            ("query"@, Json::Text(DOES_BRANCH_EXIST_QUERY@)),
            (
                "variables"@,
                Json::Object(
                    seq![
                        ("owner"@, Json::Text(config.github_repo_owner@)),
                        ("repoName"@, Json::Text(config.github_repo_name@)),
                        ("branchName"@, Json::Text(config.git_branch_name@)),
                    ],
                ),
            ),
        ],
    )
}

/// Writes the body of the request that asks for the branch.
pub fn does_branch_exist_body(config: &Config) -> (body: String)
    ensures
        body@ == render(does_branch_exist_json(*config)),
{
    let payload = request::DoesBranchExist {
        query: DOES_BRANCH_EXIST_QUERY,
        variables: request::DoesBranchExistVariables {
            owner: config.github_repo_owner.as_str(),
            repo_name: config.github_repo_name.as_str(),
            branch_name: config.git_branch_name.as_str(),
        },
    };
    payload.to_json().into_string()
}

/// The body of the request that creates the branch at the configured commit.
pub open spec fn create_branch_json(config: Config) -> Json {
    Json::Object(
        seq![
            ("ref"@, Json::Text("refs/heads/"@ + config.git_branch_name@)),
            ("sha"@, Json::Text(config.git_head_object_id@)),
        ],
    )
}

/// Writes the body of the request that creates the branch.
pub fn create_branch_body(config: &Config) -> (body: String)
    ensures
        body@ == render(create_branch_json(*config)),
{
    let mut reference = "refs/heads/".to_owned();
    reference.append(config.git_branch_name.as_str());
    let payload = request::CreateBranch {
        reference: reference.as_str(),
        sha: config.git_head_object_id.as_str(),
    };
    payload.to_json().into_string()
}

/// The body of the request that makes the commit.
pub open spec fn create_commit_json(input: request::CreateCommitOnBranchInput) -> Json {
    Json::Object(
        seq![
            ("query"@, Json::Text(CREATE_COMMIT_MUTATION@)),
            ("variables"@, Json::Object(seq![("input"@, input.json())])),
        ],
    )
}

/// The request that makes the commit.
pub fn create_commit_payload(input: request::CreateCommitOnBranchInput) -> (payload:
    request::CreateCommitOnBranch)
    ensures
        payload.json() == create_commit_json(input),
{
    request::CreateCommitOnBranch {
        query: CREATE_COMMIT_MUTATION.to_owned(),
        variables: request::CreateCommitOnBranchVariables { input },
    }
}

} // verus!
