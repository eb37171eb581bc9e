//! What GitHub answers.

use vstd::prelude::*;

verus! {

// > CreateCommitOnBranch

#[derive(Debug)]
pub struct CreateCommitOnBranch {
    pub data: CreateCommitOnBranchData,
}

#[derive(Debug)]
pub struct CreateCommitOnBranchData {
    pub create_commit_on_branch: CreateCommitOnBranchCreateCommitOnBranch,
}

#[derive(Debug)]
pub struct CreateCommitOnBranchCreateCommitOnBranch {
    pub commit: CreateCommitOnBranchCommit,
}

#[derive(Debug)]
pub struct CreateCommitOnBranchCommit {
    pub url: String,
}

// > DoesBranchExist

#[derive(Debug)]
pub struct DoesBranchExist {
    pub data: DoesBranchExistData,
}

#[derive(Debug)]
pub struct DoesBranchExistData {
    pub repository: DoesBranchExistRepository,
}

#[derive(Debug)]
pub struct DoesBranchExistRepository {
    pub reference: Option<DoesBranchExistName>,
}

#[derive(Debug)]
pub struct DoesBranchExistName {
    pub name: String,
}

// > GetGitHubAccessToken

/// Abbreviated representation of the access token response body
/// https://docs.github.com/en/rest/apps/apps?apiVersion=2022-11-28#create-an-installation-access-token-for-an-app
#[derive(Debug)]
pub struct GitHubAccessToken {
    pub token: String,
}

impl DoesBranchExist {
    /// Whether the repository has the branch that was asked about.
    pub open spec fn found(&self) -> bool {
        self.data.repository.reference is Some
    }

    /// Whether the repository has the branch that was asked about.
    pub fn branch_exists(&self) -> (found: bool)
        ensures
            found == self.found(),
    {
        self.data.repository.reference.is_some()
    }
}

impl CreateCommitOnBranch {
    /// The URL of the new commit.
    pub open spec fn url(&self) -> Seq<char> {
        self.data.create_commit_on_branch.commit.url@
    }

    /// The URL of the new commit.
    pub fn into_url(self) -> (url: String)
        ensures
            url@ == self.url(),
    {
        self.data.create_commit_on_branch.commit.url
    }
}

} // verus!
