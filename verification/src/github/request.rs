//! Bodies of requests.

use vstd::prelude::*;

use crate::json::{Json, JsonText, optional_text};

verus! {

// > CreateBranch

#[derive(Debug)]
pub struct CreateBranch<'a> {
    pub reference: &'a str,
    pub sha: &'a str,
}

impl CreateBranch<'_> {
    /// An object with the reference and the object that it points to.
    pub open spec fn json(&self) -> Json {
        Json::Object(
            seq![("ref"@, Json::Text(self.reference@)), ("sha"@, Json::Text(self.sha@))],
        )
    }

    /// The body as JSON.
    pub fn to_json(&self) -> (json: JsonText)
        ensures
            json@ == self.json(),
    {
        let members = vec![
            ("ref", JsonText::string(self.reference)),
            ("sha", JsonText::string(self.sha)),
        ];
        let json = JsonText::object(members);
        assert(json@->Object_0 =~= self.json()->Object_0);
        json
    }
}

// > CreateCommitOnBranch

pub struct CreateCommitOnBranch {
    pub query: String,
    pub variables: CreateCommitOnBranchVariables,
}

impl CreateCommitOnBranch {
    /// A GraphQL request: the query and its variables.
    pub open spec fn json(&self) -> Json {
        Json::Object(
            seq![("query"@, Json::Text(self.query@)), ("variables"@, self.variables.json())],
        )
    }

    /// The body as JSON.
    pub fn to_json(&self) -> (json: JsonText)
        ensures
            json@ == self.json(),
    {
        let members = vec![
            ("query", JsonText::string(self.query.as_str())),
            ("variables", self.variables.to_json()),
        ];
        let json = JsonText::object(members);
        assert(json@->Object_0 =~= self.json()->Object_0);
        json
    }
}

pub struct CreateCommitOnBranchVariables {
    pub input: CreateCommitOnBranchInput,
}

impl CreateCommitOnBranchVariables {
    /// An object with the mutation's input.
    pub open spec fn json(&self) -> Json {
        Json::Object(seq![("input"@, self.input.json())])
    }

    /// The variables as JSON.
    pub fn to_json(&self) -> (json: JsonText)
        ensures
            json@ == self.json(),
    {
        let members = vec![("input", self.input.to_json())];
        let json = JsonText::object(members);
        assert(json@->Object_0 =~= self.json()->Object_0);
        json
    }
}

/// https://docs.github.com/en/graphql/reference/input-objects#createcommitonbranchinput
pub struct CreateCommitOnBranchInput {
    pub branch: CommittableBranch,
    pub client_mutation_id: Option<String>,
    pub expected_head_oid: String,
    pub file_changes: Option<FileChanges>,
    pub message: CommitMessage,
}

impl CreateCommitOnBranchInput {
    /// An object with every field; what is absent is `null`.
    pub open spec fn json(&self) -> Json {
        Json::Object(
            seq![
                ("branch"@, self.branch.json()),
                ("clientMutationId"@, optional_text(self.client_mutation_id)),
                ("expectedHeadOid"@, Json::Text(self.expected_head_oid@)),
                (
                    "fileChanges"@,
                    match self.file_changes {
                        Some(changes) => changes.json(),
                        None => Json::Null,
                    },
                ),
                ("message"@, self.message.json()),
            ],
        )
    }

    /// The input as JSON.
    pub fn to_json(&self) -> (json: JsonText)
        ensures
            json@ == self.json(),
    {
        let file_changes = match &self.file_changes {
            Some(changes) => changes.to_json(),
            None => JsonText::null(),
        };
        let members = vec![
            ("branch", self.branch.to_json()),
            ("clientMutationId", JsonText::optional_string(&self.client_mutation_id)),
            ("expectedHeadOid", JsonText::string(self.expected_head_oid.as_str())),
            ("fileChanges", file_changes),
            ("message", self.message.to_json()),
        ];
        let json = JsonText::object(members);
        assert(json@->Object_0 =~= self.json()->Object_0);
        json
    }
}

/// https://docs.github.com/en/graphql/reference/input-objects#commitmessage
pub struct CommitMessage {
    pub body: Option<String>,
    pub headline: String,
}

impl CommitMessage {
    /// An object with the body, or `null`, and the headline.
    pub open spec fn json(&self) -> Json {
        Json::Object(
            seq![("body"@, optional_text(self.body)), ("headline"@, Json::Text(self.headline@))],
        )
    }

    /// The message as JSON.
    pub fn to_json(&self) -> (json: JsonText)
        ensures
            json@ == self.json(),
    {
        let members = vec![
            ("body", JsonText::optional_string(&self.body)),
            ("headline", JsonText::string(self.headline.as_str())),
        ];
        let json = JsonText::object(members);
        assert(json@->Object_0 =~= self.json()->Object_0);
        json
    }
}

/// There is a second representation for this, but this implementation ignores
/// it.
///
/// https://docs.github.com/en/graphql/reference/input-objects#committablebranch
pub struct CommittableBranch {
    pub repository_name_with_owner: String,
    pub branch_name: String,
}

impl CommittableBranch {
    /// An object with the repository and the branch.
    pub open spec fn json(&self) -> Json {
        Json::Object(
            seq![
                ("repositoryNameWithOwner"@, Json::Text(self.repository_name_with_owner@)),
                ("branchName"@, Json::Text(self.branch_name@)),
            ],
        )
    }

    /// The branch as JSON.
    pub fn to_json(&self) -> (json: JsonText)
        ensures
            json@ == self.json(),
    {
        let members = vec![
            (
                "repositoryNameWithOwner",
                JsonText::string(self.repository_name_with_owner.as_str()),
            ),
            ("branchName", JsonText::string(self.branch_name.as_str())),
        ];
        let json = JsonText::object(members);
        assert(json@->Object_0 =~= self.json()->Object_0);
        json
    }
}

/// https://docs.github.com/en/graphql/reference/input-objects#filechanges
#[derive(Debug)]
pub struct FileChanges {
    pub additions: Vec<FileAddition>,
    pub deletions: Vec<FileDeletion>,
}

impl FileChanges {
    /// An object with the additions and the deletions, each in their order.
    pub open spec fn json(&self) -> Json {
        Json::Object(
            seq![
                (
                    "additions"@,
                    Json::Array(self.additions@.map_values(|file: FileAddition| file.json())),
                ),
                (
                    "deletions"@,
                    Json::Array(self.deletions@.map_values(|file: FileDeletion| file.json())),
                ),
            ],
        )
    }

    /// The changes as JSON.
    pub fn to_json(&self) -> (json: JsonText)
        ensures
            json@ == self.json(),
    {
        let mut additions: Vec<JsonText> = Vec::new();
        let mut i: usize = 0;
        while i < self.additions.len()
            invariant
                i <= self.additions.len(),
                additions.len() == i,
                forall|j: int|
                    0 <= j < i ==> (#[trigger] additions@[j])@ == self.additions@[j].json(),
            decreases self.additions.len() - i,
        {
            additions.push(self.additions[i].to_json());
            i = i + 1;
        }
        let mut deletions: Vec<JsonText> = Vec::new();
        let mut k: usize = 0;
        while k < self.deletions.len()
            invariant
                k <= self.deletions.len(),
                deletions.len() == k,
                forall|j: int|
                    0 <= j < k ==> (#[trigger] deletions@[j])@ == self.deletions@[j].json(),
            decreases self.deletions.len() - k,
        {
            deletions.push(self.deletions[k].to_json());
            k = k + 1;
        }
        proof {
            assert(additions@.map_values(|item: JsonText| item@) =~= self.additions@.map_values(
                |file: FileAddition| file.json(),
            ));
            assert(deletions@.map_values(|item: JsonText| item@) =~= self.deletions@.map_values(
                |file: FileDeletion| file.json(),
            ));
        }
        let members = vec![
            ("additions", JsonText::array(additions)),
            ("deletions", JsonText::array(deletions)),
        ];
        let json = JsonText::object(members);
        assert(json@->Object_0 =~= self.json()->Object_0);
        json
    }
}

/// https://docs.github.com/en/graphql/reference/input-objects#fileaddition
#[derive(Debug)]
pub struct FileAddition {
    pub path: String,
    pub contents: String,
}

impl FileAddition {
    /// An object with the path and the contents.
    pub open spec fn json(&self) -> Json {
        Json::Object(
            seq![("path"@, Json::Text(self.path@)), ("contents"@, Json::Text(self.contents@))],
        )
    }

    /// The addition as JSON.
    pub fn to_json(&self) -> (json: JsonText)
        ensures
            json@ == self.json(),
    {
        let members = vec![
            ("path", JsonText::string(self.path.as_str())),
            ("contents", JsonText::string(self.contents.as_str())),
        ];
        let json = JsonText::object(members);
        assert(json@->Object_0 =~= self.json()->Object_0);
        json
    }
}

/// https://docs.github.com/en/graphql/reference/input-objects#filedeletion
#[derive(Debug)]
pub struct FileDeletion {
    pub path: String,
}

impl FileDeletion {
    /// An object with the path.
    pub open spec fn json(&self) -> Json {
        Json::Object(seq![("path"@, Json::Text(self.path@))])
    }

    /// The deletion as JSON.
    pub fn to_json(&self) -> (json: JsonText)
        ensures
            json@ == self.json(),
    {
        let members = vec![("path", JsonText::string(self.path.as_str()))];
        let json = JsonText::object(members);
        assert(json@->Object_0 =~= self.json()->Object_0);
        json
    }
}

// > DoesBranchExist

#[derive(Debug)]
pub struct DoesBranchExist<'a> {
    pub query: &'a str,
    pub variables: DoesBranchExistVariables<'a>,
}

impl DoesBranchExist<'_> {
    /// A GraphQL request: the query and its variables.
    pub open spec fn json(&self) -> Json {
        Json::Object(
            seq![("query"@, Json::Text(self.query@)), ("variables"@, self.variables.json())],
        )
    }

    /// The body as JSON.
    pub fn to_json(&self) -> (json: JsonText)
        ensures
            json@ == self.json(),
    {
        let members = vec![
            ("query", JsonText::string(self.query)),
            ("variables", self.variables.to_json()),
        ];
        let json = JsonText::object(members);
        assert(json@->Object_0 =~= self.json()->Object_0);
        json
    }
}

#[derive(Debug)]
pub struct DoesBranchExistVariables<'a> {
    pub owner: &'a str,
    pub repo_name: &'a str,
    pub branch_name: &'a str,
}

impl DoesBranchExistVariables<'_> {
    /// An object with the repository's owner and name and the branch.
    pub open spec fn json(&self) -> Json {
        Json::Object(
            seq![
                ("owner"@, Json::Text(self.owner@)),
                ("repoName"@, Json::Text(self.repo_name@)),
                ("branchName"@, Json::Text(self.branch_name@)),
            ],
        )
    }

    /// The variables as JSON.
    pub fn to_json(&self) -> (json: JsonText)
        ensures
            json@ == self.json(),
    {
        let members = vec![
            ("owner", JsonText::string(self.owner)),
            ("repoName", JsonText::string(self.repo_name)),
            ("branchName", JsonText::string(self.branch_name)),
        ];
        let json = JsonText::object(members);
        assert(json@->Object_0 =~= self.json()->Object_0);
        json
    }
}

} // verus!
