//! The bodies of requests say what is asked for, under the names that GitHub knows it by, and
//! determine it.

use vstd::prelude::*;

use crate::github::endpoint::create_commit_json;
use crate::github::request::{
    CommitMessage, CommittableBranch, CreateBranch, CreateCommitOnBranch,
    CreateCommitOnBranchInput, DoesBranchExist, FileAddition, FileChanges, FileDeletion,
};
use crate::json::{Json, optional_text, render};
use crate::json_laws::law_text_determines_value;
use crate::json_lookup::{has_members, is_array, member_at, says};

verus! {

/// Whether two lists of changes name the same files, in the same order, with the same contents.
pub open spec fn same_changes(a: FileChanges, b: FileChanges) -> bool {
    &&& a.additions@.len() == b.additions@.len()
    &&& forall|i: int|
        0 <= i < a.additions@.len() ==> (#[trigger] a.additions@[i]).path@ == b.additions@[i].path@
            && a.additions@[i].contents@ == b.additions@[i].contents@
    &&& a.deletions@.len() == b.deletions@.len()
    &&& forall|i: int|
        0 <= i < a.deletions@.len() ==> (#[trigger] a.deletions@[i]).path@ == b.deletions@[i].path@
}

/// Whether two commits are the same: the same branch, parent, message and changes.
pub open spec fn same_input(a: CreateCommitOnBranchInput, b: CreateCommitOnBranchInput) -> bool {
    &&& a.branch.repository_name_with_owner@ == b.branch.repository_name_with_owner@
    &&& a.branch.branch_name@ == b.branch.branch_name@
    &&& optional_text(a.client_mutation_id) == optional_text(b.client_mutation_id)
    &&& a.expected_head_oid@ == b.expected_head_oid@
    &&& match (a.file_changes, b.file_changes) {
        (Some(x), Some(y)) => same_changes(x, y),
        (None, None) => true,
        _ => false,
    }
    &&& optional_text(a.message.body) == optional_text(b.message.body)
    &&& a.message.headline@ == b.message.headline@
}

/// Changes with the same JSON value are the same.
proof fn lemma_json_determines_changes(a: FileChanges, b: FileChanges)
    requires
        a.json() == b.json(),
    ensures
        same_changes(a, b),
{
    let x = a.json()->Object_0;
    let y = b.json()->Object_0;
    assert(x[0] == y[0] && x[1] == y[1]);
    let additions_a = a.additions@.map_values(|file: FileAddition| file.json());
    let additions_b = b.additions@.map_values(|file: FileAddition| file.json());
    let deletions_a = a.deletions@.map_values(|file: FileDeletion| file.json());
    let deletions_b = b.deletions@.map_values(|file: FileDeletion| file.json());
    assert(x[0].1 == Json::Array(additions_a) && y[0].1 == Json::Array(additions_b));
    assert(x[1].1 == Json::Array(deletions_a) && y[1].1 == Json::Array(deletions_b));
    assert(additions_a.len() == additions_b.len());
    assert(deletions_a.len() == deletions_b.len());
    assert forall|i: int| 0 <= i < a.additions@.len() implies (#[trigger] a.additions@[i]).path@
        == b.additions@[i].path@ && a.additions@[i].contents@ == b.additions@[i].contents@ by {
        assert(additions_a[i] == a.additions@[i].json());
        assert(additions_b[i] == b.additions@[i].json());
        let p = a.additions@[i].json()->Object_0;
        let q = b.additions@[i].json()->Object_0;
        assert(p[0] == q[0] && p[1] == q[1]);
    }
    assert forall|i: int| 0 <= i < a.deletions@.len() implies (#[trigger] a.deletions@[i]).path@
        == b.deletions@[i].path@ by {
        assert(deletions_a[i] == a.deletions@[i].json());
        assert(deletions_b[i] == b.deletions@[i].json());
        let p = a.deletions@[i].json()->Object_0;
        let q = b.deletions@[i].json()->Object_0;
        assert(p[0] == q[0]);
    }
}

/// The text of a request for a commit determines the commit.
pub proof fn law_commit_text_determines_commit(
    a: CreateCommitOnBranchInput,
    b: CreateCommitOnBranchInput,
)
    requires
        render(create_commit_json(a)) == render(create_commit_json(b)),
    ensures
        same_input(a, b),
{
    law_text_determines_value(create_commit_json(a), create_commit_json(b));
    let x = create_commit_json(a)->Object_0;
    let y = create_commit_json(b)->Object_0;
    assert(x[1] == y[1]);
    assert(x[1].1->Object_0[0] == y[1].1->Object_0[0]);
    let p = a.json()->Object_0;
    let q = b.json()->Object_0;
    assert(p[0] == q[0] && p[1] == q[1] && p[2] == q[2] && p[3] == q[3] && p[4] == q[4]);
    let branch_a = a.branch.json()->Object_0;
    let branch_b = b.branch.json()->Object_0;
    assert(branch_a[0] == branch_b[0] && branch_a[1] == branch_b[1]);
    let message_a = a.message.json()->Object_0;
    let message_b = b.message.json()->Object_0;
    assert(message_a[0] == message_b[0] && message_a[1] == message_b[1]);
    match (a.file_changes, b.file_changes) {
        (Some(changes_a), Some(changes_b)) => {
            lemma_json_determines_changes(changes_a, changes_b);
        },
        _ => {},
    }
}

/// Whether a value says what is given: a text where there is one, else `null`.
pub open spec fn text_or_null(value: Json, text: Option<String>) -> bool {
    match text {
        Some(text) => value == Json::Text(text@),
        None => value == Json::Null,
    }
}

/// A new reference is called `ref`, and what it points to `sha`.
pub proof fn law_new_reference_says(body: CreateBranch<'_>)
    ensures
        says(body.json(), "ref"@, Json::Text(body.reference@)),
        says(body.json(), "sha"@, Json::Text(body.sha@)),
        has_members(body.json(), 2),
{
    reveal_strlit("ref");
    reveal_strlit("sha");
    assert("ref"@[0] == 'r' && "sha"@[0] == 's');
    let members = body.json()->Object_0;
    assert(member_at(members, 0, "ref"@, Json::Text(body.reference@)));
    assert(member_at(members, 1, "sha"@, Json::Text(body.sha@)));
}

/// A mutation goes by `query`, as every GraphQL document does, and its variables by `variables`;
/// the only variable is `input`.
pub proof fn law_mutation_says(body: CreateCommitOnBranch)
    ensures
        says(body.json(), "query"@, Json::Text(body.query@)),
        says(body.json(), "variables"@, body.variables.json()),
        has_members(body.json(), 2),
        says(body.variables.json(), "input"@, body.variables.input.json()),
        has_members(body.variables.json(), 1),
{
    reveal_strlit("query");
    reveal_strlit("variables");
    assert("query"@.len() != "variables"@.len());
    let members = body.json()->Object_0;
    assert(member_at(members, 0, "query"@, Json::Text(body.query@)));
    assert(member_at(members, 1, "variables"@, body.variables.json()));
    let variables = body.variables.json()->Object_0;
    assert(member_at(variables, 0, "input"@, body.variables.input.json()));
}

/// A query goes by `query` and its variables by `variables`: the owner and the name of the
/// repository, and the name of the branch.
pub proof fn law_query_says(body: DoesBranchExist<'_>)
    ensures
        says(body.json(), "query"@, Json::Text(body.query@)),
        says(body.json(), "variables"@, body.variables.json()),
        has_members(body.json(), 2),
        says(body.variables.json(), "owner"@, Json::Text(body.variables.owner@)),
        says(body.variables.json(), "repoName"@, Json::Text(body.variables.repo_name@)),
        says(body.variables.json(), "branchName"@, Json::Text(body.variables.branch_name@)),
        has_members(body.variables.json(), 3),
{
    reveal_strlit("query");
    reveal_strlit("variables");
    assert("query"@.len() != "variables"@.len());
    let members = body.json()->Object_0;
    assert(member_at(members, 0, "query"@, Json::Text(body.query@)));
    assert(member_at(members, 1, "variables"@, body.variables.json()));
    reveal_strlit("owner");
    reveal_strlit("repoName");
    reveal_strlit("branchName");
    assert("owner"@.len() == 5 && "repoName"@.len() == 8 && "branchName"@.len() == 10);
    let variables = body.variables.json()->Object_0;
    assert(member_at(variables, 0, "owner"@, Json::Text(body.variables.owner@)));
    assert(member_at(variables, 1, "repoName"@, Json::Text(body.variables.repo_name@)));
    assert(member_at(variables, 2, "branchName"@, Json::Text(body.variables.branch_name@)));
}

/// A branch is named by its repository, with the owner, and its own name.
pub proof fn law_branch_says(branch: CommittableBranch)
    ensures
        says(
            branch.json(),
            "repositoryNameWithOwner"@,
            Json::Text(branch.repository_name_with_owner@),
        ),
        says(branch.json(), "branchName"@, Json::Text(branch.branch_name@)),
        has_members(branch.json(), 2),
{
    reveal_strlit("repositoryNameWithOwner");
    reveal_strlit("branchName");
    assert("repositoryNameWithOwner"@[0] == 'r' && "branchName"@[0] == 'b');
    let members = branch.json()->Object_0;
    assert(member_at(
        members,
        0,
        "repositoryNameWithOwner"@,
        Json::Text(branch.repository_name_with_owner@),
    ));
    assert(member_at(members, 1, "branchName"@, Json::Text(branch.branch_name@)));
}

/// A message has a headline and, unless it is `null`, a body.
pub proof fn law_message_says(message: CommitMessage)
    ensures
        says(message.json(), "headline"@, Json::Text(message.headline@)),
        exists|body: Json| #[trigger]
            says(message.json(), "body"@, body) && text_or_null(body, message.body),
        has_members(message.json(), 2),
{
    reveal_strlit("headline");
    reveal_strlit("body");
    assert("headline"@.len() != "body"@.len());
    let members = message.json()->Object_0;
    let body = members[0].1;
    assert(member_at(members, 1, "headline"@, Json::Text(message.headline@)));
    assert(member_at(members, 0, "body"@, body));
    assert(says(message.json(), "body"@, body) && text_or_null(body, message.body));
}

/// A file that is added, or changed, is given by its path and its contents.
pub proof fn law_addition_says(file: FileAddition)
    ensures
        says(file.json(), "path"@, Json::Text(file.path@)),
        says(file.json(), "contents"@, Json::Text(file.contents@)),
        has_members(file.json(), 2),
{
    reveal_strlit("path");
    reveal_strlit("contents");
    assert("path"@.len() != "contents"@.len());
    let members = file.json()->Object_0;
    assert(member_at(members, 0, "path"@, Json::Text(file.path@)));
    assert(member_at(members, 1, "contents"@, Json::Text(file.contents@)));
}

/// A file that is deleted is given by its path.
pub proof fn law_deletion_says(file: FileDeletion)
    ensures
        says(file.json(), "path"@, Json::Text(file.path@)),
        has_members(file.json(), 1),
{
    let members = file.json()->Object_0;
    assert(member_at(members, 0, "path"@, Json::Text(file.path@)));
}

/// Whether a value is an array of the given additions, each with its path and its contents.
pub open spec fn lists_additions(value: Json, files: Seq<FileAddition>) -> bool {
    &&& is_array(value, files.len())
    &&& forall|i: int|
        0 <= i < files.len() ==> {
            let item = #[trigger] value->Array_0[i];
            &&& says(item, "path"@, Json::Text(files[i].path@))
            &&& says(item, "contents"@, Json::Text(files[i].contents@))
            &&& has_members(item, 2)
        }
}

/// Whether a value is an array of the given deletions, each with its path.
pub open spec fn lists_deletions(value: Json, files: Seq<FileDeletion>) -> bool {
    &&& is_array(value, files.len())
    &&& forall|i: int|
        0 <= i < files.len() ==> {
            let item = #[trigger] value->Array_0[i];
            &&& says(item, "path"@, Json::Text(files[i].path@))
            &&& has_members(item, 1)
        }
}

/// What is added is listed under `additions`, with its contents, and what is deleted under
/// `deletions`, each in the order given, however many there are of either.
pub proof fn law_changes_say(changes: FileChanges)
    ensures
        exists|additions: Json| #[trigger]
            says(changes.json(), "additions"@, additions) && lists_additions(
                additions,
                changes.additions@,
            ),
        exists|deletions: Json| #[trigger]
            says(changes.json(), "deletions"@, deletions) && lists_deletions(
                deletions,
                changes.deletions@,
            ),
        has_members(changes.json(), 2),
{
    reveal_strlit("additions");
    reveal_strlit("deletions");
    assert("additions"@[0] == 'a' && "deletions"@[0] == 'd');
    let members = changes.json()->Object_0;
    let additions = members[0].1;
    let deletions = members[1].1;
    assert forall|i: int| 0 <= i < changes.additions@.len() implies {
        let item = #[trigger] additions->Array_0[i];
        &&& says(item, "path"@, Json::Text(changes.additions@[i].path@))
        &&& says(item, "contents"@, Json::Text(changes.additions@[i].contents@))
        &&& has_members(item, 2)
    } by {
        law_addition_says(changes.additions@[i]);
    }
    assert forall|i: int| 0 <= i < changes.deletions@.len() implies {
        let item = #[trigger] deletions->Array_0[i];
        &&& says(item, "path"@, Json::Text(changes.deletions@[i].path@))
        &&& has_members(item, 1)
    } by {
        law_deletion_says(changes.deletions@[i]);
    }
    assert(member_at(members, 0, "additions"@, additions));
    assert(member_at(members, 1, "deletions"@, deletions));
    assert(says(changes.json(), "additions"@, additions));
    assert(says(changes.json(), "deletions"@, deletions));
}

/// The input of the mutation says which branch is committed to, what its head is expected to be,
/// what changes and with which message. An identifier that is not given and changes that are
/// not given are `null`.
pub proof fn law_input_says(input: CreateCommitOnBranchInput)
    ensures
        says(input.json(), "branch"@, input.branch.json()),
        exists|id: Json| #[trigger]
            says(input.json(), "clientMutationId"@, id) && text_or_null(
                id,
                input.client_mutation_id,
            ),
        says(input.json(), "expectedHeadOid"@, Json::Text(input.expected_head_oid@)),
        says(
            input.json(),
            "fileChanges"@,
            match input.file_changes {
                Some(changes) => changes.json(),
                None => Json::Null,
            },
        ),
        says(input.json(), "message"@, input.message.json()),
        has_members(input.json(), 5),
{
    reveal_strlit("branch");
    reveal_strlit("clientMutationId");
    reveal_strlit("expectedHeadOid");
    reveal_strlit("fileChanges");
    reveal_strlit("message");
    assert("branch"@.len() == 6 && "clientMutationId"@.len() == 16 && "expectedHeadOid"@.len() == 15
        && "fileChanges"@.len() == 11 && "message"@.len() == 7);
    let members = input.json()->Object_0;
    let id = members[1].1;
    assert(member_at(members, 0, "branch"@, input.branch.json()));
    assert(member_at(members, 1, "clientMutationId"@, id));
    assert(member_at(members, 2, "expectedHeadOid"@, Json::Text(input.expected_head_oid@)));
    assert(member_at(
        members,
        3,
        "fileChanges"@,
        match input.file_changes {
            Some(changes) => changes.json(),
            None => Json::Null,
        },
    ));
    assert(member_at(members, 4, "message"@, input.message.json()));
    assert(says(input.json(), "clientMutationId"@, id));
}

} // verus!
