//! Where requests go, and what they ask for there.

use vstd::prelude::*;

use crate::config::Config;
use crate::github::endpoint::{
    CREATE_COMMIT_MUTATION, DEFAULT_TIMEOUT_SECONDS, DOES_BRANCH_EXIST_QUERY, GRAPHQL_URL,
    REST_API_BASE_URL, access_token_url, create_branch_json, create_commit_json,
    does_branch_exist_json, refs_url,
};
use crate::github::request::CreateCommitOnBranchInput;
use crate::json::{Json, render};
use crate::json_laws::law_text_determines_value;
use crate::json_lookup::{has_members, law_says_one_thing, member_at, says};
use crate::text::decimal;
use crate::text_laws::{is_number, is_shortest, law_decimal_reads_back, number_read};

verus! {

/// A request may take a minute, and GraphQL has one endpoint.
pub proof fn law_defaults()
    ensures
        DEFAULT_TIMEOUT_SECONDS == 60,
        GRAPHQL_URL@ == "https://api.github.com/graphql"@,
        REST_API_BASE_URL@ == "https://api.github.com"@,
{
}

/// The base URL and what comes after it, in one.
proof fn lemma_base_url()
    ensures
        REST_API_BASE_URL@ + "/app/installations/"@ == "https://api.github.com/app/installations/"@,
        REST_API_BASE_URL@ + "/repos/"@ == "https://api.github.com/repos/"@,
{
    reveal_strlit("https://api.github.com");
    reveal_strlit("/app/installations/");
    reveal_strlit("https://api.github.com/app/installations/");
    reveal_strlit("/repos/");
    reveal_strlit("https://api.github.com/repos/");
    assert(REST_API_BASE_URL@ + "/app/installations/"@
        =~= "https://api.github.com/app/installations/"@);
    assert(REST_API_BASE_URL@ + "/repos/"@ =~= "https://api.github.com/repos/"@);
}

/// The URL for an installation's access tokens holds a number that reads back as the
/// installation's.
pub proof fn law_access_token_url_names_installation(id: u64)
    ensures
        exists|number: Seq<char>|
            {
                &&& access_token_url(id) == "https://api.github.com/app/installations/"@ + number
                    + "/access_tokens"@
                &&& is_number(number, 10)
                &&& is_shortest(number)
                &&& #[trigger] number_read(number, 10) == id
            },
{
    lemma_base_url();
    law_decimal_reads_back(id as nat);
    let number = decimal(id as nat);
    assert(access_token_url(id) =~= "https://api.github.com/app/installations/"@ + number
        + "/access_tokens"@);
    assert(number_read(number, 10) == id);
}

/// Different installations have different URLs.
pub proof fn law_access_token_url_determines_installation(a: u64, b: u64)
    requires
        access_token_url(a) == access_token_url(b),
    ensures
        a == b,
{
    let start = REST_API_BASE_URL@ + "/app/installations/"@;
    let end = "/access_tokens"@;
    let x = decimal(a as nat);
    let y = decimal(b as nat);
    assert(access_token_url(a) =~= start + x + end);
    assert(access_token_url(b) =~= start + y + end);
    assert((start + x + end).len() == (start + y + end).len());
    assert(x =~= (start + x + end).subrange(start.len() as int, (start.len() + x.len()) as int));
    assert(y =~= (start + y + end).subrange(start.len() as int, (start.len() + y.len()) as int));
    law_decimal_reads_back(a as nat);
    law_decimal_reads_back(b as nat);
}

/// The URL for a repository's references goes through the owner and then the name of the
/// repository, whatever they are.
pub proof fn law_refs_url_names_repository(config: Config)
    ensures
        ("https://api.github.com/repos/"@ + config.github_repo_owner@ + "/"@).is_prefix_of(
            refs_url(config),
        ),
        ("/"@ + config.github_repo_name@ + "/git/refs"@).is_suffix_of(refs_url(config)),
        refs_url(config) == "https://api.github.com/repos/"@ + config.github_repo_owner@ + "/"@
            + config.github_repo_name@ + "/git/refs"@,
{
    lemma_base_url();
    let url = refs_url(config);
    let start = "https://api.github.com/repos/"@ + config.github_repo_owner@ + "/"@;
    let end = "/"@ + config.github_repo_name@ + "/git/refs"@;
    assert(url =~= start + config.github_repo_name@ + "/git/refs"@);
    assert(start =~= url.take(start.len() as int));
    assert(end =~= url.skip(url.len() - end.len()));
}

/// The query for a branch names its repository, by owner and name, and the branch.
pub proof fn law_query_names_branch(config: Config)
    ensures
        says(does_branch_exist_json(config), "query"@, Json::Text(DOES_BRANCH_EXIST_QUERY@)),
        exists|variables: Json|
            {
                &&& #[trigger] says(does_branch_exist_json(config), "variables"@, variables)
                &&& says(variables, "owner"@, Json::Text(config.github_repo_owner@))
                &&& says(variables, "repoName"@, Json::Text(config.github_repo_name@))
                &&& says(variables, "branchName"@, Json::Text(config.git_branch_name@))
                &&& has_members(variables, 3)
            },
        has_members(does_branch_exist_json(config), 2),
{
    reveal_strlit("query");
    reveal_strlit("variables");
    reveal_strlit("owner");
    reveal_strlit("repoName");
    reveal_strlit("branchName");
    assert("query"@.len() == 5 && "variables"@.len() == 9);
    assert("owner"@.len() == 5 && "repoName"@.len() == 8 && "branchName"@.len() == 10);
    let members = does_branch_exist_json(config)->Object_0;
    let variables = members[1].1;
    assert(member_at(members, 0, "query"@, Json::Text(DOES_BRANCH_EXIST_QUERY@)));
    assert(member_at(members, 1, "variables"@, variables));
    let inner = variables->Object_0;
    assert(member_at(inner, 0, "owner"@, Json::Text(config.github_repo_owner@)));
    assert(member_at(inner, 1, "repoName"@, Json::Text(config.github_repo_name@)));
    assert(member_at(inner, 2, "branchName"@, Json::Text(config.git_branch_name@)));
    assert(says(does_branch_exist_json(config), "variables"@, variables));
}

/// A branch is created under its name, as a head, and at the configured commit.
pub proof fn law_new_branch_has_its_name(config: Config)
    ensures
        says(
            create_branch_json(config),
            "ref"@,
            Json::Text("refs/heads/"@ + config.git_branch_name@),
        ),
        says(create_branch_json(config), "sha"@, Json::Text(config.git_head_object_id@)),
        has_members(create_branch_json(config), 2),
{
    reveal_strlit("ref");
    reveal_strlit("sha");
    assert("ref"@[0] == 'r' && "sha"@[0] == 's');
    let members = create_branch_json(config)->Object_0;
    let reference = "refs/heads/"@ + config.git_branch_name@;
    assert(member_at(members, 0, "ref"@, Json::Text(reference)));
    assert(member_at(members, 1, "sha"@, Json::Text(config.git_head_object_id@)));
}

/// The text of a request for a branch determines the branch and the commit that it starts from.
pub proof fn law_new_branch_text_determines_branch(a: Config, b: Config)
    requires
        render(create_branch_json(a)) == render(create_branch_json(b)),
    ensures
        a.git_branch_name@ == b.git_branch_name@,
        a.git_head_object_id@ == b.git_head_object_id@,
{
    law_text_determines_value(create_branch_json(a), create_branch_json(b));
    law_new_branch_has_its_name(a);
    law_new_branch_has_its_name(b);
    let x = "refs/heads/"@ + a.git_branch_name@;
    let y = "refs/heads/"@ + b.git_branch_name@;
    law_says_one_thing(create_branch_json(a), "ref"@, Json::Text(x), Json::Text(y));
    law_says_one_thing(
        create_branch_json(a),
        "sha"@,
        Json::Text(a.git_head_object_id@),
        Json::Text(b.git_head_object_id@),
    );
    assert(a.git_branch_name@ =~= x.skip("refs/heads/"@.len() as int));
    assert(b.git_branch_name@ =~= y.skip("refs/heads/"@.len() as int));
}

/// The text of a query for a branch determines the repository and the branch.
pub proof fn law_query_text_determines_branch(a: Config, b: Config)
    requires
        render(does_branch_exist_json(a)) == render(does_branch_exist_json(b)),
    ensures
        a.github_repo_owner@ == b.github_repo_owner@,
        a.github_repo_name@ == b.github_repo_name@,
        a.git_branch_name@ == b.git_branch_name@,
{
    law_text_determines_value(does_branch_exist_json(a), does_branch_exist_json(b));
    let x = does_branch_exist_json(a)->Object_0;
    let y = does_branch_exist_json(b)->Object_0;
    assert(x[1] == y[1]);
    let p = x[1].1->Object_0;
    let q = y[1].1->Object_0;
    assert(p[0] == q[0] && p[1] == q[1] && p[2] == q[2]);
}

/// The mutation has the commit as its one variable, `input`.
pub proof fn law_mutation_has_the_commit_as_input(input: CreateCommitOnBranchInput)
    ensures
        says(create_commit_json(input), "query"@, Json::Text(CREATE_COMMIT_MUTATION@)),
        exists|variables: Json|
            {
                &&& #[trigger] says(create_commit_json(input), "variables"@, variables)
                &&& says(variables, "input"@, input.json())
                &&& has_members(variables, 1)
            },
        has_members(create_commit_json(input), 2),
{
    reveal_strlit("query");
    reveal_strlit("variables");
    assert("query"@.len() == 5 && "variables"@.len() == 9);
    let members = create_commit_json(input)->Object_0;
    let variables = members[1].1;
    assert(member_at(members, 0, "query"@, Json::Text(CREATE_COMMIT_MUTATION@)));
    assert(member_at(members, 1, "variables"@, variables));
    assert(member_at(variables->Object_0, 0, "input"@, input.json()));
    assert(says(create_commit_json(input), "variables"@, variables));
}

} // verus!
