//! What holds of every conversation with GitHub.

use vstd::prelude::*;

use crate::github::conversation::{
    ActionView, Event, Job, PhaseView, Progress, Stage, begin, next, stage_api, stage_body,
    stage_url,
};
use crate::github::endpoint::{
    CREATE_COMMIT_MUTATION, DOES_BRANCH_EXIST_QUERY, access_token_url, create_branch_json,
    create_commit_json, does_branch_exist_json,
};
use crate::github::request;
use crate::headers::{GitHubApiType, base_entries};
use crate::json::{Json, render};
use crate::json_laws::law_text_determines_value;

verus! {

/// Whether an event is what an action leads to.
pub open spec fn answers(action: ActionView, event: Event) -> bool {
    match action {
        ActionView::BuildClient { .. } => event is Client,
        ActionView::MakeJwt => event is Jwt,
        ActionView::Post { .. } => event is Reply,
        ActionView::ReadAccessToken => event is AccessToken,
        ActionView::ReadText => event is Text,
        ActionView::DecodeBranchData { .. } => event is BranchData,
        ActionView::DecodeCommitData { .. } => event is CommitData,
        ActionView::Finish(_) => false,
    }
}

/// A conversation takes up what its last action leads to, whatever comes of it, and nothing
/// else: it never gets stuck before it is over, and once it is over it takes up nothing more.
pub proof fn law_takes_up_answers_only(job: Job, at: Progress, event: Event, answer: Event)
    requires
        next(job, at, event) is Some,
    ensures
        ({
            let (after, action) = next(job, at, event)->0;
            next(job, after, answer) is Some <==> answers(action, answer)
        }),
{
}

/// What a conversation takes up first is what its first action leads to.
pub proof fn law_takes_up_first_answer_only(job: Job, answer: Event)
    ensures
        ({
            let (at, action) = begin(Stage::CheckBranch);
            next(job, at, answer) is Some <==> answers(action, answer)
        }),
{
}

/// Whether an event reports that something went wrong.
pub open spec fn failed(event: Event) -> bool {
    match event {
        Event::Client(r) => r is Err,
        Event::Jwt(r) => r is Err,
        Event::Reply(r) => r is Err,
        Event::AccessToken(r) => r is Err,
        Event::Text(r) => r is Err,
        Event::BranchData(r) => r is Err,
        Event::CommitData(r) => r is Err,
    }
}

/// The first failure ends a conversation, with an error.
pub proof fn law_failure_ends_conversation(job: Job, at: Progress, event: Event)
    requires
        next(job, at, event) is Some,
        failed(event),
    ensures
        ({
            let (after, action) = next(job, at, event)->0;
            after.phase is Over && action matches ActionView::Finish(Err(_))
        }),
{
}

/// A conversation ends well exactly when GitHub has described the new commit, and then with the
/// URL of that commit.
pub proof fn law_success_is_the_commit_url(job: Job, at: Progress, event: Event, url: Seq<char>)
    ensures
        (next(job, at, event) matches Some((_, ActionView::Finish(Ok(u)))) && u == url) <==> (
        at.stage == Stage::Commit && at.phase is Data
            && (event matches Event::CommitData(Ok(data)) && data.url() == url)),
{
}

/// Every request is authorized by the token that has just been obtained for it: the request for
/// an access token by a JSON web token, any other by an access token.
pub proof fn law_requests_are_authorized(job: Job, at: Progress, event: Event)
    requires
        next(job, at, event) matches Some((_, ActionView::Post { .. })),
    ensures
        next(job, at, event) matches Some((_, ActionView::Post { url, headers, json })) && ({
            ||| event matches Event::Jwt(Ok(jwt)) && {
                &&& url == access_token_url(job.github_app_installation_id)
                &&& headers == base_entries(GitHubApiType::REST, jwt@)
                &&& json is None
            }
            ||| event matches Event::AccessToken(Ok(answer)) && {
                &&& url == stage_url(job, at.stage)
                &&& headers == base_entries(stage_api(at.stage), answer.token@)
                &&& json == Some(stage_body(job, at.stage))
            }
        }),
{
}

/// Where a sequence of events takes a conversation from its beginning, if it takes all of them
/// up.
pub open spec fn run(job: Job, events: Seq<Event>) -> Option<Progress>
    decreases events.len(),
{
    if events.len() == 0 {
        Some(begin(Stage::CheckBranch).0)
    } else {
        match run(job, events.drop_last()) {
            Some(at) => match next(job, at, events.last()) {
                Some((after, _)) => Some(after),
                None => None,
            },
            None => None,
        }
    }
}

/// Whether GitHub said, with the event at the given place, that the branch does not exist.
pub open spec fn branch_is_absent(job: Job, events: Seq<Event>, i: int) -> bool {
    &&& 0 <= i < events.len()
    &&& run(job, events.take(i)) matches Some(at)
    &&& at.stage == Stage::CheckBranch && at.phase is Data
    &&& events[i] matches Event::BranchData(Ok(data)) && !data.found()
}

/// Whether GitHub said, with the event at the given place, that the branch exists, or that it
/// has been created.
pub open spec fn branch_is_there(job: Job, events: Seq<Event>, i: int) -> bool {
    &&& 0 <= i < events.len()
    &&& run(job, events.take(i)) matches Some(at)
    &&& {
        ||| {
            &&& at.stage == Stage::CheckBranch && at.phase is Data
            &&& events[i] matches Event::BranchData(Ok(data)) && data.found()
        }
        ||| {
            &&& at.stage == Stage::CreateBranch && at.phase is Reply
            &&& events[i] matches Event::Reply(Ok(status)) && status@ == 201
        }
    }
}

/// The phases that a stage can be in: creating a branch, no data is waited for.
pub open spec fn possible(at: Progress) -> bool {
    at.stage == Stage::CreateBranch ==> !(at.phase is Body) && !(at.phase is Data)
}

/// A conversation is only ever in the phases that its stage can be in.
pub proof fn law_phases_are_possible(job: Job, events: Seq<Event>)
    ensures
        run(job, events) matches Some(at) ==> possible(at),
    decreases events.len(),
{
    if events.len() > 0 {
        law_phases_are_possible(job, events.drop_last());
    }
}

/// A place in the events stays what it is when an event is added.
proof fn lemma_earlier_events(job: Job, events: Seq<Event>, i: int)
    requires
        events.len() > 0,
        0 <= i < events.len() - 1,
    ensures
        branch_is_absent(job, events.drop_last(), i) ==> branch_is_absent(job, events, i),
        branch_is_there(job, events.drop_last(), i) ==> branch_is_there(job, events, i),
{
    assert(events.drop_last().take(i) =~= events.take(i));
}

/// A branch is created only after GitHub has said that it does not exist.
pub proof fn law_only_absent_branch_is_created(job: Job, events: Seq<Event>)
    requires
        run(job, events) matches Some(at) && at.stage == Stage::CreateBranch,
    ensures
        exists|i: int| branch_is_absent(job, events, i),
    decreases events.len(),
{
    let before = events.drop_last();
    let last = events.len() - 1;
    assert(events.take(last) =~= before);
    law_phases_are_possible(job, before);
    if run(job, before)->0.stage == Stage::CreateBranch {
        law_only_absent_branch_is_created(job, before);
        let i = choose|i: int| branch_is_absent(job, before, i);
        lemma_earlier_events(job, events, i);
        assert(branch_is_absent(job, events, i));
    } else {
        assert(branch_is_absent(job, events, last));
    }
}

/// The commit is taken up only after GitHub has said that the branch exists, or that it has been
/// created.
pub proof fn law_commit_needs_branch(job: Job, events: Seq<Event>)
    requires
        run(job, events) matches Some(at) && at.stage == Stage::Commit,
    ensures
        exists|i: int| branch_is_there(job, events, i),
    decreases events.len(),
{
    let before = events.drop_last();
    let last = events.len() - 1;
    assert(events.take(last) =~= before);
    law_phases_are_possible(job, before);
    if run(job, before)->0.stage == Stage::Commit {
        law_commit_needs_branch(job, before);
        let i = choose|i: int| branch_is_there(job, before, i);
        lemma_earlier_events(job, events, i);
        assert(branch_is_there(job, events, i));
    } else {
        assert(branch_is_there(job, events, last));
    }
}

/// The mutation is posted only after GitHub has said that the branch exists, or that it has been
/// created: on a branch that does not exist it would fail.
pub proof fn law_mutation_needs_branch(
    job: Job,
    input: request::CreateCommitOnBranchInput,
    events: Seq<Event>,
    event: Event,
)
    requires
        job.payload.json() == create_commit_json(input),
        run(job, events) matches Some(at) && (next(job, at, event) matches Some(
            (_, ActionView::Post { json: Some(body), .. }),
        ) && body == render(create_commit_json(input))),
    ensures
        exists|i: int| branch_is_there(job, events, i),
{
    let at = run(job, events)->0;
    let mutation = create_commit_json(input);
    let query = does_branch_exist_json(*job.config);
    let creation = create_branch_json(*job.config);
    law_text_determines_value(mutation, query);
    law_text_determines_value(mutation, creation);
    assert(mutation->Object_0[0] == ("query"@, Json::Text(CREATE_COMMIT_MUTATION@)));
    assert(query->Object_0[0] == ("query"@, Json::Text(DOES_BRANCH_EXIST_QUERY@)));
    assert(creation->Object_0[0].0 == "ref"@);
    lemma_texts_differ();
    law_requests_are_authorized(job, at, event);
    assert(at.stage == Stage::Commit);
    law_commit_needs_branch(job, events);
}

/// The mutation is not the query, and `query` is not `ref`.
proof fn lemma_texts_differ()
    ensures
        CREATE_COMMIT_MUTATION@ != DOES_BRANCH_EXIST_QUERY@,
        "query"@ != "ref"@,
{
    reveal_strlit("query");
    reveal_strlit("ref");
    assert("query"@.len() != "ref"@.len());
    reveal_strlit(r#"
            query ($owner: String!, $repoName: String!, $branchName: String!) {
                repository(owner: $owner, name: $repoName) {
                    ref(qualifiedName: $branchName) {
                        name
                    }
                }
            }
        "#);
    reveal_strlit(r#"
            mutation ($input: CreateCommitOnBranchInput!) {
                createCommitOnBranch(input: $input) {
                    commit {
                        url
                    }
                }
            }
        "#);
    assert(CREATE_COMMIT_MUTATION@[13] == 'm');
    assert(DOES_BRANCH_EXIST_QUERY@[13] == 'q');
}

/// How many events a conversation can still take up.
pub open spec fn events_left(at: Progress) -> nat {
    let after_check: nat = 14;
    let after_creation: nat = 8;
    match at.phase {
        PhaseView::Over => 0,
        PhaseView::TokenErrorBody { .. } => 1,
        PhaseView::ErrorBody { .. } => 1,
        phase => match at.stage {
            Stage::CheckBranch => after_check + graphql_events_left(phase),
            Stage::CreateBranch => (after_creation + graphql_events_left(phase) - 2) as nat,
            Stage::Commit => graphql_events_left(phase),
        },
    }
}

/// How many events a GraphQL request can still take up.
pub open spec fn graphql_events_left(phase: PhaseView) -> nat {
    match phase {
        PhaseView::Client => 8,
        PhaseView::TokenClient => 7,
        PhaseView::Jwt => 6,
        PhaseView::TokenReply => 5,
        PhaseView::TokenBody => 4,
        PhaseView::Reply => 3,
        PhaseView::Body => 2,
        _ => 1,
    }
}

/// Every event brings a conversation closer to its end.
pub proof fn law_every_event_counts(job: Job, at: Progress, event: Event)
    requires
        possible(at),
        next(job, at, event) is Some,
    ensures
        ({
            let (after, _) = next(job, at, event)->0;
            events_left(after) < events_left(at)
        }),
{
}

/// Every conversation ends: it takes up at most 22 events.
pub proof fn law_conversation_ends(job: Job, events: Seq<Event>)
    requires
        run(job, events) is Some,
    ensures
        events.len() + events_left(run(job, events)->0) <= 22,
    decreases events.len(),
{
    if events.len() > 0 {
        let before = events.drop_last();
        law_conversation_ends(job, before);
        law_phases_are_possible(job, before);
        law_every_event_counts(job, run(job, before)->0, events.last());
    }
}

/// The events up to a place are taken up if those up to a later place are.
proof fn lemma_run_of_prefix(job: Job, events: Seq<Event>, i: int)
    requires
        run(job, events) is Some,
        0 <= i <= events.len(),
    ensures
        run(job, events.take(i)) is Some,
        i < events.len() ==> events_left(run(job, events)->0) < events_left(
            run(job, events.take(i))->0,
        ),
    decreases events.len(),
{
    if i == events.len() {
        assert(events.take(i) =~= events);
    } else {
        let before = events.drop_last();
        lemma_run_of_prefix(job, before, i);
        assert(before.take(i) =~= events.take(i));
        law_phases_are_possible(job, before);
        law_every_event_counts(job, run(job, before)->0, events.last());
    }
}

/// A conversation is never twice at the same point.
pub proof fn law_never_twice_at_the_same_point(job: Job, events: Seq<Event>, i: int, j: int)
    requires
        run(job, events) is Some,
        0 <= i < j <= events.len(),
    ensures
        run(job, events.take(i)) is Some,
        run(job, events.take(j)) is Some,
        run(job, events.take(i)) != run(job, events.take(j)),
{
    lemma_run_of_prefix(job, events, j);
    lemma_run_of_prefix(job, events.take(j), i);
    assert(events.take(j).take(i) =~= events.take(i));
}

/// Whether the event at the given place makes the conversation post a stage's request.
pub open spec fn posts_request(job: Job, events: Seq<Event>, stage: Stage, i: int) -> bool {
    &&& 0 <= i < events.len()
    &&& run(job, events.take(i)) matches Some(at)
    &&& at.stage == stage
    &&& next(job, at, events[i]) matches Some((after, ActionView::Post { .. }))
    &&& after.phase is Reply
}

/// No stage posts its request twice. In particular a conversation makes one commit at most.
pub proof fn law_no_request_is_posted_twice(
    job: Job,
    events: Seq<Event>,
    stage: Stage,
    i: int,
    j: int,
)
    requires
        run(job, events) is Some,
        posts_request(job, events, stage, i),
        posts_request(job, events, stage, j),
    ensures
        i == j,
{
    if i < j {
        law_never_twice_at_the_same_point(job, events, i, j);
    } else if j < i {
        law_never_twice_at_the_same_point(job, events, j, i);
    }
}

} // verus!
