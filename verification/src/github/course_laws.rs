//! What each event leads to in a conversation with GitHub.

use vstd::prelude::*;
use vstd::utf8::encode_utf8;

use crate::github::conversation::{
    Action, ActionView, DataError, Event, Job, Phase, PhaseView, Progress, Stage, begin, next,
};
use crate::github::endpoint::{create_branch_json, does_branch_exist_json};
use crate::github::endpoint_laws::{
    law_access_token_url_names_installation, law_defaults, law_refs_url_names_repository,
};
use crate::github::response;
use crate::headers::{
    GitHubApiType, allowed_in_header, base_entries, header_entries, law_headers_are_spelled_out,
    law_headers_of_a_request, law_token_fits_unless_it_has_controls,
};
use crate::json::render;
use crate::status::{Status, status_text};
use crate::text_laws::{is_number, is_shortest, number_read};

verus! {

/// Where a conversation is that waits for the given thing at the given stage.
pub open spec fn waits(stage: Stage, phase: PhaseView) -> Progress {
    Progress { stage, phase }
}

/// Whether a conversation ends here with the given outcome.
pub open spec fn ends_with(
    turn: Option<(Progress, ActionView)>,
    stage: Stage,
    outcome: Result<Seq<char>, Seq<char>>,
) -> bool {
    turn == Some((waits(stage, PhaseView::Over), ActionView::Finish(outcome)))
}

/// Whether the conversation turns to a stage's request, from its beginning.
pub open spec fn turns_to(turn: Option<(Progress, ActionView)>, stage: Stage) -> bool {
    turn == Some((waits(stage, PhaseView::Client), ActionView::BuildClient { timeout_seconds: 60 }))
}

/// Where a turn leads.
pub open spec fn reached(turn: Option<(Progress, ActionView)>) -> Progress {
    turn.unwrap().0
}

/// Whether a token has no control characters but tabs.
pub open spec fn usable(token: Seq<char>) -> bool {
    forall|i: int| 0 <= i < token.len() ==> allowed_in_header(#[trigger] token[i])
}

/// Whether headers are those of a request that the given token authorizes.
pub open spec fn authorized_by(headers: Map<Seq<char>, Seq<Seq<u8>>>, token: Seq<char>) -> bool {
    &&& headers.dom().contains("authorization"@)
    &&& headers["authorization"@] == seq![encode_utf8("Bearer "@ + token)]
    &&& headers.dom().contains("user-agent"@)
    &&& headers["user-agent"@] == seq![encode_utf8("ghommit"@)]
    &&& headers.dom().contains("accept"@)
}

/// Whether headers are those of a request to the REST API.
pub open spec fn for_rest(headers: Map<Seq<char>, Seq<Seq<u8>>>) -> bool {
    &&& headers["accept"@] == seq![encode_utf8("application/vnd.github+json"@)]
    &&& headers.dom().contains("x-github-api-version"@)
    &&& headers["x-github-api-version"@] == seq![encode_utf8("2022-11-28"@)]
    &&& headers.dom().len() == 4
}

/// Whether headers are those of a request to the GraphQL API.
pub open spec fn for_graphql(headers: Map<Seq<char>, Seq<Seq<u8>>>) -> bool {
    &&& headers["accept"@] == seq![encode_utf8("application/json"@)]
    &&& headers.dom().len() == 3
}

/// The headers of a request are authorized by its token and meant for its API.
pub proof fn law_headers_serve_their_request(api_type: GitHubApiType, token: Seq<char>)
    ensures
        authorized_by(base_entries(api_type, token), token),
        api_type is REST ==> for_rest(base_entries(api_type, token)),
        api_type is GraphQL ==> for_graphql(base_entries(api_type, token)),
{
    law_headers_of_a_request(api_type, token);
    law_headers_are_spelled_out(api_type, token);
    reveal_strlit("accept");
    reveal_strlit("authorization");
    reveal_strlit("user-agent");
    reveal_strlit("x-github-api-version");
    assert("accept"@.len() == 6 && "authorization"@.len() == 13 && "user-agent"@.len() == 10
        && "x-github-api-version"@.len() == 20);
    let three = Set::<Seq<char>>::empty().insert("accept"@).insert("authorization"@).insert(
        "user-agent"@,
    );
    assert(three.len() == 3);
    if api_type is REST {
        assert(base_entries(api_type, token).dom() =~= three.insert("x-github-api-version"@));
    } else {
        assert(base_entries(api_type, token).dom() =~= three);
    }
}

/// Two clients are built for a request, the second for that of its access token, and then the
/// token is made that authorizes the latter. A client that cannot be built ends the conversation.
pub proof fn law_after_client(job: Job, at: Progress, built: Result<(), ()>)
    ensures
        at.phase is Client && built is Ok ==> next(job, at, Event::Client(built)) == Some(
            (
                waits(at.stage, PhaseView::TokenClient),
                ActionView::BuildClient { timeout_seconds: 60 },
            ),
        ),
        at.phase is TokenClient && built is Ok ==> next(job, at, Event::Client(built)) == Some(
            (waits(at.stage, PhaseView::Jwt), ActionView::MakeJwt),
        ),
        (at.phase is Client || at.phase is TokenClient) && built is Err ==> ends_with(
            next(job, at, Event::Client(built)),
            at.stage,
            Err("Unable to create HTTP client"@),
        ),
        !(at.phase is Client || at.phase is TokenClient) ==> next(job, at, Event::Client(built))
            is None,
{
}

/// A JSON web token that has no control characters asks for the installation's access token, with
/// no body; one that has, or that could not be made, ends the conversation.
pub proof fn law_after_jwt(job: Job, at: Progress, jwt: Result<String, String>)
    ensures
        at.phase is Jwt ==> (jwt matches Ok(token) ==> usable(token@) ==> (next(
            job,
            at,
            Event::Jwt(jwt),
        ) matches Some((after, ActionView::Post { url, headers, json })) && {
            &&& after == waits(at.stage, PhaseView::TokenReply)
            &&& exists|number: Seq<char>|
                {
                    &&& url == "https://api.github.com/app/installations/"@ + number
                        + "/access_tokens"@
                    &&& is_number(number, 10)
                    &&& is_shortest(number)
                    &&& #[trigger] number_read(number, 10) == job.github_app_installation_id
                }
            &&& authorized_by(headers, token@)
            &&& for_rest(headers)
            &&& json is None
        })),
        at.phase is Jwt ==> (jwt matches Ok(token) ==> !usable(token@) ==> ends_with(
            next(job, at, Event::Jwt(jwt)),
            at.stage,
            Err("Unable to create header value with JWT string"@),
        )),
        at.phase is Jwt ==> (jwt matches Err(message) ==> ends_with(
            next(job, at, Event::Jwt(jwt)),
            at.stage,
            Err(message@),
        )),
        !(at.phase is Jwt) ==> next(job, at, Event::Jwt(jwt)) is None,
{
    law_access_token_url_names_installation(job.github_app_installation_id);
    if let Ok(token) = jwt {
        law_token_fits_unless_it_has_controls(token@);
        law_headers_are_spelled_out(GitHubApiType::REST, token@);
        law_headers_serve_their_request(GitHubApiType::REST, token@);
    }
}

/// An access token that has no control characters is used at once, for the request that it was
/// asked for: the query for the branch, its creation, or the commit. One that has, or that could
/// not be read, ends the conversation.
pub proof fn law_after_access_token(
    job: Job,
    at: Progress,
    answer: Result<response::GitHubAccessToken, ()>,
)
    ensures
        at.phase is TokenBody ==> (answer matches Ok(got) ==> usable(got.token@) ==> (next(
            job,
            at,
            Event::AccessToken(answer),
        ) matches Some((after, ActionView::Post { url, headers, json: Some(body) })) && {
            &&& after == waits(at.stage, PhaseView::Reply)
            &&& authorized_by(headers, got.token@)
            &&& match at.stage {
                Stage::CheckBranch => {
                    &&& url == "https://api.github.com/graphql"@
                    &&& for_graphql(headers)
                    &&& body == render(does_branch_exist_json(*job.config))
                },
                Stage::CreateBranch => {
                    &&& url == "https://api.github.com/repos/"@ + job.config.github_repo_owner@
                        + "/"@ + job.config.github_repo_name@ + "/git/refs"@
                    &&& for_rest(headers)
                    &&& body == render(create_branch_json(*job.config))
                },
                Stage::Commit => {
                    &&& url == "https://api.github.com/graphql"@
                    &&& for_graphql(headers)
                    &&& body == render(job.payload.json())
                },
            }
        })),
        at.phase is TokenBody ==> (answer matches Ok(got) ==> !usable(got.token@) ==> ends_with(
            next(job, at, Event::AccessToken(answer)),
            at.stage,
            Err("Unable to create header value with JWT string"@),
        )),
        at.phase is TokenBody && answer is Err ==> ends_with(
            next(job, at, Event::AccessToken(answer)),
            at.stage,
            Err("Unable to deserialize access token"@),
        ),
        !(at.phase is TokenBody) ==> next(job, at, Event::AccessToken(answer)) is None,
{
    law_defaults();
    law_refs_url_names_repository(*job.config);
    if let Ok(got) = answer {
        law_token_fits_unless_it_has_controls(got.token@);
        law_headers_are_spelled_out(GitHubApiType::REST, got.token@);
        law_headers_serve_their_request(GitHubApiType::REST, got.token@);
        law_headers_serve_their_request(GitHubApiType::GraphQL, got.token@);
    }
}

/// An answer with the status for something created holds the access token, or says that the
/// branch has been created, and then the commit is next; with any other status its text is read,
/// for the message. The answer to a GraphQL request is read whatever its status. No answer ends
/// the conversation.
pub proof fn law_after_reply(job: Job, at: Progress, reply: Result<Status, String>)
    ensures
        at.phase is TokenReply ==> (reply matches Ok(status) ==> next(job, at, Event::Reply(reply))
            == Some(
            if status@ == 201 {
                (waits(at.stage, PhaseView::TokenBody), ActionView::ReadAccessToken)
            } else {
                (
                    waits(at.stage, PhaseView::TokenErrorBody { status: status@ }),
                    ActionView::ReadText,
                )
            },
        )),
        at.phase is Reply && !(at.stage is CreateBranch) && reply is Ok ==> next(
            job,
            at,
            Event::Reply(reply),
        ) == Some((waits(at.stage, PhaseView::Body), ActionView::ReadText)),
        at.phase is Reply && at.stage is CreateBranch ==> (reply matches Ok(status) ==> status@
            == 201 ==> turns_to(next(job, at, Event::Reply(reply)), Stage::Commit)),
        at.phase is Reply && at.stage is CreateBranch ==> (reply matches Ok(status) ==> status@
            != 201 ==> next(job, at, Event::Reply(reply)) == Some(
            (
                waits(Stage::CreateBranch, PhaseView::ErrorBody { status: status@ }),
                ActionView::ReadText,
            ),
        )),
        at.phase is TokenReply || at.phase is Reply ==> (reply matches Err(reason) ==> ends_with(
            next(job, at, Event::Reply(reply)),
            at.stage,
            Err("Request failed: "@ + reason@),
        )),
        !(at.phase is TokenReply || at.phase is Reply) ==> next(job, at, Event::Reply(reply))
            is None,
{
}

/// The text of an answer to a GraphQL request is decoded as what was asked for. The text of an
/// answer with the wrong status ends the conversation, with a message that names the status and
/// what was tried, and quotes the text if it could be read.
pub proof fn law_after_text(job: Job, at: Progress, body: Result<String, String>)
    ensures
        at.phase is Body ==> (body matches Ok(text) ==> next(job, at, Event::Text(body)) == Some(
            (
                waits(at.stage, PhaseView::Data { text: text@ }),
                if at.stage is Commit {
                    ActionView::DecodeCommitData { text: text@ }
                } else {
                    ActionView::DecodeBranchData { text: text@ }
                },
            ),
        )),
        at.phase is Body ==> (body matches Err(reason) ==> ends_with(
            next(job, at, Event::Text(body)),
            at.stage,
            Err("Error occurred while reading GraphQL response body as text: "@ + reason@),
        )),
        at.phase matches PhaseView::TokenErrorBody { status } ==> ends_with(
            next(job, at, Event::Text(body)),
            at.stage,
            Err(
                "Unexpected status code "@ + status_text(status) + " while "@
                    + "acquiring access token"@ + (match body {
                    Ok(text) => ": "@ + text@,
                    Err(_) => "; body could not be decoded as text"@,
                }),
            ),
        ),
        at.phase matches PhaseView::ErrorBody { status } ==> ends_with(
            next(job, at, Event::Text(body)),
            at.stage,
            Err(
                "Unexpected status code "@ + status_text(status) + " while "@ + "creating branch"@
                    + (match body {
                    Ok(text) => ": "@ + text@,
                    Err(_) => "; body could not be decoded as text"@,
                }),
            ),
        ),
        !(at.phase is Body || at.phase is TokenErrorBody || at.phase is ErrorBody) ==> next(
            job,
            at,
            Event::Text(body),
        ) is None,
{
}

/// A branch that GitHub knows is committed to; one that it does not know is created first. This
/// depends on the answer's reference alone, not on the text that it was found in. An answer that
/// makes no sense ends the conversation, and is quoted.
pub proof fn law_after_branch_data(
    job: Job,
    text: Seq<char>,
    data: Result<response::DoesBranchExist, DataError>,
)
    ensures
        ({
            let turn = next(
                job,
                waits(Stage::CheckBranch, PhaseView::Data { text }),
                Event::BranchData(data),
            );
            match data {
                Ok(data) => match data.data.repository.reference {
                    Some(_) => turns_to(turn, Stage::Commit),
                    None => turns_to(turn, Stage::CreateBranch),
                },
                Err(error) => ends_with(
                    turn,
                    Stage::CheckBranch,
                    Err(
                        "Error occurred while deserializing GraphQL response to "@ + error.expected@
                            + ": "@ + error.reason@ + ": "@ + text,
                    ),
                ),
            }
        }),
        next(
            job,
            waits(Stage::Commit, PhaseView::Data { text }),
            Event::BranchData(data),
        ) is None,
{
}

/// Data about a branch is taken up by no conversation that does not wait for data.
pub proof fn law_branch_data_needs_a_question(
    job: Job,
    at: Progress,
    data: Result<response::DoesBranchExist, DataError>,
)
    requires
        !(at.phase is Data),
    ensures
        next(job, at, Event::BranchData(data)) is None,
{
}

/// The commit that GitHub describes ends the conversation with its URL, whatever the text that it
/// was found in. An answer that makes no sense ends it too, and is quoted.
pub proof fn law_after_commit_data(
    job: Job,
    text: Seq<char>,
    data: Result<response::CreateCommitOnBranch, DataError>,
)
    ensures
        ({
            let turn = next(
                job,
                waits(Stage::Commit, PhaseView::Data { text }),
                Event::CommitData(data),
            );
            match data {
                Ok(data) => ends_with(
                    turn,
                    Stage::Commit,
                    Ok(data.data.create_commit_on_branch.commit.url@),
                ),
                Err(error) => ends_with(
                    turn,
                    Stage::Commit,
                    Err(
                        "Error occurred while deserializing GraphQL response to "@ + error.expected@
                            + ": "@ + error.reason@ + ": "@ + text,
                    ),
                ),
            }
        }),
        next(
            job,
            waits(Stage::CheckBranch, PhaseView::Data { text }),
            Event::CommitData(data),
        ) is None,
{
}

/// Data about a commit is taken up by no conversation that does not wait for data.
pub proof fn law_commit_data_needs_a_question(
    job: Job,
    at: Progress,
    data: Result<response::CreateCommitOnBranch, DataError>,
)
    requires
        !(at.phase is Data),
    ensures
        next(job, at, Event::CommitData(data)) is None,
{
}

/// Whether an event is bad news: something failed, an answer had the wrong status, or a token
/// has control characters.
pub open spec fn bad_news(at: Progress, event: Event) -> bool {
    ||| event matches Event::Client(Err(_))
    ||| event matches Event::Reply(Err(_))
    ||| event matches Event::Text(Err(_))
    ||| event matches Event::BranchData(Err(_))
    ||| event matches Event::CommitData(Err(_))
    ||| event matches Event::AccessToken(Err(_))
    ||| event matches Event::Jwt(Err(_))
    ||| event matches Event::Jwt(Ok(token)) && !usable(token@)
    ||| event matches Event::AccessToken(Ok(got)) && !usable(got.token@)
    ||| at.phase is TokenErrorBody
    ||| at.phase is ErrorBody
}

/// Bad news ends a conversation with an error, and nothing else does.
pub proof fn law_only_bad_news_ends_in_an_error(job: Job, at: Progress, event: Event)
    requires
        next(job, at, event) is Some,
    ensures
        bad_news(at, event) <==> (next(job, at, event) matches Some(
            (_, ActionView::Finish(Err(_))),
        )),
{
    match event {
        Event::Jwt(Ok(token)) => {
            law_token_fits_unless_it_has_controls(token@);
        },
        Event::AccessToken(Ok(got)) => {
            law_token_fits_unless_it_has_controls(got.token@);
        },
        _ => {},
    }
}

/// If nothing goes wrong on the way, a stage comes to post its request: clients are built, a JSON
/// web token asks for an access token, and the access token authorizes the request.
pub proof fn law_stage_comes_to_its_request(
    job: Job,
    stage: Stage,
    jwt: String,
    created: Status,
    got: response::GitHubAccessToken,
)
    requires
        usable(jwt@),
        created@ == 201,
        usable(got.token@),
    ensures
        ({
            let built = Event::Client(Ok(()));
            let first = next(job, waits(stage, PhaseView::Client), built);
            let second = next(job, reached(first), built);
            let third = next(job, reached(second), Event::Jwt(Ok(jwt)));
            let fourth = next(job, reached(third), Event::Reply(Ok(created)));
            let fifth = next(job, reached(fourth), Event::AccessToken(Ok(got)));
            &&& first is Some && second is Some && third is Some && fourth is Some
            &&& third matches Some((_, ActionView::Post { .. }))
            &&& fifth matches Some((after, ActionView::Post { headers, .. }))
                && authorized_by(headers, got.token@) && after == waits(stage, PhaseView::Reply)
        }),
{
    let built: Result<(), ()> = Ok(());
    law_after_client(job, waits(stage, PhaseView::Client), built);
    law_after_client(job, waits(stage, PhaseView::TokenClient), built);
    law_after_jwt(job, waits(stage, PhaseView::Jwt), Ok(jwt));
    law_after_reply(job, waits(stage, PhaseView::TokenReply), Ok(created));
    law_after_access_token(job, waits(stage, PhaseView::TokenBody), Ok(got));
}

/// Once GitHub has answered the query, an existing branch is committed to and a missing one is
/// created and then committed to; the commit's URL is what comes out.
pub proof fn law_branch_is_there_before_the_commit(
    job: Job,
    answered: Status,
    text: String,
    found: response::DoesBranchExist,
    created: Status,
    other_text: String,
    commit: response::CreateCommitOnBranch,
)
    requires
        created@ == 201,
    ensures
        ({
            let reply = next(
                job,
                waits(Stage::CheckBranch, PhaseView::Reply),
                Event::Reply(Ok(answered)),
            );
            let read = next(job, reached(reply), Event::Text(Ok(text)));
            let turn = next(job, reached(read), Event::BranchData(Ok(found)));
            &&& reply is Some && read is Some
            &&& turns_to(
                turn,
                if found.data.repository.reference is Some {
                    Stage::Commit
                } else {
                    Stage::CreateBranch
                },
            )
        }),
        turns_to(
            next(
                job,
                waits(Stage::CreateBranch, PhaseView::Reply),
                Event::Reply(Ok(created)),
            ),
            Stage::Commit,
        ),
        ({
            let reply = next(
                job,
                waits(Stage::Commit, PhaseView::Reply),
                Event::Reply(Ok(answered)),
            );
            let read = next(job, reached(reply), Event::Text(Ok(other_text)));
            let turn = next(job, reached(read), Event::CommitData(Ok(commit)));
            &&& reply is Some && read is Some
            &&& ends_with(
                turn,
                Stage::Commit,
                Ok(commit.data.create_commit_on_branch.commit.url@),
            )
        }),
{
    law_after_reply(job, waits(Stage::CheckBranch, PhaseView::Reply), Ok(answered));
    law_after_text(job, waits(Stage::CheckBranch, PhaseView::Body), Ok(text));
    law_after_branch_data(job, text@, Ok(found));
    law_after_reply(job, waits(Stage::CreateBranch, PhaseView::Reply), Ok(created));
    law_after_reply(job, waits(Stage::Commit, PhaseView::Reply), Ok(answered));
    law_after_text(job, waits(Stage::Commit, PhaseView::Body), Ok(other_text));
    law_after_commit_data(job, other_text@, Ok(commit));
}

/// The view of an action leaves out nothing that can be seen of it.
pub proof fn law_action_is_what_it_shows(action: Action)
    ensures
        match action {
            Action::BuildClient { timeout_seconds } => action@ matches ActionView::BuildClient {
                timeout_seconds: t,
            } && t == timeout_seconds,
            Action::MakeJwt => action@ is MakeJwt,
            Action::Post { url, headers, json } => action@ matches ActionView::Post {
                url: u,
                headers: h,
                json: j,
            } && u == url@ && h == header_entries(headers) && (match json {
                Some(text) => j == Some(text@),
                None => j is None,
            }),
            Action::ReadAccessToken => action@ is ReadAccessToken,
            Action::ReadText => action@ is ReadText,
            Action::DecodeBranchData { text } => action@ matches ActionView::DecodeBranchData {
                text: t,
            } && t == text@,
            Action::DecodeCommitData { text } => action@ matches ActionView::DecodeCommitData {
                text: t,
            } && t == text@,
            Action::Finish(Ok(url)) => action@ matches ActionView::Finish(Ok(u)) && u == url@,
            Action::Finish(Err(message)) => action@ matches ActionView::Finish(Err(m)) && m
                == message@,
        },
{
}

/// The view of a phase tells the phases apart, and keeps the status and the text that they hold.
pub proof fn law_phase_is_what_it_shows(phase: Phase)
    ensures
        phase is Client <==> phase@ is Client,
        phase is TokenClient <==> phase@ is TokenClient,
        phase is Jwt <==> phase@ is Jwt,
        phase is TokenReply <==> phase@ is TokenReply,
        phase is TokenBody <==> phase@ is TokenBody,
        phase is Reply <==> phase@ is Reply,
        phase is Body <==> phase@ is Body,
        phase is Over <==> phase@ is Over,
        phase matches Phase::TokenErrorBody { status } ==> (phase@
            matches PhaseView::TokenErrorBody { status: s } && s == status@),
        phase matches Phase::ErrorBody { status } ==> (phase@ matches PhaseView::ErrorBody {
            status: s,
        } && s == status@),
        phase matches Phase::Data { text } ==> (phase@ matches PhaseView::Data { text: t } && t
            == text@),
{
}

/// Every stage begins with a client for its request, which may take a minute.
pub proof fn law_every_stage_begins_with_a_client(stage: Stage)
    ensures
        turns_to(Some(begin(stage)), stage),
{
}

} // verus!
