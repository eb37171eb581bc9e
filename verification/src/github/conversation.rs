//! The conversation with GitHub that puts a commit on a branch.
//!
//! The conversation goes through up to three requests: whether the branch exists, the creation
//! of the branch if it does not, and the commit. Each of them needs an access token, which is
//! asked for just before with a JSON web token. A [`Conversation`] decides what is to be done
//! next; whoever leads it does that and tells it what came of it.

use vstd::prelude::*;

use reqwest::header::{HeaderMap, HeaderValue};

use crate::config::Config;
use crate::github::endpoint::{
    DEFAULT_TIMEOUT_SECONDS, GRAPHQL_URL, access_token_url, access_token_url_text,
    create_branch_body, create_branch_json, does_branch_exist_body, does_branch_exist_json,
    http_timeout_seconds, refs_url, refs_url_text,
};
use crate::github::request;
use crate::github::response;
use crate::headers::{
    GitHubApiType, base_entries, base_headers, fits_header, header_entries, token_message,
};
use crate::json::render;
use crate::status::{Status, status_text, unexpected_status, unexpected_status_message};
use crate::text::result_text;

verus! {

/// The request that the conversation is about to make or waits for.
#[derive(Debug, Clone, Copy, PartialEq, Eq, Structural)]
pub enum Stage {
    CheckBranch,
    CreateBranch,
    Commit,
}

/// What the conversation waits for.
#[derive(Debug)]
pub enum Phase {
    /// An HTTP client for the stage's request.
    Client,
    /// An HTTP client for the request for an access token.
    TokenClient,
    /// The JSON web token.
    Jwt,
    /// The answer to the request for an access token.
    TokenReply,
    /// The access token in that answer.
    TokenBody,
    /// The text of an answer that holds no access token.
    TokenErrorBody { status: Status },
    /// The answer to the stage's request.
    Reply,
    /// The text of that answer, to a GraphQL request.
    Body,
    /// The data in that text.
    Data { text: String },
    /// The text of an answer that did not create the branch.
    ErrorBody { status: Status },
    /// Nothing: the conversation is over.
    Over,
}

/// Why an answer could not be made sense of: the type that was expected and what is wrong.
#[derive(Debug)]
pub struct DataError {
    pub expected: String,
    pub reason: String,
}

/// What came of an action.
#[derive(Debug)]
pub enum Event {
    /// A client was built, or could not be.
    Client(Result<(), ()>),
    /// A JSON web token was made, or could not be, for the given reason.
    Jwt(Result<String, String>),
    /// An answer came, with the given status, or none did, for the given reason.
    Reply(Result<Status, String>),
    /// The answer held an access token, or did not.
    AccessToken(Result<response::GitHubAccessToken, ()>),
    /// The answer's body was read as text, or could not be, for the given reason.
    Text(Result<String, String>),
    /// The answer said whether the branch exists, or something else.
    BranchData(Result<response::DoesBranchExist, DataError>),
    /// The answer described the new commit, or something else.
    CommitData(Result<response::CreateCommitOnBranch, DataError>),
}

/// What is to be done next.
pub enum Action {
    /// Build an HTTP client.
    BuildClient { timeout_seconds: u64 },
    /// Make a JSON web token for the app. The app's client does so, and takes the conversation
    /// further with it, in [`authorize`](crate::github::GitHubClient::authorize).
    MakeJwt,
    /// Post a request. Each request uses up a client: the one that was built last of those that
    /// are left.
    Post { url: String, headers: HeaderMap<HeaderValue>, json: Option<String> },
    /// Read the access token out of the answer's body.
    ReadAccessToken,
    /// Read the answer's body as text.
    ReadText,
    /// Find out from a text whether the branch exists.
    DecodeBranchData { text: String },
    /// Find the new commit in a text.
    DecodeCommitData { text: String },
    /// Return: with the URL of the new commit, or with the reason why there is none.
    Finish(Result<String, String>),
}

/// A [`Phase`] without its representation.
pub enum PhaseView {
    Client,
    TokenClient,
    Jwt,
    TokenReply,
    TokenBody,
    TokenErrorBody { status: u16 },
    Reply,
    Body,
    Data { text: Seq<char> },
    ErrorBody { status: u16 },
    Over,
}

impl View for Phase {
    type V = PhaseView;

    open spec fn view(&self) -> PhaseView {
        match *self {
            Phase::Client => PhaseView::Client,
            Phase::TokenClient => PhaseView::TokenClient,
            Phase::Jwt => PhaseView::Jwt,
            Phase::TokenReply => PhaseView::TokenReply,
            Phase::TokenBody => PhaseView::TokenBody,
            Phase::TokenErrorBody { status } => PhaseView::TokenErrorBody { status: status@ },
            Phase::Reply => PhaseView::Reply,
            Phase::Body => PhaseView::Body,
            Phase::Data { text } => PhaseView::Data { text: text@ },
            Phase::ErrorBody { status } => PhaseView::ErrorBody { status: status@ },
            Phase::Over => PhaseView::Over,
        }
    }
}

/// An [`Action`] without its representation.
pub enum ActionView {
    BuildClient { timeout_seconds: u64 },
    MakeJwt,
    Post { url: Seq<char>, headers: Map<Seq<char>, Seq<Seq<u8>>>, json: Option<Seq<char>> },
    ReadAccessToken,
    ReadText,
    DecodeBranchData { text: Seq<char> },
    DecodeCommitData { text: Seq<char> },
    Finish(Result<Seq<char>, Seq<char>>),
}

impl View for Action {
    type V = ActionView;

    open spec fn view(&self) -> ActionView {
        match *self {
            Action::BuildClient { timeout_seconds } => ActionView::BuildClient { timeout_seconds },
            Action::MakeJwt => ActionView::MakeJwt,
            Action::Post { url, headers, json } => ActionView::Post {
                url: url@,
                headers: header_entries(headers),
                json: match json {
                    Some(text) => Some(text@),
                    None => None,
                },
            },
            Action::ReadAccessToken => ActionView::ReadAccessToken,
            Action::ReadText => ActionView::ReadText,
            Action::DecodeBranchData { text } => ActionView::DecodeBranchData { text: text@ },
            Action::DecodeCommitData { text } => ActionView::DecodeCommitData { text: text@ },
            Action::Finish(outcome) => ActionView::Finish(result_text(outcome)),
        }
    }
}

/// What a conversation is about: the installation in whose name it is led, the branch, and the
/// commit.
pub struct Job<'a> {
    pub github_app_installation_id: u64,
    pub config: &'a Config,
    pub payload: request::CreateCommitOnBranch,
}

/// How far a conversation has come.
pub struct Progress {
    pub stage: Stage,
    pub phase: PhaseView,
}

/// Where the conversation goes from here, and what is to be done to get there.
pub type Turn = (Progress, ActionView);

/// A conversation ends at the first failure, with a message that says what failed.
pub open spec fn give_up(stage: Stage, message: Seq<char>) -> Turn {
    (Progress { stage, phase: PhaseView::Over }, ActionView::Finish(Err(message)))
}

/// Every request begins with a client for it.
pub open spec fn begin(stage: Stage) -> Turn {
    (
        Progress { stage, phase: PhaseView::Client },
        ActionView::BuildClient { timeout_seconds: DEFAULT_TIMEOUT_SECONDS },
    )
}

/// A request is posted if its token can stand in a header.
pub open spec fn post(
    stage: Stage,
    phase: PhaseView,
    url: Seq<char>,
    api_type: GitHubApiType,
    token: Seq<char>,
    json: Option<Seq<char>>,
) -> Turn {
    if fits_header(token) {
        (
            Progress { stage, phase },
            ActionView::Post { url, headers: base_entries(api_type, token), json },
        )
    } else {
        give_up(stage, token_message())
    }
}

/// The request for an access token has no body, and the JSON web token authorizes it.
pub open spec fn post_token_request(job: Job, stage: Stage, jwt: Seq<char>) -> Turn {
    post(
        stage,
        PhaseView::TokenReply,
        access_token_url(job.github_app_installation_id),
        GitHubApiType::REST,
        jwt,
        None,
    )
}

/// The API that a stage's request goes to.
pub open spec fn stage_api(stage: Stage) -> GitHubApiType {
    match stage {
        Stage::CheckBranch => GitHubApiType::GraphQL,
        Stage::CreateBranch => GitHubApiType::REST,
        Stage::Commit => GitHubApiType::GraphQL,
    }
}

/// The URL that a stage's request goes to.
pub open spec fn stage_url(job: Job, stage: Stage) -> Seq<char> {
    match stage {
        Stage::CheckBranch => GRAPHQL_URL@,
        Stage::CreateBranch => refs_url(*job.config),
        Stage::Commit => GRAPHQL_URL@,
    }
}

/// The body of a stage's request.
pub open spec fn stage_body(job: Job, stage: Stage) -> Seq<char> {
    match stage {
        Stage::CheckBranch => render(does_branch_exist_json(*job.config)),
        Stage::CreateBranch => render(create_branch_json(*job.config)),
        Stage::Commit => render(job.payload.json()),
    }
}

/// A stage's request is authorized by the access token.
pub open spec fn post_stage_request(job: Job, stage: Stage, token: Seq<char>) -> Turn {
    post(
        stage,
        PhaseView::Reply,
        stage_url(job, stage),
        stage_api(stage),
        token,
        Some(stage_body(job, stage)),
    )
}

/// The message for a request that was not answered.
pub open spec fn request_failed(reason: Seq<char>) -> Seq<char> {
    "Request failed: "@ + reason
}

/// The message for a GraphQL answer whose body could not be read.
pub open spec fn unreadable_body(reason: Seq<char>) -> Seq<char> {
    "Error occurred while reading GraphQL response body as text: "@ + reason
}

/// The message for a GraphQL answer that is not of the expected type.
pub open spec fn unexpected_data(expected: Seq<char>, reason: Seq<char>, text: Seq<char>) -> Seq<
    char,
> {
    "Error occurred while deserializing GraphQL response to "@ + expected + ": "@ + reason + ": "@
        + text
}

/// A body for a message: absent if it could not be read.
pub open spec fn readable(body: Result<String, String>) -> Option<Seq<char>> {
    match body {
        Ok(text) => Some(text@),
        Err(_) => None,
    }
}

/// Where an event takes a conversation. There is an answer exactly for the events that the
/// conversation waits for.
pub open spec fn next(job: Job, at: Progress, event: Event) -> Option<Turn> {
    let stage = at.stage;
    match (at.phase, event) {
        (PhaseView::Client, Event::Client(Ok(_))) => Some(
            (
                Progress { stage, phase: PhaseView::TokenClient },
                ActionView::BuildClient { timeout_seconds: DEFAULT_TIMEOUT_SECONDS },
            ),
        ),
        (PhaseView::TokenClient, Event::Client(Ok(_))) => Some(
            (Progress { stage, phase: PhaseView::Jwt }, ActionView::MakeJwt),
        ),
        (PhaseView::Client, Event::Client(Err(_)))
        | (PhaseView::TokenClient, Event::Client(Err(_))) => Some(
            give_up(stage, "Unable to create HTTP client"@),
        ),
        (PhaseView::Jwt, Event::Jwt(Ok(jwt))) => Some(post_token_request(job, stage, jwt@)),
        (PhaseView::Jwt, Event::Jwt(Err(message))) => Some(give_up(stage, message@)),
        (PhaseView::TokenReply, Event::Reply(Ok(status))) => Some(
            if status@ == 201 {
                (Progress { stage, phase: PhaseView::TokenBody }, ActionView::ReadAccessToken)
            } else {
                (
                    Progress { stage, phase: PhaseView::TokenErrorBody { status: status@ } },
                    ActionView::ReadText,
                )
            },
        ),
        (PhaseView::TokenBody, Event::AccessToken(Ok(answer))) => Some(
            post_stage_request(job, stage, answer.token@),
        ),
        (PhaseView::TokenBody, Event::AccessToken(Err(_))) => Some(
            give_up(stage, "Unable to deserialize access token"@),
        ),
        (PhaseView::TokenErrorBody { status }, Event::Text(body)) => Some(
            give_up(
                stage,
                unexpected_status(
                    status_text(status),
                    "acquiring access token"@,
                    readable(body),
                ),
            ),
        ),
        (PhaseView::Reply, Event::Reply(Ok(status))) => Some(
            if stage == Stage::CreateBranch {
                if status@ == 201 {
                    begin(Stage::Commit)
                } else {
                    (
                        Progress { stage, phase: PhaseView::ErrorBody { status: status@ } },
                        ActionView::ReadText,
                    )
                }
            } else {
                (Progress { stage, phase: PhaseView::Body }, ActionView::ReadText)
            },
        ),
        (PhaseView::TokenReply, Event::Reply(Err(reason)))
        | (PhaseView::Reply, Event::Reply(Err(reason))) => Some(
            give_up(stage, request_failed(reason@)),
        ),
        (PhaseView::Body, Event::Text(Ok(text))) => Some(
            (
                Progress { stage, phase: PhaseView::Data { text: text@ } },
                if stage == Stage::Commit {
                    ActionView::DecodeCommitData { text: text@ }
                } else {
                    ActionView::DecodeBranchData { text: text@ }
                },
            ),
        ),
        (PhaseView::Body, Event::Text(Err(reason))) => Some(
            give_up(stage, unreadable_body(reason@)),
        ),
        (PhaseView::Data { text }, Event::BranchData(data)) => if stage == Stage::Commit {
            None
        } else {
            Some(
                match data {
                    Ok(data) => if data.found() {
                        begin(Stage::Commit)
                    } else {
                        begin(Stage::CreateBranch)
                    },
                    Err(error) => give_up(
                        stage,
                        unexpected_data(error.expected@, error.reason@, text),
                    ),
                },
            )
        },
        (PhaseView::Data { text }, Event::CommitData(data)) => if stage == Stage::Commit {
            Some(
                match data {
                    Ok(data) => (
                        Progress { stage, phase: PhaseView::Over },
                        ActionView::Finish(Ok(data.url())),
                    ),
                    Err(error) => give_up(
                        stage,
                        unexpected_data(error.expected@, error.reason@, text),
                    ),
                },
            )
        } else {
            None
        },
        (PhaseView::ErrorBody { status }, Event::Text(body)) => Some(
            give_up(
                stage,
                unexpected_status(status_text(status), "creating branch"@, readable(body)),
            ),
        ),
        _ => None,
    }
}

/// A turn of the conversation: where it goes and what is to be done.
struct Move {
    stage: Stage,
    phase: Phase,
    action: Action,
}

impl Move {
    spec fn turn(&self) -> Turn {
        (Progress { stage: self.stage, phase: self.phase@ }, self.action@)
    }

    fn give_up(stage: Stage, message: String) -> (r: Move)
        ensures
            r.turn() == give_up(stage, message@),
    {
        Move { stage, phase: Phase::Over, action: Action::Finish(Err(message)) }
    }

    fn begin(stage: Stage) -> (r: Move)
        ensures
            r.turn() == begin(stage),
    {
        Move {
            stage,
            phase: Phase::Client,
            action: Action::BuildClient { timeout_seconds: http_timeout_seconds(None) },
        }
    }

    fn post(
        stage: Stage,
        phase: Phase,
        url: String,
        api_type: GitHubApiType,
        token: &str,
        json: Option<String>,
    ) -> (r: Move)
        ensures
            r.turn() == post(
                stage,
                phase@,
                url@,
                api_type,
                token@,
                match json {
                    Some(text) => Some(text@),
                    None => None,
                },
            ),
    {
        match base_headers(api_type, token) {
            Ok(headers) => Move { stage, phase, action: Action::Post { url, headers, json } },
            Err(message) => Move::give_up(stage, message),
        }
    }

    fn unexpected_data(stage: Stage, error: DataError, text: &str) -> (r: Move)
        ensures
            r.turn() == give_up(
                stage,
                unexpected_data(error.expected@, error.reason@, text@),
            ),
    {
        let mut message = "Error occurred while deserializing GraphQL response to ".to_owned();
        message.append(error.expected.as_str());
        message.append(": ");
        message.append(error.reason.as_str());
        message.append(": ");
        message.append(text);
        Move::give_up(stage, message)
    }

    fn unexpected_status(stage: Stage, status: &Status, activity: &str, body: Result<
        String,
        String,
    >) -> (r: Move)
        ensures
            r.turn() == give_up(
                stage,
                unexpected_status(status_text(status@), activity@, readable(body)),
            ),
    {
        let shown = status.text();
        let message = match &body {
            Ok(text) => unexpected_status_message(shown.as_str(), activity, Some(text.as_str())),
            Err(_) => unexpected_status_message(shown.as_str(), activity, None),
        };
        Move::give_up(stage, message)
    }
}

/// A conversation with GitHub.
pub struct Conversation<'a> {
    job: Job<'a>,
    stage: Stage,
    phase: Phase,
}

impl<'a> Conversation<'a> {
    /// What the conversation is about.
    pub closed spec fn job(&self) -> Job<'a> {
        self.job
    }

    /// How far the conversation has come.
    pub closed spec fn progress(&self) -> Progress {
        Progress { stage: self.stage, phase: self.phase@ }
    }

    /// Begins a conversation, and says what is to be done first.
    pub fn start(job: Job<'a>) -> (r: (Conversation<'a>, Action))
        ensures
            r.0.job() == job,
            (r.0.progress(), r.1@) == begin(Stage::CheckBranch),
    {
        let first = Move::begin(Stage::CheckBranch);
        (Conversation { job, stage: first.stage, phase: first.phase }, first.action)
    }

    /// Tells the conversation what came of the last action, and returns the next. An event that
    /// does not answer the last action changes nothing.
    pub fn step(&mut self, event: Event) -> (action: Option<Action>)
        ensures
            final(self).job() == old(self).job(),
            match action {
                Some(action) => next(old(self).job(), old(self).progress(), event) == Some(
                    (final(self).progress(), action@),
                ),
                None => {
                    &&& next(old(self).job(), old(self).progress(), event) is None
                    &&& final(self).progress() == old(self).progress()
                },
            },
    {
        match self.decide(event) {
            Some(decision) => {
                self.stage = decision.stage;
                self.phase = decision.phase;
                Some(decision.action)
            },
            None => None,
        }
    }

    fn decide(&self, event: Event) -> (r: Option<Move>)
        ensures
            match r {
                Some(decision) => next(self.job, self.progress(), event) == Some(decision.turn()),
                None => next(self.job, self.progress(), event) is None,
            },
    {
        match event {
            Event::Client(built) => self.after_client(built),
            Event::Jwt(jwt) => self.after_jwt(jwt),
            Event::Reply(reply) => self.after_reply(reply),
            Event::AccessToken(answer) => self.after_access_token(answer),
            Event::Text(body) => self.after_text(body),
            Event::BranchData(data) => self.after_branch_data(data),
            Event::CommitData(data) => self.after_commit_data(data),
        }
    }

    fn after_client(&self, built: Result<(), ()>) -> (r: Option<Move>)
        ensures
            match r {
                Some(decision) => next(self.job, self.progress(), Event::Client(built)) == Some(
                    decision.turn(),
                ),
                None => next(self.job, self.progress(), Event::Client(built)) is None,
            },
    {
        let stage = self.stage;
        match (&self.phase, built) {
            (Phase::Client, Ok(_)) => Some(
                Move {
                    stage,
                    phase: Phase::TokenClient,
                    action: Action::BuildClient { timeout_seconds: http_timeout_seconds(None) },
                },
            ),
            (Phase::TokenClient, Ok(_)) => Some(
                Move { stage, phase: Phase::Jwt, action: Action::MakeJwt },
            ),
            (Phase::Client, Err(_)) | (Phase::TokenClient, Err(_)) => Some(
                Move::give_up(stage, "Unable to create HTTP client".to_owned()),
            ),
            _ => None,
        }
    }

    fn after_jwt(&self, jwt: Result<String, String>) -> (r: Option<Move>)
        ensures
            match r {
                Some(decision) => next(self.job, self.progress(), Event::Jwt(jwt)) == Some(
                    decision.turn(),
                ),
                None => next(self.job, self.progress(), Event::Jwt(jwt)) is None,
            },
    {
        let stage = self.stage;
        match (&self.phase, jwt) {
            (Phase::Jwt, Ok(jwt)) => {
                let url = access_token_url_text(self.job.github_app_installation_id);
                Some(
                    Move::post(
                        stage,
                        Phase::TokenReply,
                        url,
                        GitHubApiType::REST,
                        jwt.as_str(),
                        None,
                    ),
                )
            },
            (Phase::Jwt, Err(message)) => Some(Move::give_up(stage, message)),
            _ => None,
        }
    }

    fn after_reply(&self, reply: Result<Status, String>) -> (r: Option<Move>)
        ensures
            match r {
                Some(decision) => next(self.job, self.progress(), Event::Reply(reply)) == Some(
                    decision.turn(),
                ),
                None => next(self.job, self.progress(), Event::Reply(reply)) is None,
            },
    {
        let stage = self.stage;
        match (&self.phase, reply) {
            (Phase::TokenReply, Ok(status)) => {
                if status.is_created() {
                    Some(Move { stage, phase: Phase::TokenBody, action: Action::ReadAccessToken })
                } else {
                    Some(
                        Move {
                            stage,
                            phase: Phase::TokenErrorBody { status },
                            action: Action::ReadText,
                        },
                    )
                }
            },
            (Phase::Reply, Ok(status)) => {
                if stage == Stage::CreateBranch {
                    if status.is_created() {
                        Some(Move::begin(Stage::Commit))
                    } else {
                        Some(
                            Move {
                                stage,
                                phase: Phase::ErrorBody { status },
                                action: Action::ReadText,
                            },
                        )
                    }
                } else {
                    Some(Move { stage, phase: Phase::Body, action: Action::ReadText })
                }
            },
            (Phase::TokenReply, Err(reason)) | (Phase::Reply, Err(reason)) => {
                let mut message = "Request failed: ".to_owned();
                message.append(reason.as_str());
                Some(Move::give_up(stage, message))
            },
            _ => None,
        }
    }

    fn after_access_token(&self, answer: Result<response::GitHubAccessToken, ()>) -> (r: Option<
        Move,
    >)
        ensures
            match r {
                Some(decision) => next(self.job, self.progress(), Event::AccessToken(answer))
                    == Some(decision.turn()),
                None => next(self.job, self.progress(), Event::AccessToken(answer)) is None,
            },
    {
        let stage = self.stage;
        match (&self.phase, answer) {
            (Phase::TokenBody, Ok(answer)) => {
                let token = answer.token.as_str();
                let (url, api_type, body) = match stage {
                    Stage::CheckBranch => (
                        GRAPHQL_URL.to_owned(),
                        GitHubApiType::GraphQL,
                        does_branch_exist_body(self.job.config),
                    ),
                    Stage::CreateBranch => (
                        refs_url_text(self.job.config),
                        GitHubApiType::REST,
                        create_branch_body(self.job.config),
                    ),
                    Stage::Commit => (
                        GRAPHQL_URL.to_owned(),
                        GitHubApiType::GraphQL,
                        self.job.payload.to_json().into_string(),
                    ),
                };
                Some(Move::post(stage, Phase::Reply, url, api_type, token, Some(body)))
            },
            (Phase::TokenBody, Err(_)) => Some(
                Move::give_up(stage, "Unable to deserialize access token".to_owned()),
            ),
            _ => None,
        }
    }

    fn after_text(&self, body: Result<String, String>) -> (r: Option<Move>)
        ensures
            match r {
                Some(decision) => next(self.job, self.progress(), Event::Text(body)) == Some(
                    decision.turn(),
                ),
                None => next(self.job, self.progress(), Event::Text(body)) is None,
            },
    {
        let stage = self.stage;
        match &self.phase {
            Phase::TokenErrorBody { status } => Some(
                Move::unexpected_status(stage, status, "acquiring access token", body),
            ),
            Phase::ErrorBody { status } => Some(
                Move::unexpected_status(stage, status, "creating branch", body),
            ),
            Phase::Body => match body {
                Ok(text) => {
                    let action = if stage == Stage::Commit {
                        Action::DecodeCommitData { text: text.clone() }
                    } else {
                        Action::DecodeBranchData { text: text.clone() }
                    };
                    Some(Move { stage, phase: Phase::Data { text }, action })
                },
                Err(reason) => {
                    let mut message =
                        "Error occurred while reading GraphQL response body as text: ".to_owned();
                    message.append(reason.as_str());
                    Some(Move::give_up(stage, message))
                },
            },
            _ => None,
        }
    }

    fn after_branch_data(&self, data: Result<response::DoesBranchExist, DataError>) -> (r: Option<
        Move,
    >)
        ensures
            match r {
                Some(decision) => next(self.job, self.progress(), Event::BranchData(data)) == Some(
                    decision.turn(),
                ),
                None => next(self.job, self.progress(), Event::BranchData(data)) is None,
            },
    {
        let stage = self.stage;
        match &self.phase {
            Phase::Data { text } => {
                if stage == Stage::Commit {
                    return None;
                }
                match data {
                    Ok(data) => {
                        if data.branch_exists() {
                            Some(Move::begin(Stage::Commit))
                        } else {
                            Some(Move::begin(Stage::CreateBranch))
                        }
                    },
                    Err(error) => Some(Move::unexpected_data(stage, error, text.as_str())),
                }
            },
            _ => None,
        }
    }

    fn after_commit_data(&self, data: Result<response::CreateCommitOnBranch, DataError>) -> (r:
        Option<Move>)
        ensures
            match r {
                Some(decision) => next(self.job, self.progress(), Event::CommitData(data)) == Some(
                    decision.turn(),
                ),
                None => next(self.job, self.progress(), Event::CommitData(data)) is None,
            },
    {
        let stage = self.stage;
        match &self.phase {
            Phase::Data { text } => {
                if stage != Stage::Commit {
                    return None;
                }
                match data {
                    Ok(data) => {
                        let action = Action::Finish(Ok(data.into_url()));
                        Some(Move { stage, phase: Phase::Over, action })
                    },
                    Err(error) => Some(Move::unexpected_data(stage, error, text.as_str())),
                }
            },
            _ => None,
        }
    }
}

} // verus!
