//! The GitHub API: what is sent to it and what comes back.

pub mod client_laws;
pub mod conversation;
pub mod conversation_laws;
pub mod course_laws;
pub mod endpoint;
pub mod endpoint_laws;
pub mod request;
pub mod request_laws;
pub mod response;
pub mod rest_api;

use vstd::prelude::*;

use std::time::SystemTime;

use jsonwebtoken::EncodingKey;

use crate::clock::{read_clock, reading_at, second_from_reading, second_of_reading};
use crate::config::Config;
use crate::github::conversation::{
    Action, Conversation, Event, Job, Stage, Turn, begin, give_up, post_token_request,
};
use crate::github::endpoint::{create_commit_json, create_commit_payload};
use crate::jwt::{
    Claims, LIFETIME_SECONDS, claims_json, describe_signing, expires, law_token_fits_header,
    overflow_message, signed, signing_outcome, three_parts, token_chars,
};
use crate::text::{decimal, error_text, result_text};

verus! {

/// A GitHub app, as it is installed for an account.
pub struct GitHubClient<'a> {
    pub github_app_id: u64,
    pub github_app_installation_id: u64,
    pub github_app_private_key: &'a EncodingKey,
}

impl<'a> GitHubClient<'a> {
    /// What comes of asking for a token at a given second: an error if it would expire beyond
    /// the range of the clock, else the signed claims of that second or the failure to sign them.
    pub open spec fn jwt_at(&self, now: usize) -> Result<Seq<char>, Seq<char>> {
        if expires(now) {
            signing_outcome(
                signed(
                    claims_json(
                        now,
                        (now + LIFETIME_SECONDS) as usize,
                        decimal(self.github_app_id as nat),
                    ),
                    *self.github_app_private_key,
                ),
            )
        } else {
            Err(overflow_message(now))
        }
    }

    /// What comes of asking for a token at a given point in time.
    pub open spec fn jwt_at_time(&self, time: SystemTime) -> Result<Seq<char>, Seq<char>> {
        match second_of_reading(reading_at(time)) {
            Ok(now) => self.jwt_at(now),
            Err(message) => Err(message),
        }
    }

    /// Where a conversation goes that waits for a JSON web token, if this client makes it at a
    /// given point in time.
    pub open spec fn token_request_at(&self, job: Job, stage: Stage, time: SystemTime) -> Turn {
        match self.jwt_at_time(time) {
            Ok(jwt) => post_token_request(job, stage, jwt),
            Err(message) => give_up(stage, message),
        }
    }

    /// The seconds since the Unix epoch.
    pub fn unix_epoch_second_now() -> (second: Result<usize, String>)
        ensures
            exists|time: SystemTime|
                error_text(second) == second_of_reading(#[trigger] reading_at(time)),
    {
        second_from_reading(read_clock())
    }

    /// The token with which the app identifies itself if it is asked for at the given second.
    pub fn get_jwt_at(&self, now: usize) -> (r: Result<String, String>)
        ensures
            result_text(r) == self.jwt_at(now),
            r matches Ok(token) ==> token_chars(token@) && three_parts(token@),
    {
        match Claims::issued_at(now, self.github_app_id) {
            Ok(claims) => {
                let signed = claims.sign(self.github_app_private_key);
                describe_signing(signed)
            },
            Err(message) => Err(message),
        }
    }

    /// The token with which the app identifies itself at present.
    ///
    /// https://docs.github.com/en/apps/creating-github-apps/authenticating-with-a-github-app/generating-a-json-web-token-jwt-for-a-github-app
    pub fn get_jwt(&self) -> (r: Result<String, String>)
        ensures
            exists|time: SystemTime| result_text(r) == #[trigger] self.jwt_at_time(time),
            r matches Ok(token) ==> token_chars(token@) && three_parts(token@),
    {
        let second = Self::unix_epoch_second_now();
        proof {
            let time = choose|time: SystemTime|
                error_text(second) == second_of_reading(#[trigger] reading_at(time));
            assert(second matches Ok(now) ==> self.jwt_at_time(time) == self.jwt_at(now));
        }
        match second {
            Ok(now) => self.get_jwt_at(now),
            Err(message) => Err(message),
        }
    }

    /// Creates a commit on a branch. What is returned is the conversation that does so and the
    /// first thing to be done in it; it ends with the URL of the commit.
    ///
    /// - `createCommitOnBranch` fails if the branch doesn't exist, so the conversation ensures
    ///   that it exists first
    pub fn create_commit_on_branch<'c>(
        &self,
        config: &'c Config,
        args: request::CreateCommitOnBranchInput,
    ) -> (r: (Conversation<'c>, Action))
        ensures
            r.0.job().github_app_installation_id == self.github_app_installation_id,
            r.0.job().config == config,
            r.0.job().payload.json() == create_commit_json(args),
            (r.0.progress(), r.1@) == begin(Stage::CheckBranch),
    {
        Conversation::start(
            Job {
                github_app_installation_id: self.github_app_installation_id,
                config,
                payload: create_commit_payload(args),
            },
        )
    }

    /// Makes the JSON web token that a conversation waits for, and returns the next action: the
    /// request for an access token, authorized by the present token of this client, or the end
    /// of the conversation if there is no such token. A token that was made always goes out, for
    /// it can stand in a header. A conversation that waits for something else stays as it is.
    pub fn authorize<'c>(&self, conversation: &mut Conversation<'c>) -> (action: Option<Action>)
        ensures
            final(conversation).job() == old(conversation).job(),
            action is Some <==> old(conversation).progress().phase is Jwt,
            match action {
                Some(action) => exists|time: SystemTime|
                    (final(conversation).progress(), action@) == #[trigger] self.token_request_at(
                        old(conversation).job(),
                        old(conversation).progress().stage,
                        time,
                    ) && (action@ is Post <==> self.jwt_at_time(time) is Ok),
                None => final(conversation).progress() == old(conversation).progress(),
            },
    {
        let jwt = self.get_jwt();
        let ghost made = result_text(jwt);
        proof {
            if made is Ok {
                law_token_fits_header(made->Ok_0);
            }
        }
        let action = conversation.step(Event::Jwt(jwt));
        proof {
            let time = choose|time: SystemTime| made == #[trigger] self.jwt_at_time(time);
            assert(action matches Some(action) ==> (conversation.progress(), action@)
                == self.token_request_at(
                old(conversation).job(),
                old(conversation).progress().stage,
                time,
            ) && (action@ is Post <==> self.jwt_at_time(time) is Ok));
        }
        action
    }
}

} // verus!
