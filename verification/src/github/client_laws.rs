//! What the token of an app says, and what it is used for.

use vstd::prelude::*;

use std::time::SystemTime;

use crate::clock::{law_reading_is_the_time, law_second_is_the_reading, nanos_since_unix_epoch};
use crate::github::GitHubClient;
use crate::github::conversation::{ActionView, Event, Job, PhaseView, Progress, Stage, next};
use crate::json::{Json, render};
use crate::json_lookup::{has_members, says};
use crate::jwt::{
    RsaSignature, claims_json, jwt_error_text, jwt_signing, law_claims_are_signed_by_rs256,
    law_claims_say, law_expiry_is_in_range, law_signing_outcome_tells_the_reason,
};
use crate::text::decimal;
use crate::text_laws::{is_number, is_shortest, law_decimal_reads_back, number_read};

verus! {

/// Whether claims are those of an app at a second: issued then, to expire ten minutes later, by
/// the app whose number the issuer reads as.
pub open spec fn claimed_at(claims: Json, now: usize, github_app_id: u64) -> bool {
    &&& says(claims, "iat"@, Json::Number(now as nat))
    &&& says(claims, "exp"@, Json::Number((now + 10 * 60) as nat))
    &&& exists|issuer: Seq<char>|
        {
            &&& #[trigger] says(claims, "iss"@, Json::Text(issuer))
            &&& is_number(issuer, 10)
            &&& is_shortest(issuer)
            &&& number_read(issuer, 10) == github_app_id
        }
    &&& has_members(claims, 3)
}

/// The token of a second that leaves room for ten minutes is the app's claims of that second,
/// signed with the app's key by RS256. A failure to sign them comes with its reason.
pub proof fn law_token_says_who_and_until_when(client: GitHubClient<'_>, now: usize)
    requires
        now + 10 * 60 <= usize::MAX,
    ensures
        exists|claims: Json|
            {
                &&& claimed_at(claims, now, client.github_app_id)
                &&& match jwt_signing(
                    RsaSignature::RS256,
                    #[trigger] render(claims),
                    *client.github_app_private_key,
                ) {
                    Ok(token) => client.jwt_at(now) == Ok::<Seq<char>, Seq<char>>(token),
                    Err(error) => client.jwt_at(now) == Err::<Seq<char>, Seq<char>>(
                        "Unable to create JWT: "@ + jwt_error_text(error),
                    ),
                }
            },
{
    let key = *client.github_app_private_key;
    let issuer = decimal(client.github_app_id as nat);
    let exp = (now + 10 * 60) as usize;
    let claims = claims_json(now, exp, issuer);
    law_expiry_is_in_range(now);
    law_claims_say(now, exp, issuer);
    law_decimal_reads_back(client.github_app_id as nat);
    assert(says(claims, "iss"@, Json::Text(issuer)));
    law_claims_are_signed_by_rs256(claims, key);
    match jwt_signing(RsaSignature::RS256, render(claims), key) {
        Ok(token) => {
            law_signing_outcome_tells_the_reason(token);
        },
        Err(error) => {
            law_signing_outcome_tells_the_reason(jwt_error_text(error));
        },
    }
    assert(claimed_at(claims, now, client.github_app_id));
}

/// There is no token for a second that leaves no room for ten minutes, and the error says so.
pub proof fn law_no_token_beyond_the_clock(client: GitHubClient<'_>, now: usize)
    requires
        now + 10 * 60 > usize::MAX,
    ensures
        client.jwt_at(now) == Err::<Seq<char>, Seq<char>>(
            "Adding ten minutes to now in seconds ("@ + decimal(now as nat)
                + ") resulted in time that is less than now ("@ + decimal(
                (now + 10 * 60 - (usize::MAX + 1)) as nat,
            ) + ")"@,
        ),
{
    law_expiry_is_in_range(now);
}

/// The token of a point in time is that of its second, as long as it can be counted.
pub proof fn law_token_is_of_the_second(client: GitHubClient<'_>, time: SystemTime, second: usize)
    requires
        second <= u64::MAX,
        second * 1_000_000_000 <= nanos_since_unix_epoch(time) < (second + 1) * 1_000_000_000,
    ensures
        client.jwt_at_time(time) == client.jwt_at(second),
{
    law_reading_is_the_time(time);
    law_second_is_the_reading(crate::clock::reading_at(time));
}

/// There is no token for a point in time before the epoch, and the error tells how far off it
/// is.
pub proof fn law_no_token_before_the_epoch(client: GitHubClient<'_>, time: SystemTime)
    requires
        -(u128::MAX as int) <= nanos_since_unix_epoch(time) < 0,
    ensures
        client.jwt_at_time(time) == Err::<Seq<char>, Seq<char>>(
            "Impossible duration from Unix epoch to now: "@ + decimal(
                (-nanos_since_unix_epoch(time)) as nat,
            ) + " nanoseconds"@,
        ),
{
    law_reading_is_the_time(time);
    law_second_is_the_reading(crate::clock::reading_at(time));
}

/// What a client does for a conversation that waits for a JSON web token is what the conversation
/// does if it is told the client's token, or why there is none.
pub proof fn law_client_tells_its_token(
    client: GitHubClient<'_>,
    job: Job,
    stage: Stage,
    time: SystemTime,
    jwt: Result<String, String>,
)
    requires
        match jwt {
            Ok(token) => client.jwt_at_time(time) == Ok::<Seq<char>, Seq<char>>(token@),
            Err(message) => client.jwt_at_time(time) == Err::<Seq<char>, Seq<char>>(message@),
        },
    ensures
        next(job, Progress { stage, phase: PhaseView::Jwt }, Event::Jwt(jwt)) == Some(
            client.token_request_at(job, stage, time),
        ),
{
}

/// A client without a token ends the conversation, with the reason.
pub proof fn law_client_without_token_gives_up(
    client: GitHubClient<'_>,
    job: Job,
    stage: Stage,
    time: SystemTime,
)
    requires
        client.jwt_at_time(time) is Err,
    ensures
        client.token_request_at(job, stage, time).0 == (Progress { stage, phase: PhaseView::Over }),
        client.token_request_at(job, stage, time).1 == ActionView::Finish(
            client.jwt_at_time(time),
        ),
{
}

} // verus!
