//! The JSON web token with which the GitHub app identifies itself.

use vstd::prelude::*;

use jsonwebtoken::{Algorithm, EncodingKey, Header};
use serde_json::value::RawValue;

use crate::headers::{fits_header, law_visible_token_fits_header};
use crate::json::{Json, JsonText, render};
use crate::json_lookup::{has_members, member_at, says};
use crate::text::{decimal, decimal_text, result_text};

verus! {

#[verifier::external_type_specification]
#[verifier::external_body]
pub struct ExEncodingKey(EncodingKey);

#[verifier::external_type_specification]
#[verifier::external_body]
pub struct ExJwtError(jsonwebtoken::errors::Error);

/// The RSA signatures with PKCS#1 padding, by their hash function.
#[derive(Debug, Clone, Copy, PartialEq, Eq, Structural)]
pub enum RsaSignature {
    RS256,
    RS384,
    RS512,
}

/// What comes of signing the given claims with the given key: the token that carries them, or an
/// error.
pub uninterp spec fn jwt_signing(
    signature: RsaSignature,
    claims: Seq<char>,
    key: EncodingKey,
) -> Result<Seq<char>, jsonwebtoken::errors::Error>;

/// How an error of signing is shown.
pub uninterp spec fn jwt_error_text(error: jsonwebtoken::errors::Error) -> Seq<char>;

/// A character of a token: the alphabet of URL-safe Base64, and the dot between the parts.
pub open spec fn token_char(c: char) -> bool {
    'A' <= c <= 'Z' || 'a' <= c <= 'z' || '0' <= c <= '9' || c == '-' || c == '_' || c == '.'
}

/// Whether a text is made of a token's characters.
pub open spec fn token_chars(text: Seq<char>) -> bool {
    forall|i: int| 0 <= i < text.len() ==> token_char(#[trigger] text[i])
}

/// Whether a text has three parts with dots between them.
pub open spec fn three_parts(text: Seq<char>) -> bool {
    text.filter(|c: char| c == '.').len() == 2
}

/// A result of signing, with the token as text.
pub open spec fn signing_view(r: Result<String, jsonwebtoken::errors::Error>) -> Result<
    Seq<char>,
    jsonwebtoken::errors::Error,
> {
    match r {
        Ok(token) => Ok(token@),
        Err(error) => Err(error),
    }
}

/// `jsonwebtoken::encode` with the plain header of a signature, on claims given as their JSON
/// text, which goes into the token as it stands. The outcome depends on the signature, the claims
/// and the key alone, for PKCS#1 padding uses no random numbers; the contract gives it a name. A
/// token is made of Base64 and dots, and has three parts.
#[verifier::external_body]
fn encode_jwt(signature: RsaSignature, claims: &str, key: &EncodingKey) -> (r: Result<
    String,
    jsonwebtoken::errors::Error,
>)
    ensures
        signing_view(r) == jwt_signing(signature, claims@, *key),
        r matches Ok(token) ==> token_chars(token@),
        r matches Ok(token) ==> three_parts(token@),
{
    let algorithm = match signature {
        RsaSignature::RS256 => Algorithm::RS256,
        RsaSignature::RS384 => Algorithm::RS384,
        RsaSignature::RS512 => Algorithm::RS512,
    };
    let claims: &RawValue = serde_json::from_str(claims)?;
    jsonwebtoken::encode(&Header::new(algorithm), &claims, key)
}

/// The `Display` of `jsonwebtoken::errors::Error`. The contract gives the text a name and leaves
/// the table of texts unsaid.
#[verifier::external_body]
fn display_jwt_error(error: &jsonwebtoken::errors::Error) -> (text: String)
    ensures
        text@ == jwt_error_text(*error),
{
    error.to_string()
}

/// What a token says: when it was issued, when it expires, and the app that issued it.
#[derive(Debug)]
pub struct Claims {
    pub iat: usize,
    pub exp: usize,
    pub iss: String,
}

/// The claims as a JSON value.
pub open spec fn claims_json(iat: usize, exp: usize, iss: Seq<char>) -> Json {
    Json::Object(
        seq![
            ("iat"@, Json::Number(iat as nat)),
            ("exp"@, Json::Number(exp as nat)),
            ("iss"@, Json::Text(iss)),
        ],
    )
}

/// How long a token is valid: ten minutes.
pub const LIFETIME_SECONDS: usize = 600;

/// Whether a token that is issued at the given second expires within the range of the clock.
pub open spec fn expires(now: usize) -> bool {
    now + LIFETIME_SECONDS <= usize::MAX
}

/// The message for a token that would expire beyond the range of the clock.
pub open spec fn overflow_message(now: usize) -> Seq<char> {
    "Adding ten minutes to now in seconds ("@ + decimal(now as nat)
        + ") resulted in time that is less than now ("@ + decimal(
        (now + LIFETIME_SECONDS - usize::MAX - 1) as nat,
    ) + ")"@
}

impl Claims {
    /// The claims as a JSON value.
    pub open spec fn json(&self) -> Json {
        claims_json(self.iat, self.exp, self.iss@)
    }

    /// The claims as JSON.
    pub fn to_json(&self) -> (json: JsonText)
        ensures
            json@ == self.json(),
    {
        let members = vec![
            ("iat", JsonText::number(self.iat as u128)),
            ("exp", JsonText::number(self.exp as u128)),
            ("iss", JsonText::string(self.iss.as_str())),
        ];
        let json = JsonText::object(members);
        assert(json@->Object_0 =~= self.json()->Object_0);
        json
    }

    /// The claims of a token that the given app issues at the given second.
    pub fn issued_at(now: usize, github_app_id: u64) -> (r: Result<Claims, String>)
        ensures
            r is Ok <==> expires(now),
            r matches Ok(claims) ==> {
                &&& claims.iat == now
                &&& claims.exp == now + LIFETIME_SECONDS
                &&& claims.iss@ == decimal(github_app_id as nat)
            },
            r matches Err(message) ==> message@ == overflow_message(now),
    {
        let ten_minutes_from_now: usize = now.wrapping_add(LIFETIME_SECONDS);
        if ten_minutes_from_now < now {
            let mut message = "Adding ten minutes to now in seconds (".to_owned();
            let now_text = decimal_text(now as u128);
            message.append(now_text.as_str());
            message.append(") resulted in time that is less than now (");
            let wrapped_text = decimal_text(ten_minutes_from_now as u128);
            message.append(wrapped_text.as_str());
            message.append(")");
            return Err(message);
        }
        Ok(
            Claims {
                iat: now,
                exp: ten_minutes_from_now,
                iss: decimal_text(github_app_id as u128),
            },
        )
    }

    /// Signs the claims by RS256. A failure comes with its reason.
    pub fn sign(&self, key: &EncodingKey) -> (r: Result<String, String>)
        ensures
            result_text(r) == signed(self.json(), *key),
            r matches Ok(token) ==> token_chars(token@) && three_parts(token@),
    {
        let claims = self.to_json().into_string();
        match encode_jwt(RsaSignature::RS256, claims.as_str(), key) {
            Ok(token) => Ok(token),
            Err(error) => Err(display_jwt_error(&error)),
        }
    }
}

/// The signed form of claims: the token that carries their text, signed by RS256, or the reason
/// why there is none.
pub open spec fn signed(claims: Json, key: EncodingKey) -> Result<Seq<char>, Seq<char>> {
    match jwt_signing(RsaSignature::RS256, render(claims), key) {
        Ok(token) => Ok(token),
        Err(error) => Err(jwt_error_text(error)),
    }
}

/// What signing amounts to: the token, or a message with the reason why there is none.
pub open spec fn signing_outcome(signed: Result<Seq<char>, Seq<char>>) -> Result<
    Seq<char>,
    Seq<char>,
> {
    match signed {
        Ok(token) => Ok(token),
        Err(reason) => Err("Unable to create JWT: "@ + reason),
    }
}

/// Adds to the reason of a failed signing what it was for.
pub fn describe_signing(signed: Result<String, String>) -> (r: Result<String, String>)
    ensures
        result_text(r) == signing_outcome(result_text(signed)),
{
    match signed {
        Ok(token) => Ok(token),
        Err(reason) => {
            let mut message = "Unable to create JWT: ".to_owned();
            message.append(reason.as_str());
            Err(message)
        },
    }
}

/// A token can always stand in a header.
pub proof fn law_token_fits_header(token: Seq<char>)
    requires
        token_chars(token),
    ensures
        fits_header(token),
{
    law_visible_token_fits_header(token);
}

/// The claims of a token say under `iat` when it was issued, under `exp` when it expires and under
/// `iss` who issued it, and nothing else.
pub proof fn law_claims_say(iat: usize, exp: usize, iss: Seq<char>)
    ensures
        says(claims_json(iat, exp, iss), "iat"@, Json::Number(iat as nat)),
        says(claims_json(iat, exp, iss), "exp"@, Json::Number(exp as nat)),
        says(claims_json(iat, exp, iss), "iss"@, Json::Text(iss)),
        has_members(claims_json(iat, exp, iss), 3),
{
    reveal_strlit("iat");
    reveal_strlit("exp");
    reveal_strlit("iss");
    assert("iat"@[0] == 'i' && "exp"@[0] == 'e' && "iss"@[0] == 'i');
    assert("iat"@[1] == 'a' && "iss"@[1] == 's');
    let members = claims_json(iat, exp, iss)->Object_0;
    assert(member_at(members, 0, "iat"@, Json::Number(iat as nat)));
    assert(member_at(members, 1, "exp"@, Json::Number(exp as nat)));
    assert(member_at(members, 2, "iss"@, Json::Text(iss)));
}

/// The JSON of claims is that of what they say.
pub proof fn law_claims_are_said(claims: Claims)
    ensures
        says(claims.json(), "iat"@, Json::Number(claims.iat as nat)),
        says(claims.json(), "exp"@, Json::Number(claims.exp as nat)),
        says(claims.json(), "iss"@, Json::Text(claims.iss@)),
        has_members(claims.json(), 3),
{
    law_claims_say(claims.iat, claims.exp, claims.iss@);
}

/// A token can be issued at a second if ten minutes later is within the range of the clock; the
/// message for one that cannot be names both the second and where the sum wraps round to.
pub proof fn law_expiry_is_in_range(now: usize)
    ensures
        expires(now) <==> now + 10 * 60 <= usize::MAX,
        !expires(now) ==> overflow_message(now) == "Adding ten minutes to now in seconds ("@
            + decimal(now as nat) + ") resulted in time that is less than now ("@ + decimal(
            (now + 10 * 60 - (usize::MAX + 1)) as nat,
        ) + ")"@,
{
}

/// Signing claims is signing their text by RS256; a failure is its error's text.
pub proof fn law_claims_are_signed_by_rs256(claims: Json, key: EncodingKey)
    ensures
        signed(claims, key) is Ok <==> jwt_signing(RsaSignature::RS256, render(claims), key) is Ok,
        jwt_signing(RsaSignature::RS256, render(claims), key) matches Ok(token) ==> signed(
            claims,
            key,
        ) == Ok::<Seq<char>, Seq<char>>(token),
        jwt_signing(RsaSignature::RS256, render(claims), key) matches Err(error) ==> signed(
            claims,
            key,
        ) == Err::<Seq<char>, Seq<char>>(jwt_error_text(error)),
{
}

/// A token that was made is what comes of signing; else the reason comes after the words for it.
pub proof fn law_signing_outcome_tells_the_reason(text: Seq<char>)
    ensures
        signing_outcome(Ok(text)) == Ok::<Seq<char>, Seq<char>>(text),
        signing_outcome(Err(text)) == Err::<Seq<char>, Seq<char>>("Unable to create JWT: "@ + text),
{
}

} // verus!
