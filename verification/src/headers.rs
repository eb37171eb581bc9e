//! The headers that every request to GitHub carries.

use vstd::prelude::*;
use vstd::utf8::{
    char_is_scalar, encode_scalar, encode_utf8, encode_utf8_decode_utf8, is_ascii_chars,
    is_ascii_chars_encode_utf8,
};

use reqwest::header::{HeaderMap, HeaderValue, InvalidHeaderValue};

verus! {

#[verifier::external_type_specification]
#[verifier::external_body]
#[verifier::reject_recursive_types(T)]
pub struct ExHeaderMap<T>(HeaderMap<T>);

#[verifier::external_type_specification]
#[verifier::external_body]
pub struct ExHeaderValue(HeaderValue);

#[verifier::external_type_specification]
#[verifier::external_body]
pub struct ExInvalidHeaderValue(InvalidHeaderValue);

/// The bytes of a header value.
pub uninterp spec fn header_value_bytes(value: HeaderValue) -> Seq<u8>;

/// What a header map holds: under each header name, in lower case, the values that were given
/// to it.
pub uninterp spec fn header_entries(headers: HeaderMap<HeaderValue>) -> Map<
    Seq<char>,
    Seq<Seq<u8>>,
>;

/// Whether a header value may be made of these bytes: no control characters but the tab.
pub open spec fn valid_header_value(bytes: Seq<u8>) -> bool {
    forall|i: int|
        0 <= i < bytes.len() ==> (#[trigger] bytes[i] >= 32 && bytes[i] != 127) || bytes[i] == 9
}

/// Whether a text is all visible ASCII, spaces and tabs.
pub open spec fn visible_ascii(text: Seq<char>) -> bool {
    forall|i: int| 0 <= i < text.len() ==> ' ' <= #[trigger] text[i] <= '~' || text[i] == '\t'
}

/// Whether a text is a header name in lower case: letters, digits and hyphens, at least one and
/// at most sixty-four of them.
pub open spec fn plain_header_name(name: Seq<char>) -> bool {
    &&& 0 < name.len() <= 64
    &&& forall|i: int|
        0 <= i < name.len() ==> 'a' <= #[trigger] name[i] <= 'z' || '0' <= name[i] <= '9' || name[i]
            == '-'
}

/// `HeaderValue::from_str`: a header value with the bytes of the text, or an error if one of
/// them is a control character other than the tab.
pub assume_specification[ HeaderValue::from_str ](src: &str) -> (r: Result<
    HeaderValue,
    InvalidHeaderValue,
>)
    ensures
        r is Ok <==> valid_header_value(encode_utf8(src@)),
        r matches Ok(value) ==> header_value_bytes(value) == encode_utf8(src@),
;

/// `HeaderValue::from_static`: a header value with the bytes of the text. It panics on anything
/// but visible ASCII, spaces and tabs.
pub assume_specification[ HeaderValue::from_static ](src: &'static str) -> (value: HeaderValue)
    requires
        visible_ascii(src@),
    ensures
        header_value_bytes(value) == encode_utf8(src@),
;

/// `HeaderMap::new`: no headers.
pub assume_specification[ HeaderMap::<HeaderValue>::new ]() -> (headers: HeaderMap<HeaderValue>)
    ensures
        header_entries(headers) =~= map![],
;

/// `HeaderMap::insert` with a header name in lower case: the name has the new value and no
/// other from then on, and the first value that it had before is handed back. The call panics
/// on a text that is no header name, and on a map that is full, which one with fewer than a
/// hundred names never is.
#[verifier::external_body]
fn insert_header(
    headers: &mut HeaderMap<HeaderValue>,
    name: &'static str,
    value: HeaderValue,
) -> (previous: Option<HeaderValue>)
    requires
        plain_header_name(name@),
        header_entries(*old(headers)).dom().finite(),
        header_entries(*old(headers)).dom().len() < 100,
    ensures
        header_entries(*final(headers)) == header_entries(*old(headers)).insert(
            name@,
            seq![header_value_bytes(value)],
        ),
        previous is Some <==> header_entries(*old(headers)).dom().contains(name@),
        previous matches Some(first) ==> header_value_bytes(first) == header_entries(
            *old(headers),
        )[name@][0],
{
    headers.insert(name, value)
}

/// The two APIs that GitHub offers.
#[derive(Debug, Clone, Copy, PartialEq, Eq, Structural)]
pub enum GitHubApiType {
    GraphQL,
    REST,
}

/// The media type that an API answers in.
pub open spec fn accepted(api_type: GitHubApiType) -> Seq<char> {
    match api_type {
        GitHubApiType::GraphQL => "application/json"@,
        GitHubApiType::REST => "application/vnd.github+json"@,
    }
}

/// The credentials that a token makes.
pub open spec fn bearer(token: Seq<char>) -> Seq<char> {
    "Bearer "@ + token
}

/// Whether a token can stand in a header.
pub open spec fn fits_header(token: Seq<char>) -> bool {
    valid_header_value(encode_utf8(bearer(token)))
}

/// A header with the given text as its one value.
pub open spec fn single(text: Seq<char>) -> Seq<Seq<u8>> {
    seq![encode_utf8(text)]
}

/// The headers of a request: `Accept`, `Authorization` and `User-Agent`, which GitHub requires,
/// and for the REST API the version of it that is spoken.
pub open spec fn base_entries(api_type: GitHubApiType, token: Seq<char>) -> Map<
    Seq<char>,
    Seq<Seq<u8>>,
> {
    let common = map![
        "accept"@ => single(accepted(api_type)),
        "authorization"@ => single(bearer(token)),
        "user-agent"@ => single("ghommit"@),
    ];
    match api_type {
        GitHubApiType::GraphQL => common,
        GitHubApiType::REST => common.insert("x-github-api-version"@, single("2022-11-28"@)),
    }
}

/// The message for a token that cannot stand in a header.
pub open spec fn token_message() -> Seq<char> {
    "Unable to create header value with JWT string"@
}

/// Returns the headers of a request to the given API that is authorized by the given token:
///
/// - `Accept`
/// - `Authorization`
/// - `User-Agent`
/// - `X-GitHub-Api-Version` (if using the REST API)
pub fn base_headers(api_type: GitHubApiType, token: &str) -> (r: Result<
    HeaderMap<HeaderValue>,
    String,
>)
    ensures
        r is Ok <==> fits_header(token@),
        r matches Ok(headers) ==> header_entries(headers) == base_entries(api_type, token@),
        r matches Err(message) ==> message@ == token_message(),
{
    proof {
        reveal_strlit("accept");
        reveal_strlit("authorization");
        reveal_strlit("user-agent");
        reveal_strlit("x-github-api-version");
        reveal_strlit("application/json");
        reveal_strlit("application/vnd.github+json");
        reveal_strlit("ghommit");
        reveal_strlit("2022-11-28");
    }
    let mut credentials = "Bearer ".to_owned();
    credentials.append(token);
    let authorization = match HeaderValue::from_str(credentials.as_str()) {
        Ok(value) => value,
        Err(_) => return Err("Unable to create header value with JWT string".to_owned()),
    };
    let accept = match api_type {
        GitHubApiType::GraphQL => HeaderValue::from_static("application/json"),
        GitHubApiType::REST => HeaderValue::from_static("application/vnd.github+json"),
    };
    let mut headers = HeaderMap::new();
    insert_header(&mut headers, "accept", accept);
    insert_header(&mut headers, "authorization", authorization);
    insert_header(&mut headers, "user-agent", HeaderValue::from_static("ghommit"));
    match api_type {
        GitHubApiType::GraphQL => {},
        GitHubApiType::REST => {
            insert_header(
                &mut headers,
                "x-github-api-version",
                HeaderValue::from_static("2022-11-28"),
            );
        },
    }
    assert(header_entries(headers) =~= base_entries(api_type, token@));
    Ok(headers)
}

/// Every request says what it accepts, who sends it and on whose authority, and one to the REST
/// API, and no other, says which version of the API it means. There are no other headers.
pub proof fn law_headers_of_a_request(api_type: GitHubApiType, token: Seq<char>)
    ensures
        base_entries(api_type, token)["accept"@] == single(accepted(api_type)),
        base_entries(api_type, token)["authorization"@] == single(bearer(token)),
        base_entries(api_type, token)["user-agent"@] == single("ghommit"@),
        api_type is REST ==> base_entries(api_type, token)["x-github-api-version"@] == single(
            "2022-11-28"@,
        ),
        base_entries(api_type, token).dom() == (match api_type {
            GitHubApiType::GraphQL => set!["accept"@, "authorization"@, "user-agent"@],
            GitHubApiType::REST => set![
                "accept"@,
                "authorization"@,
                "user-agent"@,
                "x-github-api-version"@,
            ],
        }),
{
    reveal_strlit("accept");
    reveal_strlit("authorization");
    reveal_strlit("user-agent");
    reveal_strlit("x-github-api-version");
    assert("accept"@.len() != "authorization"@.len());
    assert("accept"@.len() != "user-agent"@.len());
    assert("authorization"@.len() != "user-agent"@.len());
    assert("x-github-api-version"@.len() == 20);
    assert(base_entries(api_type, token).dom() =~= (match api_type {
        GitHubApiType::GraphQL => set!["accept"@, "authorization"@, "user-agent"@],
        GitHubApiType::REST => set![
            "accept"@,
            "authorization"@,
            "user-agent"@,
            "x-github-api-version"@,
        ],
    }));
}

/// A token of visible ASCII can always stand in a header.
pub proof fn law_visible_token_fits_header(token: Seq<char>)
    requires
        visible_ascii(token),
    ensures
        fits_header(token),
{
    reveal_strlit("Bearer ");
    let text = bearer(token);
    assert(visible_ascii(text)) by {
        assert forall|i: int| 0 <= i < text.len() implies ' ' <= #[trigger] text[i] <= '~'
            || text[i] == '\t' by {
            if i >= 7 {
                assert(text[i] == token[i - 7]);
            }
        }
    }
    assert(is_ascii_chars(text));
    is_ascii_chars_encode_utf8(text);
    let bytes = encode_utf8(text);
    assert forall|i: int| 0 <= i < bytes.len() implies (#[trigger] bytes[i] >= 32 && bytes[i]
        != 127) || bytes[i] == 9 by {
        assert(text[i] as u8 == bytes[i]);
    }
}

/// The bytes of a character are all control bytes or none: a control character is one byte, and
/// the bytes of a character beyond ASCII are all above 127.
proof fn lemma_bytes_of_a_char(c: char)
    ensures
        encode_scalar(c as u32).len() > 0,
        valid_header_value(encode_scalar(c as u32)) <==> allowed_in_header(c),
{
    let v = c as u32;
    char_is_scalar(c);
    assert(v <= 0x7f ==> (v & 0x7f) as u8 == v) by (bit_vector);
    assert((0xC0u8 | ((v >> 6) & 0x1F) as u8) >= 128) by (bit_vector);
    assert((0xE0u8 | ((v >> 12) & 0x0F) as u8) >= 128) by (bit_vector);
    assert((0xF0u8 | ((v >> 18) & 0x7) as u8) >= 128) by (bit_vector);
    assert((0x80u8 | (v & 0x3F) as u8) >= 128) by (bit_vector);
    assert((0x80u8 | ((v >> 6) & 0x3F) as u8) >= 128) by (bit_vector);
    assert((0x80u8 | ((v >> 12) & 0x3F) as u8) >= 128) by (bit_vector);
    let bytes = encode_scalar(v);
    if v <= 0x7f {
        assert(bytes[0] as int == c as int);
    } else {
        assert(forall|i: int| 0 <= i < bytes.len() ==> #[trigger] bytes[i] >= 128);
    }
}

/// Whether a character may stand in a header: any but the control characters, of which only the
/// tab may.
pub open spec fn allowed_in_header(c: char) -> bool {
    c == '\t' || (c as int >= 32 && c as int != 127)
}

/// The bytes of a text may stand in a header if its characters may, and only then.
proof fn lemma_bytes_of_a_text(text: Seq<char>)
    ensures
        valid_header_value(encode_utf8(text)) <==> (forall|i: int|
            0 <= i < text.len() ==> allowed_in_header(#[trigger] text[i])),
    decreases text.len(),
{
    if text.len() > 0 {
        let rest = text.drop_first();
        let first = encode_scalar(text[0] as u32);
        let others = encode_utf8(rest);
        let bytes = encode_utf8(text);
        lemma_bytes_of_a_char(text[0]);
        lemma_bytes_of_a_text(rest);
        assert(bytes == first + others);
        assert(forall|i: int| 0 <= i < first.len() ==> #[trigger] first[i] == bytes[i]);
        assert(forall|i: int|
            0 <= i < others.len() ==> #[trigger] others[i] == bytes[first.len() + i]);
        assert(forall|i: int| 0 <= i < rest.len() ==> #[trigger] rest[i] == text[i + 1]);
        if valid_header_value(bytes) {
            assert(valid_header_value(first));
            assert(valid_header_value(others));
            assert forall|i: int| 0 <= i < text.len() implies allowed_in_header(
                #[trigger] text[i],
            ) by {
                if i > 0 {
                    assert(rest[i - 1] == text[i]);
                }
            }
        }
        if forall|i: int| 0 <= i < text.len() ==> allowed_in_header(#[trigger] text[i]) {
            assert(allowed_in_header(text[0]));
            assert(valid_header_value(first) && valid_header_value(others));
            assert forall|i: int| 0 <= i < bytes.len() implies (#[trigger] bytes[i] >= 32
                && bytes[i] != 127) || bytes[i] == 9 by {
                if i < first.len() {
                    assert(first[i] == bytes[i]);
                } else {
                    assert(others[i - first.len()] == bytes[i]);
                }
            }
        }
    }
}

/// A token can stand in a header exactly if none of its characters is a control character other
/// than the tab.
pub proof fn law_token_fits_unless_it_has_controls(token: Seq<char>)
    ensures
        fits_header(token) <==> (forall|i: int|
            0 <= i < token.len() ==> allowed_in_header(#[trigger] token[i])),
{
    reveal_strlit("Bearer ");
    let text = bearer(token);
    lemma_bytes_of_a_text(text);
    assert(forall|i: int| 0 <= i < token.len() ==> #[trigger] token[i] == text[i + 7]);
    if forall|i: int| 0 <= i < token.len() ==> allowed_in_header(#[trigger] token[i]) {
        assert forall|i: int| 0 <= i < text.len() implies allowed_in_header(#[trigger] text[i]) by {
            if i >= 7 {
                assert(token[i - 7] == text[i]);
            }
        }
    }
}

/// The credentials of a request are the token, whatever it is, after the word for it; what is
/// accepted depends on the API alone. Each header has one value.
pub proof fn law_headers_are_spelled_out(api_type: GitHubApiType, token: Seq<char>)
    ensures
        base_entries(api_type, token)["authorization"@] == seq![encode_utf8("Bearer "@ + token)],
        base_entries(api_type, token)["user-agent"@] == seq![encode_utf8("ghommit"@)],
        base_entries(api_type, token)["accept"@] == seq![
            encode_utf8(
                if api_type is REST {
                    "application/vnd.github+json"@
                } else {
                    "application/json"@
                },
            ),
        ],
        api_type is REST ==> base_entries(api_type, token)["x-github-api-version"@] == seq![
            encode_utf8("2022-11-28"@),
        ],
        api_type is GraphQL ==> !base_entries(api_type, token).dom().contains(
            "x-github-api-version"@,
        ),
        token_message() == "Unable to create header value with JWT string"@,
{
    law_headers_of_a_request(api_type, token);
    reveal_strlit("accept");
    reveal_strlit("authorization");
    reveal_strlit("user-agent");
    reveal_strlit("x-github-api-version");
    assert("accept"@.len() == 6 && "authorization"@.len() == 13 && "user-agent"@.len() == 10
        && "x-github-api-version"@.len() == 20);
}

/// The headers of a request tell the tokens of two requests apart.
pub proof fn law_headers_determine_token(api_type: GitHubApiType, a: Seq<char>, b: Seq<char>)
    requires
        base_entries(api_type, a) == base_entries(api_type, b),
    ensures
        a == b,
{
    law_headers_are_spelled_out(api_type, a);
    law_headers_are_spelled_out(api_type, b);
    let x = "Bearer "@ + a;
    let y = "Bearer "@ + b;
    assert(seq![encode_utf8(x)][0] == seq![encode_utf8(y)][0]);
    encode_utf8_decode_utf8(x);
    encode_utf8_decode_utf8(y);
    assert(x == y);
    assert(a =~= x.skip("Bearer "@.len() as int));
    assert(b =~= y.skip("Bearer "@.len() as int));
}

} // verus!
