//! HTTP status codes.

use vstd::prelude::*;

use crate::text::decimal;

verus! {

/// How a status code is shown: its number and, if it has one, its name.
pub uninterp spec fn status_text(code: u16) -> Seq<char>;

/// Whether a text begins with the number of a status code and a space.
pub open spec fn begins_with_number(text: Seq<char>, code: u16) -> bool {
    (decimal(code as nat) + " "@).is_prefix_of(text)
}

/// `reqwest::StatusCode`'s `Display`: the number of the status code, a space, and the reason
/// phrase that belongs to it. The contract says how the text begins, gives it a name, and leaves
/// the table of reason phrases unsaid.
#[verifier::external_body]
fn display_status(code: u16) -> (text: String)
    requires
        100 <= code <= 999,
    ensures
        text@ == status_text(code),
        begins_with_number(text@, code),
{
    reqwest::StatusCode::from_u16(code).unwrap().to_string()
}

/// An HTTP status code, a number of three digits.
#[derive(Debug)]
pub struct Status {
    code: u16,
}

impl View for Status {
    type V = u16;

    closed spec fn view(&self) -> u16 {
        self.code
    }
}

impl Status {
    #[verifier::type_invariant]
    spec fn has_three_digits(&self) -> bool {
        100 <= self.code <= 999
    }

    /// The status code with the given number, if there is one.
    pub fn from_u16(code: u16) -> (status: Option<Status>)
        ensures
            status is Some <==> 100 <= code <= 999,
            status matches Some(status) ==> status@ == code,
    {
        if 100 <= code && code <= 999 {
            Some(Status { code })
        } else {
            None
        }
    }

    /// Whether the status code is 201, which GitHub answers with when something was created.
    pub fn is_created(&self) -> (created: bool)
        ensures
            created == (self@ == 201),
    {
        self.code == 201
    }

    /// The number of the status code and its name.
    pub fn text(&self) -> (text: String)
        ensures
            text@ == status_text(self@),
            begins_with_number(text@, self@),
    {
        proof {
            use_type_invariant(self);
        }
        display_status(self.code)
    }
}

/// The message for an answer that is not the hoped-for one: its status, what was tried, and its
/// body, if that could be read.
pub open spec fn unexpected_status(
    status: Seq<char>,
    activity: Seq<char>,
    body: Option<Seq<char>>,
) -> Seq<char> {
    "Unexpected status code "@ + status + " while "@ + activity + (match body {
        Some(text) => ": "@ + text,
        None => "; body could not be decoded as text"@,
    })
}

/// Writes the message for an answer that is not the hoped-for one.
pub fn unexpected_status_message(status: &str, activity: &str, body: Option<&str>) -> (message:
    String)
    ensures
        message@ == unexpected_status(
            status@,
            activity@,
            match body {
                Some(text) => Some(text@),
                None => None,
            },
        ),
{
    let mut message = "Unexpected status code ".to_owned();
    message.append(status);
    message.append(" while ");
    message.append(activity);
    match body {
        Some(text) => {
            message.append(": ");
            message.append(text);
        },
        None => {
            message.append("; body could not be decoded as text");
        },
    }
    proof {
        let shown = match body {
            Some(text) => Some(text@),
            None => None,
        };
        assert(message@ =~= unexpected_status(status@, activity@, shown));
    }
    message
}

/// The message for an unhoped-for answer begins with the status, says what was tried, and ends
/// with the body, or says that there is none.
pub proof fn law_unexpected_status_tells_all(
    status: Seq<char>,
    activity: Seq<char>,
    body: Option<Seq<char>>,
)
    ensures
        ("Unexpected status code "@ + status + " while "@ + activity).is_prefix_of(
            unexpected_status(status, activity, body),
        ),
        body matches Some(text) ==> unexpected_status(status, activity, body)
            == "Unexpected status code "@ + status + " while "@ + activity + ": "@ + text,
        body is None ==> unexpected_status(status, activity, body) == "Unexpected status code "@
            + status + " while "@ + activity + "; body could not be decoded as text"@,
{
    let message = unexpected_status(status, activity, body);
    let start = "Unexpected status code "@ + status + " while "@ + activity;
    assert(start =~= message.take(start.len() as int));
    if let Some(text) = body {
        assert(message =~= start + ": "@ + text);
    }
}

} // verus!
