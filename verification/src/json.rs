//! JSON values and their compact text.
//!
//! [`Json`] is the mathematical value and [`render`] its text: no whitespace, and the members
//! of an object in the order in which they are listed. [`JsonText`] is the executable side, a
//! text that is known to be the rendering of a value.

use vstd::prelude::*;

use crate::text::decimal_text;

verus! {

/// A JSON value. The members of an object keep their order.
pub enum Json {
    Null,
    Number(nat),
    Text(Seq<char>),
    Array(Seq<Json>),
    Object(Seq<(Seq<char>, Json)>),
}

/// A lower-case hexadecimal digit.
pub open spec fn hex_digit(d: nat) -> char {
    if d < 10 {
        (48 + d) as char
    } else {
        (87 + d) as char
    }
}

/// How a character stands between the quotes of a JSON string.
pub open spec fn escape_char(c: char) -> Seq<char> {
    if c == '"' {
        seq!['\\', '"']
    } else if c == '\\' {
        seq!['\\', '\\']
    } else if c == '\u{8}' {
        seq!['\\', 'b']
    } else if c == '\u{c}' {
        seq!['\\', 'f']
    } else if c == '\n' {
        seq!['\\', 'n']
    } else if c == '\r' {
        seq!['\\', 'r']
    } else if c == '\t' {
        seq!['\\', 't']
    } else if (c as nat) < 32 {
        seq!['\\', 'u', '0', '0', hex_digit(c as nat / 16), hex_digit(c as nat % 16)]
    } else {
        seq![c]
    }
}

/// A string's characters, each as it stands between quotes.
pub open spec fn escaped(s: Seq<char>) -> Seq<char>
    decreases s.len(),
{
    if s.len() == 0 {
        seq![]
    } else {
        escape_char(s[0]) + escaped(s.skip(1))
    }
}

/// A JSON string literal.
pub open spec fn quoted(s: Seq<char>) -> Seq<char> {
    seq!['"'] + escaped(s) + seq!['"']
}

/// The compact text of a JSON value.
pub open spec fn render(value: Json) -> Seq<char>
    decreases value,
{
    match value {
        Json::Null => "null"@,
        Json::Number(n) => crate::text::decimal(n),
        Json::Text(s) => quoted(s),
        Json::Array(items) => seq!['['] + render_items(items) + seq![']'],
        Json::Object(members) => seq!['{'] + render_members(members) + seq!['}'],
    }
}

/// The elements of an array, with commas between them.
pub open spec fn render_items(items: Seq<Json>) -> Seq<char>
    decreases items,
{
    if items.len() == 0 {
        seq![]
    } else if items.len() == 1 {
        render(items[0])
    } else {
        render(items[0]) + seq![','] + render_items(items.subrange(1, items.len() as int))
    }
}

/// The members of an object, with commas between them.
pub open spec fn render_members(members: Seq<(Seq<char>, Json)>) -> Seq<char>
    decreases members,
{
    if members.len() == 0 {
        seq![]
    } else if members.len() == 1 {
        quoted(members[0].0) + seq![':'] + render(members[0].1)
    } else {
        quoted(members[0].0) + seq![':'] + render(members[0].1) + seq![',']
            + render_members(members.subrange(1, members.len() as int))
    }
}

/// A string, or `null` where there is none.
pub open spec fn optional_text(s: Option<String>) -> Json {
    match s {
        Some(s) => Json::Text(s@),
        None => Json::Null,
    }
}

/// Adding an element to an array adds its text, after a comma if it is not the first.
proof fn lemma_render_items_push(items: Seq<Json>, item: Json)
    ensures
        render_items(items.push(item)) == (if items.len() == 0 {
            render(item)
        } else {
            render_items(items) + seq![','] + render(item)
        }),
    decreases items.len(),
{
    let all = items.push(item);
    if items.len() > 0 {
        let rest = items.subrange(1, items.len() as int);
        assert(all.subrange(1, all.len() as int) =~= rest.push(item));
        lemma_render_items_push(rest, item);
        assert(render_items(all) =~= render_items(items) + seq![','] + render(item));
    }
}

/// Adding a member to an object adds its text, after a comma if it is not the first.
proof fn lemma_render_members_push(members: Seq<(Seq<char>, Json)>, member: (Seq<char>, Json))
    ensures
        render_members(members.push(member)) == (if members.len() == 0 {
            quoted(member.0) + seq![':'] + render(member.1)
        } else {
            render_members(members) + seq![','] + (quoted(member.0) + seq![':'] + render(member.1))
        }),
    decreases members.len(),
{
    let all = members.push(member);
    if members.len() > 0 {
        let rest = members.subrange(1, members.len() as int);
        assert(all.subrange(1, all.len() as int) =~= rest.push(member));
        lemma_render_members_push(rest, member);
        assert(render_members(all) =~= render_members(members) + seq![','] + (quoted(member.0)
            + seq![':'] + render(member.1)));
    }
}

#[verifier::external_type_specification]
#[verifier::external_body]
pub struct ExJsonError(serde_json::Error);

/// `serde_json::to_string` on a string slice: the JSON string literal for it. Writing a string
/// into memory cannot fail, so there always is one.
#[verifier::external_body]
fn string_literal(s: &str) -> (r: Result<String, serde_json::Error>)
    ensures
        r is Ok,
        r->Ok_0@ == quoted(s@),
{
    serde_json::to_string(s)
}

/// A text that is the rendering of a JSON value, which is its view.
pub struct JsonText {
    text: String,
    value: Ghost<Json>,
}

impl View for JsonText {
    type V = Json;

    closed spec fn view(&self) -> Json {
        self.value@
    }
}

impl JsonText {
    #[verifier::type_invariant]
    spec fn is_rendering(&self) -> bool {
        self.text@ == render(self.value@)
    }

    /// The value `null`.
    pub fn null() -> (json: JsonText)
        ensures
            json@ == Json::Null,
    {
        JsonText { text: "null".to_owned(), value: Ghost(Json::Null) }
    }

    /// A number.
    pub fn number(n: u128) -> (json: JsonText)
        ensures
            json@ == Json::Number(n as nat),
    {
        JsonText { text: decimal_text(n), value: Ghost(Json::Number(n as nat)) }
    }

    /// A string.
    pub fn string(s: &str) -> (json: JsonText)
        ensures
            json@ == Json::Text(s@),
    {
        JsonText { text: string_literal(s).unwrap(), value: Ghost(Json::Text(s@)) }
    }

    /// A string, or `null` if there is none.
    pub fn optional_string(s: &Option<String>) -> (json: JsonText)
        ensures
            json@ == optional_text(*s),
    {
        match s {
            Some(s) => JsonText::string(s.as_str()),
            None => JsonText::null(),
        }
    }

    /// An array of the given elements.
    pub fn array(items: Vec<JsonText>) -> (json: JsonText)
        ensures
            json@ == Json::Array(items@.map_values(|item: JsonText| item@)),
    {
        let ghost values = items@.map_values(|item: JsonText| item@);
        let mut text = "[".to_owned();
        let mut i: usize = 0;
        proof {
            reveal_strlit("[");
            reveal_strlit("]");
            reveal_strlit(",");
            assert(values.take(0) =~= seq![]);
            assert(text@ =~= seq!['['] + render_items(values.take(0)));
        }
        while i < items.len()
            invariant
                i <= items.len(),
                values == items@.map_values(|item: JsonText| item@),
                text@ == seq!['['] + render_items(values.take(i as int)),
                ","@ == seq![','],
            decreases items.len() - i,
        {
            let item = &items[i];
            proof {
                use_type_invariant(item);
                assert(values.take(i + 1) =~= values.take(i as int).push(item@));
                lemma_render_items_push(values.take(i as int), item@);
            }
            if i > 0 {
                text.append(",");
            }
            text.append(item.text.as_str());
            i = i + 1;
            assert(text@ =~= seq!['['] + render_items(values.take(i as int)));
        }
        text.append("]");
        proof {
            assert(values.take(i as int) =~= values);
            assert("]"@ =~= seq![']']);
        }
        JsonText { text, value: Ghost(Json::Array(values)) }
    }

    /// An object with the given members, in the given order.
    pub fn object(members: Vec<(&str, JsonText)>) -> (json: JsonText)
        ensures
            json@ == Json::Object(members@.map_values(|m: (&str, JsonText)| (m.0@, m.1@))),
    {
        let ghost values = members@.map_values(|m: (&str, JsonText)| (m.0@, m.1@));
        let mut text = "{".to_owned();
        let mut i: usize = 0;
        proof {
            reveal_strlit("{");
            reveal_strlit("}");
            reveal_strlit(",");
            reveal_strlit(":");
            assert(values.take(0) =~= seq![]);
            assert(text@ =~= seq!['{'] + render_members(values.take(0)));
        }
        while i < members.len()
            invariant
                i <= members.len(),
                values == members@.map_values(|m: (&str, JsonText)| (m.0@, m.1@)),
                text@ == seq!['{'] + render_members(values.take(i as int)),
                ","@ == seq![','],
                ":"@ == seq![':'],
            decreases members.len() - i,
        {
            let member = &members[i];
            proof {
                use_type_invariant(&member.1);
                assert(values.take(i + 1) =~= values.take(i as int).push((member.0@, member.1@)));
                lemma_render_members_push(values.take(i as int), (member.0@, member.1@));
            }
            if i > 0 {
                text.append(",");
            }
            let name = string_literal(member.0).unwrap();
            text.append(name.as_str());
            text.append(":");
            text.append(member.1.text.as_str());
            i = i + 1;
            assert(text@ =~= seq!['{'] + render_members(values.take(i as int)));
        }
        text.append("}");
        proof {
            assert(values.take(i as int) =~= values);
            assert("}"@ =~= seq!['}']);
        }
        JsonText { text, value: Ghost(Json::Object(values)) }
    }

    /// The text itself.
    pub fn into_string(self) -> (text: String)
        ensures
            text@ == render(self@),
    {
        proof {
            use_type_invariant(&self);
        }
        self.text
    }
}

} // verus!
