//! JSON texts read back.
//!
//! The functions here read a text from the left, by the grammar of JSON, and know nothing of how
//! it was written. Each returns what it has read and the text that is left over.

use vstd::prelude::*;

use crate::json::{Json, escape_char, escaped, quoted, render, render_items, render_members};
use crate::json_laws::{
    after_first_item, after_first_member, delimited, lemma_first_char, lemma_first_item,
    lemma_first_member,
};
use crate::text::decimal;
use crate::text_laws::{is_shortest, law_decimal_reads_back, number_read};

verus! {

/// The value of a hexadecimal digit, in either case.
pub open spec fn hex_read(c: char) -> Option<int> {
    if '0' <= c <= '9' {
        Some(c as int - '0' as int)
    } else if 'a' <= c <= 'f' {
        Some(c as int - 'a' as int + 10)
    } else if 'A' <= c <= 'F' {
        Some(c as int - 'A' as int + 10)
    } else {
        None
    }
}

/// The character that a `\u` stands for, with the four digits behind it.
pub open spec fn code_read(text: Seq<char>) -> Option<char> {
    match (hex_read(text[2]), hex_read(text[3]), hex_read(text[4]), hex_read(text[5])) {
        (Some(a), Some(b), Some(c), Some(d)) => {
            let code = ((a * 16 + b) * 16 + c) * 16 + d;
            if 0xd800 <= code <= 0xdfff {
                None
            } else {
                Some(code as char)
            }
        },
        _ => None,
    }
}

/// What a backslash and the character behind it stand for.
pub open spec fn escape_read(c: char) -> Option<char> {
    if c == '"' || c == '\\' || c == '/' {
        Some(c)
    } else if c == 'b' {
        Some('\u{8}')
    } else if c == 'f' {
        Some('\u{c}')
    } else if c == 'n' {
        Some('\n')
    } else if c == 'r' {
        Some('\r')
    } else if c == 't' {
        Some('\t')
    } else {
        None
    }
}

/// Reads a character of a string. Quotes, backslashes and control characters have to be escaped.
pub open spec fn char_read(text: Seq<char>) -> Option<(char, Seq<char>)> {
    if text.len() == 0 || text[0] == '"' || (text[0] as int) < 32 {
        None
    } else if text[0] != '\\' {
        Some((text[0], text.skip(1)))
    } else if text.len() >= 6 && text[1] == 'u' {
        match code_read(text) {
            Some(c) => Some((c, text.skip(6))),
            None => None,
        }
    } else if text.len() >= 2 {
        match escape_read(text[1]) {
            Some(c) => Some((c, text.skip(2))),
            None => None,
        }
    } else {
        None
    }
}

/// Reads the characters of a string up to the closing quote, and the quote.
pub open spec fn chars_read(text: Seq<char>) -> Option<(Seq<char>, Seq<char>)>
    decreases text.len(),
{
    if text.len() == 0 {
        None
    } else if text[0] == '"' {
        Some((Seq::empty(), text.skip(1)))
    } else {
        match char_read(text) {
            Some((c, left)) => if left.len() < text.len() {
                match chars_read(left) {
                    Some((rest, end)) => Some((seq![c] + rest, end)),
                    None => None,
                }
            } else {
                None
            },
            None => None,
        }
    }
}

/// Reads a string with its quotes.
pub open spec fn string_read(text: Seq<char>) -> Option<(Seq<char>, Seq<char>)> {
    if text.len() > 0 && text[0] == '"' {
        chars_read(text.skip(1))
    } else {
        None
    }
}

/// How many digits a text begins with.
pub open spec fn leading_digits(text: Seq<char>) -> nat
    decreases text.len(),
{
    if text.len() > 0 && '0' <= text[0] <= '9' {
        1 + leading_digits(text.skip(1))
    } else {
        0
    }
}

/// Reads a whole number, which has no leading zeros.
pub open spec fn whole_read(text: Seq<char>) -> Option<(nat, Seq<char>)> {
    let n = leading_digits(text) as int;
    if n > 0 && is_shortest(text.take(n)) {
        Some((number_read(text.take(n), 10), text.skip(n)))
    } else {
        None
    }
}

/// Reads a value.
pub open spec fn value_read(text: Seq<char>) -> Option<(Json, Seq<char>)>
    decreases text.len(), 0int,
{
    if text.len() == 0 {
        None
    } else if text[0] == '"' {
        match string_read(text) {
            Some((s, left)) => Some((Json::Text(s), left)),
            None => None,
        }
    } else if text[0] == '[' {
        if text.len() > 1 && text[1] == ']' {
            Some((Json::Array(Seq::empty()), text.skip(2)))
        } else {
            match items_read(text.skip(1)) {
                Some((items, left)) => Some((Json::Array(items), left)),
                None => None,
            }
        }
    } else if text[0] == '{' {
        if text.len() > 1 && text[1] == '}' {
            Some((Json::Object(Seq::empty()), text.skip(2)))
        } else {
            match members_read(text.skip(1)) {
                Some((members, left)) => Some((Json::Object(members), left)),
                None => None,
            }
        }
    } else if text.len() >= 4 && text.take(4) == seq!['n', 'u', 'l', 'l'] {
        Some((Json::Null, text.skip(4)))
    } else {
        match whole_read(text) {
            Some((n, left)) => Some((Json::Number(n), left)),
            None => None,
        }
    }
}

/// Reads the elements of an array, with commas between them, and the closing bracket.
pub open spec fn items_read(text: Seq<char>) -> Option<(Seq<Json>, Seq<char>)>
    decreases text.len(), 1int,
{
    match value_read(text) {
        Some((item, left)) => if 0 < left.len() < text.len() {
            if left[0] == ']' {
                Some((seq![item], left.skip(1)))
            } else if left[0] == ',' {
                match items_read(left.skip(1)) {
                    Some((rest, end)) => Some((seq![item] + rest, end)),
                    None => None,
                }
            } else {
                None
            }
        } else {
            None
        },
        None => None,
    }
}

/// Reads the members of an object, with commas between them, and the closing brace.
pub open spec fn members_read(text: Seq<char>) -> Option<(Seq<(Seq<char>, Json)>, Seq<char>)>
    decreases text.len(), 1int,
{
    match string_read(text) {
        Some((name, after)) => if 0 < after.len() < text.len() && after[0] == ':' {
            match value_read(after.skip(1)) {
                Some((value, left)) => if 0 < left.len() < text.len() {
                    if left[0] == '}' {
                        Some((seq![(name, value)], left.skip(1)))
                    } else if left[0] == ',' {
                        match members_read(left.skip(1)) {
                            Some((rest, end)) => Some((seq![(name, value)] + rest, end)),
                            None => None,
                        }
                    } else {
                        None
                    }
                } else {
                    None
                },
                None => None,
            }
        } else {
            None
        },
        None => None,
    }
}

/// A character that was escaped can be read back.
proof fn lemma_escaped_char_reads_back(c: char, s: Seq<char>)
    ensures
        escape_char(c).len() > 0,
        (escape_char(c) + s)[0] != '"',
        char_read(escape_char(c) + s) == Some((c, s)),
{
    let text = escape_char(c) + s;
    let n = escape_char(c).len() as int;
    assert(text.skip(n) =~= s);
    assert(text[0] == escape_char(c)[0]);
    if n > 1 {
        assert(text[1] == escape_char(c)[1]);
    }
    if n == 6 {
        assert(text[2] == '0' && text[3] == '0');
        assert(text[4] == escape_char(c)[4]);
        assert(text[5] == escape_char(c)[5]);
        let high = c as int / 16;
        let low = c as int % 16;
        assert(hex_read(text[4]) == Some(high));
        assert(hex_read(text[5]) == Some(low));
    }
}

/// The characters of a string can be read back.
proof fn lemma_escaped_reads_back(content: Seq<char>, s: Seq<char>)
    ensures
        chars_read(escaped(content) + seq!['"'] + s) == Some((content, s)),
    decreases content.len(),
{
    let text = escaped(content) + seq!['"'] + s;
    if content.len() == 0 {
        assert(text.skip(1) =~= s);
        assert(content =~= Seq::empty());
    } else {
        let rest = content.skip(1);
        let left = escaped(rest) + seq!['"'] + s;
        assert(text =~= escape_char(content[0]) + left);
        lemma_escaped_char_reads_back(content[0], left);
        lemma_escaped_reads_back(rest, s);
        assert(seq![content[0]] + rest =~= content);
    }
}

/// A string literal reads back as the string.
pub proof fn law_string_reads_back(content: Seq<char>, s: Seq<char>)
    ensures
        string_read(quoted(content) + s) == Some((content, s)),
{
    let text = quoted(content) + s;
    assert(text.skip(1) =~= escaped(content) + seq!['"'] + s);
    lemma_escaped_reads_back(content, s);
}

/// The digits that a text begins with end where something else begins.
proof fn lemma_leading_digits(number: Seq<char>, s: Seq<char>)
    requires
        forall|i: int| 0 <= i < number.len() ==> '0' <= #[trigger] number[i] <= '9',
        delimited(s),
    ensures
        leading_digits(number + s) == number.len(),
    decreases number.len(),
{
    let text = number + s;
    if number.len() > 0 {
        let rest = number.skip(1);
        assert(forall|i: int| 0 <= i < rest.len() ==> #[trigger] rest[i] == number[i + 1]);
        assert(text.skip(1) =~= rest + s);
        assert(text[0] == number[0]);
        lemma_leading_digits(rest, s);
    } else {
        assert(text =~= s);
    }
}

/// A number reads back from its text.
proof fn lemma_whole_reads_back(n: nat, s: Seq<char>)
    requires
        delimited(s),
    ensures
        whole_read(decimal(n) + s) == Some((n, s)),
{
    let number = decimal(n);
    law_decimal_reads_back(n);
    assert forall|i: int| 0 <= i < number.len() implies '0' <= #[trigger] number[i] <= '9' by {
        assert(48 <= number[i] as int);
    }
    lemma_leading_digits(number, s);
    assert((number + s).take(number.len() as int) =~= number);
    assert((number + s).skip(number.len() as int) =~= s);
}

/// An array reads back if its elements do.
proof fn lemma_array_reads_back(items: Seq<Json>, s: Seq<char>)
    requires
        items.len() > 0 ==> items_read(render_items(items) + seq![']'] + s) == Some((items, s)),
    ensures
        value_read(render(Json::Array(items)) + s) == Some((Json::Array(items), s)),
{
    let text = render(Json::Array(items)) + s;
    let inner = render_items(items) + seq![']'] + s;
    assert(text =~= seq!['['] + inner);
    assert(text.skip(1) =~= inner);
    assert(text[0] == '[' && text[1] == inner[0]);
    if items.len() == 0 {
        assert(inner[0] == ']');
        assert(text.skip(2) =~= s);
        assert(items =~= Seq::empty());
    } else {
        lemma_first_item(items, s);
    }
}

/// An object reads back if its members do.
proof fn lemma_object_reads_back(members: Seq<(Seq<char>, Json)>, s: Seq<char>)
    requires
        members.len() > 0 ==> members_read(render_members(members) + seq!['}'] + s) == Some(
            (members, s),
        ),
    ensures
        value_read(render(Json::Object(members)) + s) == Some((Json::Object(members), s)),
{
    let text = render(Json::Object(members)) + s;
    let inner = render_members(members) + seq!['}'] + s;
    assert(text =~= seq!['{'] + inner);
    assert(text.skip(1) =~= inner);
    assert(text[0] == '{' && text[1] == inner[0]);
    if members.len() == 0 {
        assert(inner[0] == '}');
        assert(text.skip(2) =~= s);
        assert(members =~= Seq::empty());
    } else {
        lemma_first_member(members, s);
    }
}

/// A value that holds no others reads back.
proof fn lemma_single_value_reads_back(value: Json, s: Seq<char>)
    requires
        delimited(s),
        !(value is Array) && !(value is Object),
    ensures
        value_read(render(value) + s) == Some((value, s)),
{
    let text = render(value) + s;
    lemma_first_char(value);
    assert(text[0] == render(value)[0]);
    match value {
        Json::Null => {
            reveal_strlit("null");
            assert(text.take(4) =~= seq!['n', 'u', 'l', 'l']);
            assert(text.skip(4) =~= s);
        },
        Json::Number(n) => {
            if text.len() >= 4 {
                assert(text.take(4)[0] == text[0]);
            }
            lemma_whole_reads_back(n, s);
        },
        Json::Text(content) => {
            law_string_reads_back(content, s);
        },
        _ => {},
    }
}

/// A value reads back from the text that begins with its own.
proof fn lemma_value_reads_back(value: Json, s: Seq<char>)
    requires
        delimited(s),
    ensures
        value_read(render(value) + s) == Some((value, s)),
    decreases value, 1int,
{
    match value {
        Json::Array(items) => {
            if items.len() > 0 {
                lemma_items_read_back(items, s);
            }
            lemma_array_reads_back(items, s);
        },
        Json::Object(members) => {
            if members.len() > 0 {
                lemma_members_read_back(members, s);
            }
            lemma_object_reads_back(members, s);
        },
        _ => {
            lemma_single_value_reads_back(value, s);
        },
    }
}

/// The elements of an array read back from their text.
proof fn lemma_items_read_back(items: Seq<Json>, s: Seq<char>)
    requires
        items.len() > 0,
    ensures
        items_read(render_items(items) + seq![']'] + s) == Some((items, s)),
    decreases items, 0int,
{
    let text = render_items(items) + seq![']'] + s;
    let left = after_first_item(items, s);
    lemma_first_item(items, s);
    lemma_first_char(items[0]);
    lemma_value_reads_back(items[0], left);
    assert(value_read(text) == Some((items[0], left)));
    if items.len() == 1 {
        assert(left.skip(1) =~= s);
        assert(seq![items[0]] =~= items);
    } else {
        let rest = items.subrange(1, items.len() as int);
        assert(left.skip(1) =~= render_items(rest) + seq![']'] + s);
        lemma_items_read_back(rest, s);
        assert(seq![items[0]] + rest =~= items);
    }
}

/// The members of an object read back from their text.
proof fn lemma_members_read_back(members: Seq<(Seq<char>, Json)>, s: Seq<char>)
    requires
        members.len() > 0,
    ensures
        members_read(render_members(members) + seq!['}'] + s) == Some((members, s)),
    decreases members, 0int,
{
    let text = render_members(members) + seq!['}'] + s;
    let (name, value) = members[0];
    let left = after_first_member(members, s);
    let after = seq![':'] + (render(value) + left);
    lemma_first_member(members, s);
    law_string_reads_back(name, after);
    assert(string_read(text) == Some((name, after)));
    assert(after.skip(1) =~= render(value) + left);
    lemma_value_reads_back(value, left);
    if members.len() == 1 {
        assert(left.skip(1) =~= s);
        assert(seq![members[0]] =~= members);
    } else {
        let rest = members.subrange(1, members.len() as int);
        assert(left.skip(1) =~= render_members(rest) + seq!['}'] + s);
        lemma_members_read_back(rest, s);
        assert(seq![members[0]] + rest =~= members);
    }
}

/// Whoever reads the text of a value by the grammar of JSON reads that value, and all of the
/// text.
pub proof fn law_text_reads_back(value: Json)
    ensures
        value_read(render(value)) == Some((value, Seq::<char>::empty())),
{
    let end = Seq::<char>::empty();
    assert(render(value) + end =~= render(value));
    lemma_value_reads_back(value, end);
}

/// Whether a character stands for itself in a string literal.
pub open spec fn is_plain(c: char) -> bool {
    c as int >= 32 && c != '"' && c != '\\'
}

/// A text of plain characters stands between the quotes as it is.
pub proof fn law_plain_text_stays_as_it_is(content: Seq<char>)
    requires
        forall|i: int| 0 <= i < content.len() ==> is_plain(#[trigger] content[i]),
    ensures
        escaped(content) == content,
        quoted(content) == seq!['"'] + content + seq!['"'],
    decreases content.len(),
{
    if content.len() > 0 {
        let rest = content.skip(1);
        assert(forall|i: int| 0 <= i < rest.len() ==> #[trigger] rest[i] == content[i + 1]);
        assert(is_plain(content[0]));
        law_plain_text_stays_as_it_is(rest);
        assert(seq![content[0]] + rest =~= content);
    } else {
        assert(escaped(content) =~= content);
    }
}

/// The literal of two texts in a row is made of the literals of both.
pub proof fn law_escaping_goes_char_by_char(a: Seq<char>, b: Seq<char>)
    ensures
        escaped(a + b) == escaped(a) + escaped(b),
    decreases a.len(),
{
    if a.len() > 0 {
        assert((a + b).skip(1) =~= a.skip(1) + b);
        law_escaping_goes_char_by_char(a.skip(1), b);
        assert(escaped(a + b) =~= escaped(a) + escaped(b));
    } else {
        assert(a + b =~= b);
        assert(escaped(a + b) =~= escaped(a) + escaped(b));
    }
}

} // verus!
