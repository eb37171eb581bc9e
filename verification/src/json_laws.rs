//! The text of a JSON value determines the value.

use vstd::prelude::*;

use crate::json::{Json, escape_char, escaped, quoted, render, render_items, render_members};
use crate::text::{decimal, digit_char};

verus! {

/// If two texts with the same length of head are equal, so are their heads and their tails.
proof fn lemma_split(a: Seq<char>, s: Seq<char>, b: Seq<char>, t: Seq<char>)
    requires
        a + s == b + t,
        a.len() == b.len(),
    ensures
        a == b,
        s == t,
{
    assert(a =~= (a + s).take(a.len() as int));
    assert(b =~= (b + t).take(a.len() as int));
    assert(s =~= (a + s).skip(a.len() as int));
    assert(t =~= (b + t).skip(a.len() as int));
}

/// An escaped character can be told from the text that begins with it.
proof fn lemma_escape_char_prefix(x: char, y: char, s: Seq<char>, t: Seq<char>)
    requires
        escape_char(x) + s == escape_char(y) + t,
    ensures
        x == y,
        s == t,
{
    let a = escape_char(x) + s;
    let b = escape_char(y) + t;
    assert(a[0] == escape_char(x)[0]);
    assert(b[0] == escape_char(y)[0]);
    if escape_char(x).len() > 1 && escape_char(y).len() > 1 {
        assert(a[1] == escape_char(x)[1]);
        assert(b[1] == escape_char(y)[1]);
        if escape_char(x).len() == 6 && escape_char(y).len() == 6 {
            assert(a[4] == escape_char(x)[4]);
            assert(b[4] == escape_char(y)[4]);
            assert(a[5] == escape_char(x)[5]);
            assert(b[5] == escape_char(y)[5]);
        }
    }
    assert(x == y);
    lemma_split(escape_char(x), s, escape_char(y), t);
}

/// A string can be told from the text that begins with it, up to the closing quote.
proof fn lemma_escaped_prefix(a: Seq<char>, b: Seq<char>, s: Seq<char>, t: Seq<char>)
    requires
        escaped(a) + seq!['"'] + s == escaped(b) + seq!['"'] + t,
    ensures
        a == b,
        s == t,
    decreases a.len(),
{
    let left = escaped(a) + seq!['"'] + s;
    let right = escaped(b) + seq!['"'] + t;
    if a.len() == 0 {
        assert(left[0] == '"');
        if b.len() > 0 {
            assert(right[0] == escape_char(b[0])[0]);
            assert(false);
        }
        assert(a =~= b);
        lemma_split(escaped(a) + seq!['"'], s, escaped(b) + seq!['"'], t);
    } else if b.len() == 0 {
        assert(right[0] == '"');
        assert(left[0] == escape_char(a[0])[0]);
        assert(false);
    } else {
        let ra = escaped(a.skip(1)) + seq!['"'] + s;
        let rb = escaped(b.skip(1)) + seq!['"'] + t;
        assert(left =~= escape_char(a[0]) + ra);
        assert(right =~= escape_char(b[0]) + rb);
        lemma_escape_char_prefix(a[0], b[0], ra, rb);
        lemma_escaped_prefix(a.skip(1), b.skip(1), s, t);
        assert(a =~= seq![a[0]] + a.skip(1));
        assert(b =~= seq![b[0]] + b.skip(1));
    }
}

/// A string literal can be told from the text that begins with it.
proof fn lemma_quoted_prefix(a: Seq<char>, b: Seq<char>, s: Seq<char>, t: Seq<char>)
    requires
        quoted(a) + s == quoted(b) + t,
    ensures
        a == b,
        s == t,
{
    let ra = escaped(a) + seq!['"'] + s;
    let rb = escaped(b) + seq!['"'] + t;
    assert(quoted(a) + s =~= seq!['"'] + ra);
    assert(quoted(b) + t =~= seq!['"'] + rb);
    lemma_split(seq!['"'], ra, seq!['"'], rb);
    lemma_escaped_prefix(a, b, s, t);
}

/// The digits of a number are digits, and there is at least one.
pub proof fn lemma_decimal_digits(n: nat)
    ensures
        decimal(n).len() > 0,
        forall|i: int| 0 <= i < decimal(n).len() ==> '0' <= #[trigger] decimal(n)[i] <= '9',
    decreases n,
{
    if n >= 10 {
        lemma_decimal_digits(n / 10);
    }
}

/// Different numbers have different decimal texts.
pub proof fn law_decimal_is_injective(n: nat, m: nat)
    ensures
        decimal(n) == decimal(m) ==> n == m,
    decreases n,
{
    if decimal(n) == decimal(m) {
        lemma_decimal_digits(n / 10);
        lemma_decimal_digits(m / 10);
        assert(decimal(n).last() == digit_char(n % 10));
        assert(decimal(m).last() == digit_char(m % 10));
        if n >= 10 && m >= 10 {
            assert(decimal(n).drop_last() =~= decimal(n / 10));
            assert(decimal(m).drop_last() =~= decimal(m / 10));
            law_decimal_is_injective(n / 10, m / 10);
        } else if n >= 10 {
            assert(decimal(n).len() == decimal(n / 10).len() + 1);
            assert(decimal(m).len() == 1);
        } else if m >= 10 {
            assert(decimal(m).len() == decimal(m / 10).len() + 1);
            assert(decimal(n).len() == 1);
        }
    }
}

/// What may follow a value inside a JSON text.
pub open spec fn delimited(s: Seq<char>) -> bool {
    s.len() == 0 || s[0] == ',' || s[0] == ']' || s[0] == '}'
}

/// A number can be told from the text that begins with it.
proof fn lemma_decimal_prefix(n: nat, m: nat, s: Seq<char>, t: Seq<char>)
    requires
        decimal(n) + s == decimal(m) + t,
        delimited(s),
        delimited(t),
    ensures
        n == m,
        s == t,
{
    lemma_decimal_digits(n);
    lemma_decimal_digits(m);
    let a = decimal(n);
    let b = decimal(m);
    if a.len() < b.len() {
        assert((a + s).len() == (b + t).len());
        assert((a + s)[a.len() as int] == s[0]);
        assert((b + t)[a.len() as int] == b[a.len() as int]);
        assert(false);
    }
    if b.len() < a.len() {
        assert((a + s).len() == (b + t).len());
        assert((b + t)[b.len() as int] == t[0]);
        assert((a + s)[b.len() as int] == a[b.len() as int]);
        assert(false);
    }
    lemma_split(a, s, b, t);
    law_decimal_is_injective(n, m);
}

/// The first character of a value's text tells what kind of value it is.
pub proof fn lemma_first_char(value: Json)
    ensures
        render(value).len() > 0,
        match value {
            Json::Null => render(value)[0] == 'n',
            Json::Number(_) => '0' <= render(value)[0] <= '9',
            Json::Text(_) => render(value)[0] == '"',
            Json::Array(_) => render(value)[0] == '[',
            Json::Object(_) => render(value)[0] == '{',
        },
{
    reveal_strlit("null");
    if let Json::Number(n) = value {
        lemma_decimal_digits(n);
    }
}

/// A value can be told from the text that begins with it.
proof fn lemma_value_prefix(a: Json, b: Json, s: Seq<char>, t: Seq<char>)
    requires
        render(a) + s == render(b) + t,
        delimited(s),
        delimited(t),
    ensures
        a == b,
        s == t,
    decreases a, 1int,
{
    lemma_first_char(a);
    lemma_first_char(b);
    assert((render(a) + s)[0] == render(a)[0]);
    assert((render(b) + t)[0] == render(b)[0]);
    match (a, b) {
        (Json::Null, Json::Null) => {
            lemma_split(render(a), s, render(b), t);
        },
        (Json::Number(n), Json::Number(m)) => {
            lemma_decimal_prefix(n, m, s, t);
        },
        (Json::Text(x), Json::Text(y)) => {
            lemma_quoted_prefix(x, y, s, t);
        },
        (Json::Array(x), Json::Array(y)) => {
            let ra = render_items(x) + seq![']'] + s;
            let rb = render_items(y) + seq![']'] + t;
            assert(render(a) + s =~= seq!['['] + ra);
            assert(render(b) + t =~= seq!['['] + rb);
            lemma_split(seq!['['], ra, seq!['['], rb);
            lemma_items_prefix(x, y, s, t);
        },
        (Json::Object(x), Json::Object(y)) => {
            let ra = render_members(x) + seq!['}'] + s;
            let rb = render_members(y) + seq!['}'] + t;
            assert(render(a) + s =~= seq!['{'] + ra);
            assert(render(b) + t =~= seq!['{'] + rb);
            lemma_split(seq!['{'], ra, seq!['{'], rb);
            lemma_members_prefix(x, y, s, t);
        },
        _ => {
            assert(false);
        },
    }
}

/// What follows the first element of an array, up to the end of a text that goes on with `s`.
pub open spec fn after_first_item(items: Seq<Json>, s: Seq<char>) -> Seq<char> {
    if items.len() == 1 {
        seq![']'] + s
    } else {
        seq![','] + (render_items(items.subrange(1, items.len() as int)) + seq![']'] + s)
    }
}

/// The text of an array's elements begins with the first.
pub proof fn lemma_first_item(items: Seq<Json>, s: Seq<char>)
    requires
        items.len() > 0,
    ensures
        render_items(items) + seq![']'] + s == render(items[0]) + after_first_item(items, s),
        (render_items(items) + seq![']'] + s)[0] == render(items[0])[0],
        (render_items(items) + seq![']'] + s)[0] != ']',
        delimited(after_first_item(items, s)),
{
    let value = render(items[0]);
    lemma_first_char(items[0]);
    if items.len() == 1 {
        assert(render_items(items) + seq![']'] + s =~= value + (seq![']'] + s));
    } else {
        let rest = render_items(items.subrange(1, items.len() as int));
        assert(render_items(items) + seq![']'] + s =~= value + (seq![','] + (rest + seq![']']
            + s)));
    }
}

/// The elements of an array can be told from the text up to the closing bracket.
proof fn lemma_items_prefix(a: Seq<Json>, b: Seq<Json>, s: Seq<char>, t: Seq<char>)
    requires
        render_items(a) + seq![']'] + s == render_items(b) + seq![']'] + t,
    ensures
        a == b,
        s == t,
    decreases a, 1int,
{
    if a.len() == 0 || b.len() == 0 {
        if a.len() > 0 {
            lemma_first_item(a, s);
            assert((render_items(b) + seq![']'] + t)[0] == ']');
        }
        if b.len() > 0 {
            lemma_first_item(b, t);
            assert((render_items(a) + seq![']'] + s)[0] == ']');
        }
        assert(a =~= b);
        lemma_split(render_items(a) + seq![']'], s, render_items(b) + seq![']'], t);
    } else {
        lemma_first_item(a, s);
        lemma_first_item(b, t);
        lemma_value_prefix(a[0], b[0], after_first_item(a, s), after_first_item(b, t));
        lemma_other_items_prefix(a, b, s, t);
    }
}

/// If two arrays begin with the same element and go on with the same text, they are the same.
proof fn lemma_other_items_prefix(a: Seq<Json>, b: Seq<Json>, s: Seq<char>, t: Seq<char>)
    requires
        a.len() > 0,
        b.len() > 0,
        a[0] == b[0],
        after_first_item(a, s) == after_first_item(b, t),
    ensures
        a == b,
        s == t,
    decreases a, 0int,
{
    let ta = a.subrange(1, a.len() as int);
    let tb = b.subrange(1, b.len() as int);
    assert(after_first_item(a, s)[0] == (if a.len() == 1 { ']' } else { ',' }));
    assert(after_first_item(b, t)[0] == (if b.len() == 1 { ']' } else { ',' }));
    if a.len() == 1 {
        lemma_split(seq![']'], s, seq![']'], t);
        assert(a =~= b);
    } else {
        lemma_split(
            seq![','],
            render_items(ta) + seq![']'] + s,
            seq![','],
            render_items(tb) + seq![']'] + t,
        );
        lemma_items_prefix(ta, tb, s, t);
        assert(a =~= seq![a[0]] + ta);
        assert(b =~= seq![b[0]] + tb);
    }
}

/// What follows the first member of an object, up to the end of a text that goes on with `s`.
pub open spec fn after_first_member(members: Seq<(Seq<char>, Json)>, s: Seq<char>) -> Seq<char> {
    if members.len() == 1 {
        seq!['}'] + s
    } else {
        seq![','] + (render_members(members.subrange(1, members.len() as int)) + seq!['}'] + s)
    }
}

/// The text of an object's members begins with the name and the value of the first.
pub proof fn lemma_first_member(members: Seq<(Seq<char>, Json)>, s: Seq<char>)
    requires
        members.len() > 0,
    ensures
        render_members(members) + seq!['}'] + s == quoted(members[0].0) + (seq![':'] + (render(
            members[0].1,
        ) + after_first_member(members, s))),
        (render_members(members) + seq!['}'] + s)[0] == '"',
        delimited(after_first_member(members, s)),
{
    let name = quoted(members[0].0);
    let value = render(members[0].1);
    if members.len() == 1 {
        assert(render_members(members) + seq!['}'] + s =~= name + (seq![':'] + (value + (seq!['}']
            + s))));
    } else {
        let rest = render_members(members.subrange(1, members.len() as int));
        assert(render_members(members) + seq!['}'] + s =~= name + (seq![':'] + (value + (seq![',']
            + (rest + seq!['}'] + s)))));
    }
}

/// The members of an object can be told from the text up to the closing brace.
proof fn lemma_members_prefix(
    a: Seq<(Seq<char>, Json)>,
    b: Seq<(Seq<char>, Json)>,
    s: Seq<char>,
    t: Seq<char>,
)
    requires
        render_members(a) + seq!['}'] + s == render_members(b) + seq!['}'] + t,
    ensures
        a == b,
        s == t,
    decreases a, 1int,
{
    if a.len() == 0 || b.len() == 0 {
        if a.len() > 0 {
            lemma_first_member(a, s);
            assert((render_members(b) + seq!['}'] + t)[0] == '}');
        }
        if b.len() > 0 {
            lemma_first_member(b, t);
            assert((render_members(a) + seq!['}'] + s)[0] == '}');
        }
        assert(a =~= b);
        lemma_split(render_members(a) + seq!['}'], s, render_members(b) + seq!['}'], t);
    } else {
        let ra = after_first_member(a, s);
        let rb = after_first_member(b, t);
        lemma_first_member(a, s);
        lemma_first_member(b, t);
        lemma_quoted_prefix(
            a[0].0,
            b[0].0,
            seq![':'] + (render(a[0].1) + ra),
            seq![':'] + (render(b[0].1) + rb),
        );
        lemma_split(seq![':'], render(a[0].1) + ra, seq![':'], render(b[0].1) + rb);
        lemma_value_prefix(a[0].1, b[0].1, ra, rb);
        lemma_other_members_prefix(a, b, s, t);
    }
}

/// If two objects begin with the same member and go on with the same text, they are the same.
proof fn lemma_other_members_prefix(
    a: Seq<(Seq<char>, Json)>,
    b: Seq<(Seq<char>, Json)>,
    s: Seq<char>,
    t: Seq<char>,
)
    requires
        a.len() > 0,
        b.len() > 0,
        a[0] == b[0],
        after_first_member(a, s) == after_first_member(b, t),
    ensures
        a == b,
        s == t,
    decreases a, 0int,
{
    let ta = a.subrange(1, a.len() as int);
    let tb = b.subrange(1, b.len() as int);
    assert(after_first_member(a, s)[0] == (if a.len() == 1 { '}' } else { ',' }));
    assert(after_first_member(b, t)[0] == (if b.len() == 1 { '}' } else { ',' }));
    if a.len() == 1 {
        lemma_split(seq!['}'], s, seq!['}'], t);
        assert(a =~= b);
    } else {
        lemma_split(
            seq![','],
            render_members(ta) + seq!['}'] + s,
            seq![','],
            render_members(tb) + seq!['}'] + t,
        );
        lemma_members_prefix(ta, tb, s, t);
        assert(a =~= seq![a[0]] + ta);
        assert(b =~= seq![b[0]] + tb);
    }
}

/// The text of a JSON value determines the value: two values with the same text are the same,
/// down to the order of the members of their objects.
pub proof fn law_text_determines_value(a: Json, b: Json)
    ensures
        render(a) == render(b) ==> a == b,
{
    if render(a) == render(b) {
        let end = Seq::<char>::empty();
        assert(render(a) + end =~= render(a));
        assert(render(b) + end =~= render(b));
        lemma_value_prefix(a, b, end, end);
    }
}

} // verus!
