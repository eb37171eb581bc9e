//! Numbers written out as text.

use vstd::prelude::*;

verus! {

/// The character for a digit below ten.
pub open spec fn digit_char(d: nat) -> char {
    (48 + d) as char
}

/// `n` written in `base`, most significant digit first, with no leading zeros.
pub open spec fn digits(n: nat, base: nat) -> Seq<char>
    decreases n,
{
    if base < 2 || n < base {
        seq![digit_char(n)]
    } else {
        proof {
            vstd::arithmetic::div_mod::lemma_div_decreases(n as int, base as int);
        }
        digits(n / base, base).push(digit_char(n % base))
    }
}

/// `n` in decimal, as `{}` formats an unsigned integer.
pub open spec fn decimal(n: nat) -> Seq<char> {
    digits(n, 10)
}

/// `s` with zeros put in front of it up to the given width.
pub open spec fn zero_padded(s: Seq<char>, width: nat) -> Seq<char> {
    if s.len() >= width {
        s
    } else {
        Seq::new((width - s.len()) as nat, |i: int| '0') + s
    }
}

/// `n` in octal, filled up with zeros to six digits, as git writes a file mode.
pub open spec fn octal_mode(n: nat) -> Seq<char> {
    zero_padded(digits(n, 8), 6)
}

/// A result with its error as text.
pub open spec fn error_text<T>(r: Result<T, String>) -> Result<T, Seq<char>> {
    match r {
        Ok(value) => Ok(value),
        Err(message) => Err(message@),
    }
}

/// A result with its value and its error as text.
pub open spec fn result_text(r: Result<String, String>) -> Result<Seq<char>, Seq<char>> {
    match r {
        Ok(value) => Ok(value@),
        Err(message) => Err(message@),
    }
}

/// The text of a digit below ten.
fn digit(d: u128) -> (text: &'static str)
    requires
        d < 10,
    ensures
        text@ == seq![digit_char(d as nat)],
{
    proof {
        reveal_strlit("0");
        reveal_strlit("1");
        reveal_strlit("2");
        reveal_strlit("3");
        reveal_strlit("4");
        reveal_strlit("5");
        reveal_strlit("6");
        reveal_strlit("7");
        reveal_strlit("8");
        reveal_strlit("9");
    }
    match d {
        0 => "0",
        1 => "1",
        2 => "2",
        3 => "3",
        4 => "4",
        5 => "5",
        6 => "6",
        7 => "7",
        8 => "8",
        _ => "9",
    }
}

/// Appends `n`, written in `base`, to `out`.
fn push_digits(out: &mut String, n: u128, base: u128)
    requires
        2 <= base <= 10,
    ensures
        final(out)@ == old(out)@ + digits(n as nat, base as nat),
    decreases n,
{
    if n < base {
        out.append(digit(n));
        assert(out@ == old(out)@ + digits(n as nat, base as nat));
    } else {
        proof {
            vstd::arithmetic::div_mod::lemma_div_decreases(n as int, base as int);
        }
        push_digits(out, n / base, base);
        let last: u128 = n % base;
        proof {
            vstd::arithmetic::div_mod::lemma_mod_bound(n as int, base as int);
        }
        out.append(digit(last));
        assert(out@ == old(out)@ + digits(n as nat, base as nat));
    }
}

/// Writes `n` in decimal.
pub fn decimal_text(n: u128) -> (text: String)
    ensures
        text@ == decimal(n as nat),
{
    let mut out = String::new();
    push_digits(&mut out, n, 10);
    assert(out@ == decimal(n as nat));
    out
}

/// Writes `n` in octal with at least six digits.
pub fn octal_mode_text(n: u32) -> (text: String)
    ensures
        text@ == octal_mode(n as nat),
{
    let mut tail = String::new();
    push_digits(&mut tail, n as u128, 8);
    assert(tail@ == digits(n as nat, 8));
    let mut out = String::new();
    let mut width: usize = tail.as_str().unicode_len();
    proof {
        reveal_strlit("0");
    }
    while width < 6
        invariant
            tail@ == digits(n as nat, 8),
            tail@.len() <= width,
            width <= 6 || width == tail@.len(),
            out@ == Seq::new((width - tail@.len()) as nat, |i: int| '0'),
            "0"@ == seq!['0'],
        decreases 6 - width,
    {
        out.append("0");
        width = width + 1;
        assert(out@ == Seq::new((width - tail@.len()) as nat, |i: int| '0'));
    }
    out.append(tail.as_str());
    assert(out@ == octal_mode(n as nat));
    out
}

} // verus!
