//! Numbers read back from their text.

use vstd::prelude::*;

use crate::text::{decimal, digits, error_text, octal_mode, result_text};

verus! {

/// Whether a text is made of the digits of a base, at least one of them.
pub open spec fn is_number(text: Seq<char>, base: nat) -> bool {
    &&& text.len() > 0
    &&& forall|i: int| 0 <= i < text.len() ==> 48 <= #[trigger] text[i] as int && (text[i] as int)
        < 48 + base
}

/// The number that a text stands for, read from the left: each digit is worth `base` times the
/// one to its right.
pub open spec fn number_read(text: Seq<char>, base: nat) -> nat
    decreases text.len(),
{
    if text.len() == 0 {
        0
    } else {
        (number_read(text.drop_last(), base) * base + (text.last() as int - 48)) as nat
    }
}

/// Whether a text has no zeros in front that could be left out.
pub open spec fn is_shortest(text: Seq<char>) -> bool {
    text.len() == 1 || text[0] != '0'
}

/// A number that is written out can be read back, and is written without leading zeros.
pub proof fn law_digits_read_back(n: nat, base: nat)
    requires
        2 <= base <= 10,
    ensures
        is_number(digits(n, base), base),
        number_read(digits(n, base), base) == n,
        is_shortest(digits(n, base)),
        n > 0 ==> digits(n, base)[0] != '0',
    decreases n,
{
    let text = digits(n, base);
    if n < base {
        assert(text.drop_last() =~= seq![]);
        assert(number_read(text.drop_last(), base) == 0);
        assert(0 * base == 0) by (nonlinear_arith);
    } else {
        vstd::arithmetic::div_mod::lemma_div_decreases(n as int, base as int);
        vstd::arithmetic::div_mod::lemma_mod_bound(n as int, base as int);
        vstd::arithmetic::div_mod::lemma_fundamental_div_mod(n as int, base as int);
        vstd::arithmetic::div_mod::lemma_div_non_zero(n as int, base as int);
        law_digits_read_back(n / base, base);
        assert(text.drop_last() =~= digits(n / base, base));
        assert(text[0] == digits(n / base, base)[0]);
        assert((n / base) * base == base * (n / base)) by (nonlinear_arith);
    }
}

/// A number in decimal is made of the digits from 0 to 9, has no leading zeros, and reads back as
/// the number.
pub proof fn law_decimal_reads_back(n: nat)
    ensures
        is_number(decimal(n), 10),
        is_shortest(decimal(n)),
        number_read(decimal(n), 10) == n,
{
    law_digits_read_back(n, 10);
}

/// Zeros in front of a number leave it as it is.
proof fn lemma_zeros_in_front(zeros: Seq<char>, text: Seq<char>, base: nat)
    requires
        forall|i: int| 0 <= i < zeros.len() ==> #[trigger] zeros[i] == '0',
    ensures
        number_read(zeros + text, base) == number_read(text, base),
    decreases zeros.len() + text.len(),
{
    let all = zeros + text;
    if text.len() > 0 {
        assert(all.drop_last() =~= zeros + text.drop_last());
        assert(all.last() == text.last());
        lemma_zeros_in_front(zeros, text.drop_last(), base);
    } else if zeros.len() > 0 {
        assert(all =~= zeros);
        assert(zeros.drop_last() + text =~= zeros.drop_last());
        lemma_zeros_in_front(zeros.drop_last(), text, base);
        assert(0 * base == 0) by (nonlinear_arith);
    } else {
        assert(all =~= text);
    }
}

/// A number in octal has six digits at least, and no leading zeros beyond them; it is made of the
/// digits from 0 to 7 and reads back as the number.
pub proof fn law_octal_mode_reads_back(n: nat)
    ensures
        octal_mode(n).len() >= 6,
        octal_mode(n).len() > 6 ==> is_shortest(octal_mode(n)),
        is_number(octal_mode(n), 8),
        number_read(octal_mode(n), 8) == n,
{
    law_digits_read_back(n, 8);
    let plain = digits(n, 8);
    if plain.len() < 6 {
        lemma_zeros_in_front(Seq::new((6 - plain.len()) as nat, |i: int| '0'), plain, 8);
    }
}

/// A result as text keeps what came: a value as a value and an error as an error, with their
/// texts.
pub proof fn law_result_text_keeps_the_result(r: Result<String, String>)
    ensures
        r matches Ok(value) ==> result_text(r) == Ok::<Seq<char>, Seq<char>>(value@),
        r matches Err(message) ==> result_text(r) == Err::<Seq<char>, Seq<char>>(message@),
{
}

/// A result with its error as text keeps what came: the value itself, or the error's text.
pub proof fn law_error_text_keeps_the_result<T>(r: Result<T, String>)
    ensures
        r matches Ok(value) ==> error_text(r) == Ok::<T, Seq<char>>(value),
        r matches Err(message) ==> error_text(r) == Err::<T, Seq<char>>(message@),
{
}

} // verus!
