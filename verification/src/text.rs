//! The few operations on text that pipe names need, each stated over the
//! text's characters.

use vstd::prelude::*;

verus! {

/// `String::push` of std: the given character is appended, nothing else
/// changes.
pub assume_specification[ String::push ](text: &mut String, c: char)
    ensures
        final(text)@ == old(text)@.push(c),
;

/// The text with every `from` written as `to`.
pub open spec fn replaced(text: Seq<char>, from: char, to: char) -> Seq<char> {
    text.map_values(|c: char| if c == from { to } else { c })
}

/// `n` in decimal, most significant digit first and without leading zeros.
pub open spec fn decimal_digits(n: nat) -> Seq<char>
    decreases n,
{
    if n < 10 {
        seq![digit_char(n)]
    } else {
        decimal_digits(n / 10).push(digit_char(n % 10))
    }
}

/// The character that writes the digit `d`.
pub open spec fn digit_char(d: nat) -> char {
    (('0' as nat) + d) as char
}

/// Whether `c` occurs in `text`.
pub(crate) fn contains_char(text: &str, c: char) -> (found: bool)
    ensures
        found == text@.contains(c),
{
    for x in it: text.chars()
        invariant
            it.seq() == text@,
            forall|j: int| 0 <= j < it.index() ==> text@[j] != c,
    {
        if x == c {
            assert(text@[it.index()] == c);
            return true;
        }
    }
    false
}

/// What follows `prefix` in `text`, where `text` begins with it.
pub(crate) fn strip_prefix<'a>(text: &'a str, prefix: &str) -> (rest: Option<&'a str>)
    ensures
        rest is Some <==> prefix@.is_prefix_of(text@),
        rest matches Some(tail) ==> tail@ == text@.skip(prefix@.len() as int),
{
    let mut ahead = text.chars();
    for x in it: prefix.chars()
        invariant
            it.seq() == prefix@,
            it.index() <= text@.len(),
            vstd::std_specs::iter::IteratorSpec::remaining(&ahead) == text@.skip(it.index()),
            forall|j: int| 0 <= j < it.index() ==> text@[j] == prefix@[j],
    {
        match ahead.next() {
            Some(c) if c == x => {},
            _ => {
                return None;
            },
        }
    }
    Some(text.substring_char(prefix.unicode_len(), text.unicode_len()))
}

/// The text with every `from` written as `to`.
pub(crate) fn replace_char(text: &str, from: char, to: char) -> (out: String)
    ensures
        out@ == replaced(text@, from, to),
{
    let mut out = String::new();
    for x in it: text.chars()
        invariant
            it.seq() == text@,
            out@ == replaced(text@.take(it.index()), from, to),
    {
        out.push(if x == from { to } else { x });
    }
    out
}

/// `n` in decimal.
pub(crate) fn decimal(n: u128) -> (out: String)
    ensures
        out@ == decimal_digits(n as nat),
    decreases n,
{
    let mut out = if n < 10 {
        String::new()
    } else {
        decimal(n / 10)
    };
    let digit: u8 = (n % 10) as u8;
    out.push(('0' as u8 + digit) as char);
    out
}

/// A decimal number is written in the ten digits alone.
pub(crate) proof fn lemma_decimal_has_digits_only(n: nat, i: int)
    requires
        0 <= i < decimal_digits(n).len(),
    ensures
        '0' <= decimal_digits(n)[i] <= '9',
    decreases n,
{
    if n >= 10 && i < decimal_digits(n / 10).len() {
        lemma_decimal_has_digits_only(n / 10, i);
    }
}

/// Two numbers written alike are one number.
pub(crate) proof fn lemma_decimal_is_injective(m: nat, n: nat)
    requires
        decimal_digits(m) == decimal_digits(n),
    ensures
        m == n,
    decreases m,
{
    let a = decimal_digits(m);
    let b = decimal_digits(n);
    lemma_decimal_is_not_empty(m / 10);
    lemma_decimal_is_not_empty(n / 10);
    assert(a.last() == digit_char(m % 10));
    assert(b.last() == digit_char(n % 10));
    if m >= 10 {
        assert(n >= 10);
        assert(a.drop_last() =~= decimal_digits(m / 10));
        assert(b.drop_last() =~= decimal_digits(n / 10));
        lemma_decimal_is_injective(m / 10, n / 10);
    }
}

proof fn lemma_decimal_is_not_empty(n: nat)
    ensures
        decimal_digits(n).len() > 0,
{
}

} // verus!
