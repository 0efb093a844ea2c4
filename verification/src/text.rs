//! Rendering of numbers as ASCII text, and the character classes that the
//! address formats are built from.

use vstd::prelude::*;

verus! {

/// The decimal digit `d` as a character.
pub open spec fn digit_char(d: nat) -> char
    recommends
        d < 10,
{
    (48 + d) as char
}

/// The hexadecimal digit `d` as a lower-case character.
pub open spec fn hex_char(d: nat) -> char
    recommends
        d < 16,
{
    if d < 10 {
        (48 + d) as char
    } else {
        (87 + d) as char
    }
}

/// `n` in decimal, without leading zeros.
pub open spec fn decimal_text(n: nat) -> Seq<char>
    decreases n,
{
    if n < 10 {
        seq![digit_char(n)]
    } else {
        decimal_text(n / 10).push(digit_char(n % 10))
    }
}

/// `n` in lower-case hexadecimal, without leading zeros.
pub open spec fn hex_text(n: nat) -> Seq<char>
    decreases n,
{
    if n < 16 {
        seq![hex_char(n)]
    } else {
        hex_text(n / 16).push(hex_char(n % 16))
    }
}

/// A character that may stand in a header value and reads back as text:
/// visible ASCII, or a space.
pub open spec fn is_visible(c: char) -> bool {
    32 <= (c as int) < 127
}

/// Every character of `s` is visible ASCII.
pub open spec fn all_visible(s: Seq<char>) -> bool {
    forall|i: int| 0 <= i < s.len() ==> is_visible(#[trigger] s[i])
}

/// Decimal text is made of visible characters and is never empty.
pub proof fn lemma_decimal_text_visible(n: nat)
    ensures
        all_visible(decimal_text(n)),
        decimal_text(n).len() >= 1,
    decreases n,
{
    if n >= 10 {
        lemma_decimal_text_visible(n / 10);
    }
}

/// Hexadecimal text is made of visible characters and is never empty.
pub proof fn lemma_hex_text_visible(n: nat)
    ensures
        all_visible(hex_text(n)),
        hex_text(n).len() >= 1,
    decreases n,
{
    if n >= 16 {
        lemma_hex_text_visible(n / 16);
    }
}

/// Joining two visible texts gives a visible text.
pub proof fn lemma_all_visible_concat(a: Seq<char>, b: Seq<char>)
    requires
        all_visible(a),
        all_visible(b),
    ensures
        all_visible(a + b),
{
    assert forall|i: int| 0 <= i < (a + b).len() implies is_visible(#[trigger] (a + b)[i]) by {
        if i < a.len() {
            assert((a + b)[i] == a[i]);
        } else {
            assert((a + b)[i] == b[i - a.len()]);
        }
    }
}

/// Appends one character to a string.
///
/// Trusted: stands for `String::push`, which adds exactly the given
/// character at the end and leaves what was there untouched.
#[verifier::external_body]
pub(crate) fn push_char(out: &mut String, c: char)
    ensures
        final(out)@ == old(out)@.push(c),
{
    out.push(c)
}

/// The decimal digit `d` as a character.
pub(crate) fn digit(d: u8) -> (c: char)
    requires
        d < 10,
    ensures
        c == digit_char(d as nat),
{
    (48u8 + d) as char
}

/// The hexadecimal digit `d` as a lower-case character.
pub(crate) fn hex_digit(d: u8) -> (c: char)
    requires
        d < 16,
    ensures
        c == hex_char(d as nat),
{
    if d < 10 {
        (48u8 + d) as char
    } else {
        (87u8 + d) as char
    }
}

/// Appends `n` in decimal to `out`.
pub fn push_decimal(out: &mut String, n: u16)
    ensures
        final(out)@ == old(out)@ + decimal_text(n as nat),
    decreases n,
{
    if n >= 10 {
        push_decimal(out, n / 10);
    }
    push_char(out, digit((n % 10) as u8));
    proof {
        if n >= 10 {
            assert(old(out)@ + decimal_text(n as nat) =~= (old(out)@ + decimal_text(
                (n / 10) as nat,
            )).push(digit_char((n % 10) as nat)));
        } else {
            assert(old(out)@ + decimal_text(n as nat) =~= old(out)@.push(digit_char(n as nat)));
        }
    }
}

/// Appends `n` in lower-case hexadecimal to `out`.
pub fn push_hex(out: &mut String, n: u16)
    ensures
        final(out)@ == old(out)@ + hex_text(n as nat),
    decreases n,
{
    if n >= 16 {
        push_hex(out, n / 16);
    }
    push_char(out, hex_digit((n % 16) as u8));
    proof {
        if n >= 16 {
            assert(old(out)@ + hex_text(n as nat) =~= (old(out)@ + hex_text((n / 16) as nat)).push(
                hex_char((n % 16) as nat),
            ));
        } else {
            assert(old(out)@ + hex_text(n as nat) =~= old(out)@.push(hex_char(n as nat)));
        }
    }
}

} // verus!
