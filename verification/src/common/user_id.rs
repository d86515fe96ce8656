use vstd::prelude::*;

use crate::text::push_char;

verus! {

/// The lowercase hexadecimal digit of `d` (for `0 <= d < 16`).
pub open spec fn hex_digit(d: int) -> char {
    if d < 10 {
        (('0' as int) + d) as char
    } else {
        (('a' as int) + d - 10) as char
    }
}

/// The last `n` hexadecimal digits of `v`, most significant first, with a
/// hyphen before the digits at positions 8, 12, 16 and 20.
pub open spec fn hyphenated_digits(v: nat, n: nat) -> Seq<char>
    decreases n,
{
    if n == 0 {
        Seq::empty()
    } else {
        let front = hyphenated_digits(v / 16, (n - 1) as nat);
        let d = hex_digit((v % 16) as int);
        if n - 1 == 8 || n - 1 == 12 || n - 1 == 16 || n - 1 == 20 {
            front.push('-').push(d)
        } else {
            front.push(d)
        }
    }
}

/// The text of a user identifier as the `uuid` crate displays it: 32
/// lowercase hexadecimal digits in groups of 8-4-4-4-12 joined by hyphens.
pub open spec fn uuid_hyphenated(id: u128) -> Seq<char> {
    hyphenated_digits(id as nat, 32)
}

/// What `uuid::Uuid::parse_str` returns for `text`, as the 128-bit value of
/// the identifier, or `None` where it reports an error.
pub uninterp spec fn uuid_parse(text: Seq<char>) -> Option<u128>;

/// `uuid::Uuid::parse_str` followed by `Uuid::as_u128`. Its result is named
/// `uuid_parse`; the documentation of `parse_str` states that it accepts
/// every format that the crate produces, among them the hyphenated one,
/// which is the one fact stated beyond the name.
#[verifier::external_body]
pub(crate) fn parse_uuid(text: &str) -> (res: Option<u128>)
    ensures
        res == uuid_parse(text@),
        forall|id: u128| text@ == #[trigger] uuid_hyphenated(id) ==> res == Some(id),
{
    match uuid::Uuid::parse_str(text) {
        Ok(id) => Some(id.as_u128()),
        Err(_) => None,
    }
}

fn push_hyphenated_digits(v: u128, n: usize, out: &mut String)
    requires
        n <= 32,
    ensures
        final(out)@ == old(out)@ + hyphenated_digits(v as nat, n as nat),
    decreases n,
{
    if n == 0 {
        assert(old(out)@ + Seq::<char>::empty() =~= old(out)@);
    } else {
        push_hyphenated_digits(v / 16, n - 1, out);
        let d = v % 16;
        let c = if d < 10 {
            (48u8 + d as u8) as char
        } else {
            (87u8 + d as u8) as char
        };
        assert(c == hex_digit(d as int));
        let ghost front = hyphenated_digits((v / 16) as nat, (n - 1) as nat);
        if n - 1 == 8 || n - 1 == 12 || n - 1 == 16 || n - 1 == 20 {
            push_char(out, '-');
            push_char(out, c);
            assert(final(out)@ =~= old(out)@ + front.push('-').push(c));
        } else {
            push_char(out, c);
            assert(final(out)@ =~= old(out)@ + front.push(c));
        }
    }
}

/// The text of a user identifier, as `Uuid::to_string` gives it.
pub fn uuid_to_string(id: u128) -> (res: String)
    ensures
        res@ == uuid_hyphenated(id),
{
    let mut out = String::new();
    push_hyphenated_digits(id, 32, &mut out);
    assert(Seq::<char>::empty() + hyphenated_digits(id as nat, 32) =~= hyphenated_digits(id as nat, 32));
    out
}

} // verus!

verus! {

/// `16` to the power `n`.
pub open spec fn pow16(n: nat) -> nat
    decreases n,
{
    if n == 0 {
        1
    } else {
        16 * pow16((n - 1) as nat)
    }
}

proof fn lemma_pow16_positive(n: nat)
    ensures
        pow16(n) > 0,
    decreases n,
{
    if n > 0 {
        lemma_pow16_positive((n - 1) as nat);
    }
}

proof fn lemma_hyphenated_len(v: nat, n: nat)
    ensures
        hyphenated_digits(v, n).len() == n + (if n > 20 {
            4int
        } else if n > 16 {
            3int
        } else if n > 12 {
            2int
        } else if n > 8 {
            1int
        } else {
            0int
        }),
    decreases n,
{
    if n > 0 {
        lemma_hyphenated_len(v / 16, (n - 1) as nat);
    }
}

proof fn lemma_hex_digit_injective(a: int, b: int)
    requires
        0 <= a < 16,
        0 <= b < 16,
        hex_digit(a) == hex_digit(b),
    ensures
        a == b,
{
}

/// Equal texts of `n` digits mean equal values modulo `16^n`.
proof fn lemma_hyphenated_determines(a: nat, b: nat, n: nat)
    requires
        hyphenated_digits(a, n) == hyphenated_digits(b, n),
    ensures
        a % pow16(n) == b % pow16(n),
    decreases n,
{
    if n == 0 {
    } else {
        let m = (n - 1) as nat;
        let fa = hyphenated_digits(a / 16, m);
        let fb = hyphenated_digits(b / 16, m);
        lemma_hyphenated_len(a / 16, m);
        lemma_hyphenated_len(b / 16, m);
        let ta = hyphenated_digits(a, n);
        let tb = hyphenated_digits(b, n);
        assert(ta[ta.len() - 1] == hex_digit((a % 16) as int));
        assert(tb[tb.len() - 1] == hex_digit((b % 16) as int));
        lemma_hex_digit_injective((a % 16) as int, (b % 16) as int);
        assert(fa =~= ta.take(fa.len() as int));
        assert(fb =~= tb.take(fb.len() as int));
        lemma_hyphenated_determines(a / 16, b / 16, m);
        lemma_pow16_positive(m);
        vstd::arithmetic::div_mod::lemma_breakdown(a as int, 16, pow16(m) as int);
        vstd::arithmetic::div_mod::lemma_breakdown(b as int, 16, pow16(m) as int);
    }
}

/// Law: distinct user identifiers have distinct texts, so that the subject
/// of an access token names one user.
pub proof fn lemma_uuid_text_injective(a: u128, b: u128)
    requires
        uuid_hyphenated(a) == uuid_hyphenated(b),
    ensures
        a == b,
{
    lemma_hyphenated_determines(a as nat, b as nat, 32);
    assert(pow16(32) == 0x1_0000_0000_0000_0000_0000_0000_0000_0000) by {
        reveal_with_fuel(pow16, 33);
    }
    vstd::arithmetic::div_mod::lemma_small_mod(a as nat, pow16(32));
    vstd::arithmetic::div_mod::lemma_small_mod(b as nat, pow16(32));
}

} // verus!
