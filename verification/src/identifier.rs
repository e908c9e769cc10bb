//! The 128-bit identifier of a user record and its text form.

use vstd::arithmetic::div_mod::{lemma_basic_div, lemma_div_denominator, lemma_fundamental_div_mod};
use vstd::arithmetic::power::{lemma_pow1, lemma_pow_adds, lemma_pow_positive, pow};
use vstd::prelude::*;

verus! {

/// The sixteen lower-case hexadecimal digits, in order.
pub open spec fn hex_digits() -> Seq<char> {
    seq!['0', '1', '2', '3', '4', '5', '6', '7', '8', '9', 'a', 'b', 'c', 'd', 'e', 'f']
}

/// The `k`-th group of four bits of `bits`, counted from the most significant
/// group, which is number 0.
pub open spec fn nibble(bits: u128, k: int) -> int {
    (bits as int / pow(16, (31 - k) as nat)) % 16
}

/// How many hyphens stand before position `i` of the text form.
pub open spec fn hyphens_before(i: int) -> int {
    if i < 8 {
        0
    } else if i < 13 {
        1
    } else if i < 18 {
        2
    } else if i < 23 {
        3
    } else {
        4
    }
}

/// The character at position `i` of the text form of `bits`.
pub open spec fn hyphenated_char(bits: u128, i: int) -> char {
    if i == 8 || i == 13 || i == 18 || i == 23 {
        '-'
    } else {
        hex_digits()[nibble(bits, i - hyphens_before(i))]
    }
}

/// The text form of an identifier: its 32 hexadecimal digits in lower case,
/// most significant first, in groups of 8, 4, 4, 4 and 12 digits with a
/// hyphen between two groups.
pub open spec fn hyphenated(bits: u128) -> Seq<char> {
    Seq::new(36, |i: int| hyphenated_char(bits, i))
}

/// The identifier of a user record.
#[derive(Clone, Copy, PartialEq, Eq, Structural, Debug, Hash)]
pub struct UserId {
    pub bits: u128,
}

/// `uuid::Uuid::from_u128` followed by the `Display` of `uuid::Uuid`, which
/// writes the sixteen bytes, most significant first, as lower-case
/// hexadecimal digits with hyphens after the 8th, 12th, 16th and 20th digit.
#[verifier::external_body]
fn uuid_text(bits: u128) -> (text: String)
    ensures
        text@ == hyphenated(bits),
{
    uuid::Uuid::from_u128(bits).to_string()
}

impl UserId {
    /// The identifier with the given 128 bits.
    pub fn new(bits: u128) -> (id: UserId)
        ensures
            id.bits == bits,
    {
        UserId { bits }
    }

    /// The text form of the identifier.
    pub fn to_string(&self) -> (text: String)
        ensures
            text@ == hyphenated(self.bits),
    {
        uuid_text(self.bits)
    }
}

/// The position of the `k`-th digit in the text form.
pub open spec fn digit_position(k: int) -> int {
    if k < 8 {
        k
    } else if k < 12 {
        k + 1
    } else if k < 16 {
        k + 2
    } else if k < 20 {
        k + 3
    } else {
        k + 4
    }
}

/// The sixteen digits are sixteen different characters.
proof fn lemma_digits_differ(m: int, n: int)
    requires
        0 <= m < 16,
        0 <= n < 16,
        hex_digits()[m] == hex_digits()[n],
    ensures
        m == n,
{
}

/// Two identifiers with the same text form have the same digits.
proof fn lemma_same_text_same_digits(a: u128, b: u128, k: int)
    requires
        hyphenated(a) == hyphenated(b),
        0 <= k < 32,
    ensures
        nibble(a, k) == nibble(b, k),
{
    let i = digit_position(k);
    assert(hyphenated(a)[i] == hyphenated_char(a, i));
    assert(hyphenated(b)[i] == hyphenated_char(b, i));
    assert(i - hyphens_before(i) == k);
    lemma_digits_differ(nibble(a, k), nibble(b, k));
}

/// Sixteen to the power of 32 is two to the power of 128.
proof fn lemma_pow16_32()
    ensures
        pow(16, 32) == 0x1_0000_0000_0000_0000_0000_0000_0000_0000,
{
    lemma_pow1(16);
    lemma_pow_adds(16, 1, 1);
    assert(pow(16, 2) == 0x100);
    lemma_pow_adds(16, 2, 2);
    assert(pow(16, 4) == 0x1_0000);
    lemma_pow_adds(16, 4, 4);
    assert(pow(16, 8) == 0x1_0000_0000);
    lemma_pow_adds(16, 8, 8);
    assert(pow(16, 16) == 0x1_0000_0000_0000_0000);
    lemma_pow_adds(16, 16, 16);
}

/// Two identifiers whose first `j` digits are the same are the same above
/// the other `32 - j` digits.
proof fn lemma_same_digits_same_prefix(a: u128, b: u128, j: nat)
    requires
        j <= 32,
        forall|k: int| 0 <= k < j ==> nibble(a, k) == nibble(b, k),
    ensures
        a as int / pow(16, (32 - j) as nat) == b as int / pow(16, (32 - j) as nat),
    decreases j,
{
    if j == 0 {
        lemma_pow16_32();
        lemma_basic_div(a as int, pow(16, 32));
        lemma_basic_div(b as int, pow(16, 32));
    } else {
        lemma_same_digits_same_prefix(a, b, (j - 1) as nat);
        let e = (32 - j) as nat;
        let p = pow(16, e);
        lemma_pow_positive(16, e);
        lemma_pow1(16);
        lemma_pow_adds(16, e, 1);
        assert(pow(16, e + 1) == p * 16);
        lemma_div_denominator(a as int, p, 16);
        lemma_div_denominator(b as int, p, 16);
        lemma_fundamental_div_mod(a as int / p, 16);
        lemma_fundamental_div_mod(b as int / p, 16);
        assert(nibble(a, j - 1) == (a as int / p) % 16);
        assert(nibble(b, j - 1) == (b as int / p) % 16);
    }
}

/// Different identifiers have different text forms.
pub proof fn law_text_form_names_one_identifier(a: UserId, b: UserId)
    ensures
        hyphenated(a.bits) == hyphenated(b.bits) <==> a == b,
{
    if hyphenated(a.bits) == hyphenated(b.bits) {
        assert forall|k: int| 0 <= k < 32 implies nibble(a.bits, k) == nibble(b.bits, k) by {
            lemma_same_text_same_digits(a.bits, b.bits, k);
        }
        lemma_same_digits_same_prefix(a.bits, b.bits, 32);
        assert(pow(16, 0) == 1) by {
            reveal(pow);
        }
    }
}

} // verus!
