//! Account identifiers and the account as the rest of the system sees it.

use vstd::arithmetic::div_mod::{
    lemma_basic_div, lemma_div_denominator, lemma_div_pos_is_pos, lemma_fundamental_div_mod,
};
use vstd::arithmetic::power::{lemma_pow0, lemma_pow1, lemma_pow_adds, lemma_pow_positive, pow};
use vstd::prelude::*;

verus! {

/// The identifier of an account: a 128-bit value, written in text as a
/// hyphenated UUID.
#[derive(Clone, Copy, Debug, PartialEq, Eq, Hash, Structural)]
pub struct UserId {
    pub value: u128,
}

/// An account without its credential.
#[derive(Clone, Debug, PartialEq, Eq)]
pub struct User {
    pub id: UserId,
    pub email: String,
    /// Seconds since the Unix epoch.
    pub created_at: i64,
}

/// The sixteen lower-case hexadecimal digits, by value.
pub open spec fn hex_digits() -> Seq<char> {
    seq!['0', '1', '2', '3', '4', '5', '6', '7', '8', '9', 'a', 'b', 'c', 'd', 'e', 'f']
}

/// Whether position `i` of a hyphenated identifier holds a hyphen.
pub open spec fn hyphen_at(i: int) -> bool {
    i == 8 || i == 13 || i == 18 || i == 23
}

/// The number of hyphens before position `i` of a hyphenated identifier.
pub open spec fn hyphens_before(i: int) -> int {
    if i > 23 {
        4
    } else if i > 18 {
        3
    } else if i > 13 {
        2
    } else if i > 8 {
        1
    } else {
        0
    }
}

/// The `k`-th hexadecimal digit of `v`, counted from the most significant
/// of its 32 digits.
pub open spec fn nibble(v: u128, k: int) -> int {
    (v as int / pow(16, (31 - k) as nat)) % 16
}

/// The text of an identifier: 32 lower-case hexadecimal digits, most
/// significant first, in groups of 8, 4, 4, 4 and 12 with a hyphen between
/// two groups.
pub open spec fn hyphenated(v: u128) -> Seq<char> {
    Seq::new(
        36,
        |i: int|
            if hyphen_at(i) {
                '-'
            } else {
                hex_digits()[nibble(v, i - hyphens_before(i))]
            },
    )
}

/// Whether `v` carries the version and variant marks of a random
/// (version 4) UUID.
pub open spec fn is_version_4(v: u128) -> bool {
    v & 0xF000_C000_0000_0000_0000u128 == 0x4000_8000_0000_0000_0000u128
}

/// Draws a random identifier with `uuid::Uuid::new_v4` and hands back its
/// 128-bit value (`Uuid::as_u128`). Trusted: of the value, only that the
/// version and variant bits are those of a version 4 UUID; the other 122
/// bits come from the system's random source.
#[verifier::external_body]
fn random_v4() -> (v: u128)
    ensures
        is_version_4(v),
{
    uuid::Uuid::new_v4().as_u128()
}

/// Formats a 128-bit value with `uuid::Uuid`'s `Display` (through
/// `Uuid::from_u128` and `to_string`). Trusted: the text is the hyphenated
/// lower-case form of the value, most significant digit first.
#[verifier::external_body]
fn uuid_display(v: u128) -> (text: String)
    ensures
        text@ == hyphenated(v),
{
    uuid::Uuid::from_u128(v).to_string()
}

impl UserId {
    /// A new random identifier.
    pub fn generate() -> (id: UserId)
        ensures
            is_version_4(id.value),
    {
        UserId { value: random_v4() }
    }

    /// The identifier as text, as it stands in a token's subject.
    pub fn to_text(&self) -> (text: String)
        ensures
            text@ == hyphenated(self.value),
            text@.len() == 36,
    {
        uuid_display(self.value)
    }
}

/// The number that the first `k` of the 32 hexadecimal digits of `v`
/// write.
spec fn leading_digits(v: u128, k: int) -> int {
    v as int / pow(16, (32 - k) as nat)
}

proof fn lemma_sixteen_to_the_32nd()
    ensures
        pow(16, 32) == 0x1_0000_0000_0000_0000_0000_0000_0000_0000,
{
    lemma_pow1(16);
    lemma_pow_adds(16, 1, 1);
    lemma_pow_adds(16, 2, 2);
    lemma_pow_adds(16, 4, 4);
    lemma_pow_adds(16, 8, 8);
    lemma_pow_adds(16, 16, 16);
    let to_2 = pow(16, 2);
    let to_4 = pow(16, 4);
    let to_8 = pow(16, 8);
    let to_16 = pow(16, 16);
    let to_32 = pow(16, 32);
    assert(to_2 == 0x100) by (nonlinear_arith)
        requires
            to_2 == 16 * 16,
    ;
    assert(to_4 == 0x1_0000) by (nonlinear_arith)
        requires
            to_4 == to_2 * to_2,
            to_2 == 0x100,
    ;
    assert(to_8 == 0x1_0000_0000) by (nonlinear_arith)
        requires
            to_8 == to_4 * to_4,
            to_4 == 0x1_0000,
    ;
    assert(to_16 == 0x1_0000_0000_0000_0000) by (nonlinear_arith)
        requires
            to_16 == to_8 * to_8,
            to_8 == 0x1_0000_0000,
    ;
    assert(to_32 == 0x1_0000_0000_0000_0000_0000_0000_0000_0000) by (nonlinear_arith)
        requires
            to_32 == to_16 * to_16,
            to_16 == 0x1_0000_0000_0000_0000,
    ;
}

/// One more digit: sixteen times what the digits before it write, and
/// the digit itself.
proof fn lemma_next_digit(v: u128, k: int)
    requires
        0 <= k < 32,
    ensures
        leading_digits(v, k + 1) == 16 * leading_digits(v, k) + nibble(v, k),
        0 <= nibble(v, k) < 16,
{
    let m = (31 - k) as nat;
    let p = pow(16, m);
    lemma_pow_positive(16, m);
    lemma_pow1(16);
    lemma_pow_adds(16, m, 1);
    let x = v as int / p;
    lemma_div_pos_is_pos(v as int, p);
    lemma_div_denominator(v as int, p, 16);
    lemma_fundamental_div_mod(x, 16);
    assert(pow(16, (32 - k) as nat) == p * 16);
    assert(leading_digits(v, k) == x / 16);
}

proof fn lemma_same_leading_digits(a: u128, b: u128, k: int)
    requires
        0 <= k <= 32,
        forall|j: int| 0 <= j < 32 ==> nibble(a, j) == nibble(b, j),
    ensures
        leading_digits(a, k) == leading_digits(b, k),
    decreases k,
{
    if k == 0 {
        lemma_sixteen_to_the_32nd();
        lemma_basic_div(a as int, pow(16, 32));
        lemma_basic_div(b as int, pow(16, 32));
    } else {
        lemma_same_leading_digits(a, b, k - 1);
        lemma_next_digit(a, k - 1);
        lemma_next_digit(b, k - 1);
    }
}

proof fn lemma_hex_digits_differ(x: int, y: int)
    requires
        0 <= x < 16,
        0 <= y < 16,
        hex_digits()[x] == hex_digits()[y],
    ensures
        x == y,
{
    let d = hex_digits();
    assert(d[0] == '0' && d[1] == '1' && d[2] == '2' && d[3] == '3');
    assert(d[4] == '4' && d[5] == '5' && d[6] == '6' && d[7] == '7');
    assert(d[8] == '8' && d[9] == '9' && d[10] == 'a' && d[11] == 'b');
    assert(d[12] == 'c' && d[13] == 'd' && d[14] == 'e' && d[15] == 'f');
}

/// The text tells identifiers apart: two identifiers with the same text
/// are one and the same, so a token's subject names one account.
pub proof fn lemma_text_identifies(a: u128, b: u128)
    requires
        hyphenated(a) == hyphenated(b),
    ensures
        a == b,
{
    assert forall|j: int| 0 <= j < 32 implies nibble(a, j) == nibble(b, j) by {
        let i = if j >= 20 {
            j + 4
        } else if j >= 16 {
            j + 3
        } else if j >= 12 {
            j + 2
        } else if j >= 8 {
            j + 1
        } else {
            j
        };
        assert(!hyphen_at(i) && i - hyphens_before(i) == j);
        assert(hyphenated(a)[i] == hex_digits()[nibble(a, j)]);
        assert(hyphenated(b)[i] == hex_digits()[nibble(b, j)]);
        lemma_next_digit(a, j);
        lemma_next_digit(b, j);
        lemma_hex_digits_differ(nibble(a, j), nibble(b, j));
    }
    lemma_same_leading_digits(a, b, 32);
    lemma_pow0(16);
}

/// The text of an identifier has 36 characters: hyphens at the four
/// places named, and lower-case hexadecimal digits everywhere else.
pub proof fn lemma_text_shape(v: u128, i: int)
    requires
        0 <= i < 36,
    ensures
        hyphenated(v).len() == 36,
        hyphen_at(i) ==> hyphenated(v)[i] == '-',
        !hyphen_at(i) ==> hex_digits().contains(hyphenated(v)[i]) && hyphenated(v)[i] != '-',
{
    if !hyphen_at(i) {
        let k = i - hyphens_before(i);
        lemma_next_digit(v, k);
        let d = hex_digits();
        assert(d[0] == '0' && d[1] == '1' && d[2] == '2' && d[3] == '3');
        assert(d[4] == '4' && d[5] == '5' && d[6] == '6' && d[7] == '7');
        assert(d[8] == '8' && d[9] == '9' && d[10] == 'a' && d[11] == 'b');
        assert(d[12] == 'c' && d[13] == 'd' && d[14] == 'e' && d[15] == 'f');
        assert(d.contains(d[nibble(v, k)]));
    }
}

} // verus!
