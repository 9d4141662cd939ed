//! Hardware and protocol addresses, and the text under which they are stored.
//!
//! An IPv4 address is written in dotted decimal without leading zeros
//! (`10.0.0.5`), a hardware address as six pairs of upper-case hexadecimal
//! digits separated by colons (`AA:BB:CC:DD:EE:FF`).

use vstd::prelude::*;

verus! {

/// `String::push` of the standard library: the character is appended at the
/// end of the string and nothing else changes.
pub assume_specification[ String::push ](text: &mut String, ch: char)
    ensures
        final(text)@ == old(text)@.push(ch),
;

/// An IPv4 address, most significant octet first.
#[derive(Clone, Copy, Debug, PartialEq, Eq, Structural)]
pub struct Ipv4Address(pub u8, pub u8, pub u8, pub u8);

/// A 48-bit hardware (MAC) address, in transmission order.
#[derive(Clone, Copy, Debug, PartialEq, Eq, Structural)]
pub struct MacAddress(pub u8, pub u8, pub u8, pub u8, pub u8, pub u8);

/// The character for a decimal digit `0..=9`.
pub open spec fn decimal_digit(d: u8) -> char {
    ('0' as int + d) as char
}

/// The character for a hexadecimal digit `0..=15`, letters in upper case.
pub open spec fn hex_digit(d: u8) -> char {
    if d < 10 {
        ('0' as int + d) as char
    } else {
        ('A' as int + d - 10) as char
    }
}

/// An octet in decimal, without leading zeros.
pub open spec fn decimal_text(n: u8) -> Seq<char> {
    if n >= 100 {
        seq![decimal_digit(n / 100), decimal_digit(n / 10 % 10), decimal_digit(n % 10)]
    } else if n >= 10 {
        seq![decimal_digit(n / 10), decimal_digit(n % 10)]
    } else {
        seq![decimal_digit(n)]
    }
}

/// An octet as two hexadecimal digits.
pub open spec fn hex_text(n: u8) -> Seq<char> {
    seq![hex_digit(n / 16), hex_digit(n % 16)]
}

/// The number that a decimal digit character stands for.
pub open spec fn decimal_value(c: char) -> int {
    c as int - '0' as int
}

/// The number that a sequence of decimal digits stands for.
pub open spec fn decimal_number(text: Seq<char>) -> int
    decreases text.len(),
{
    if text.len() == 0 {
        0
    } else {
        10 * decimal_number(text.drop_last()) + decimal_value(text.last())
    }
}

/// Four runs of digits joined by dots.
pub open spec fn dotted(a: Seq<char>, b: Seq<char>, c: Seq<char>, d: Seq<char>) -> Seq<char> {
    a + seq!['.'] + b + seq!['.'] + c + seq!['.'] + d
}

/// The ASCII code of `0`.
const ASCII_ZERO: u8 = 48;

/// The ASCII code of `A`.
const ASCII_UPPER_A: u8 = 65;

fn decimal_char(d: u8) -> (c: char)
    requires
        d < 10,
    ensures
        c == decimal_digit(d),
{
    (ASCII_ZERO + d) as char
}

fn hex_char(d: u8) -> (c: char)
    requires
        d < 16,
    ensures
        c == hex_digit(d),
{
    if d < 10 {
        (ASCII_ZERO + d) as char
    } else {
        (ASCII_UPPER_A + (d - 10)) as char
    }
}

fn push_decimal(text: &mut String, n: u8)
    ensures
        final(text)@ == old(text)@ + decimal_text(n),
{
    if n >= 100 {
        text.push(decimal_char(n / 100));
    }
    if n >= 10 {
        text.push(decimal_char(n / 10 % 10));
    }
    text.push(decimal_char(n % 10));
}

fn push_hex(text: &mut String, n: u8)
    ensures
        final(text)@ == old(text)@ + hex_text(n),
{
    text.push(hex_char(n / 16));
    text.push(hex_char(n % 16));
}

impl Ipv4Address {
    /// The dotted-decimal form of the address.
    pub open spec fn text(self) -> Seq<char> {
        dotted(
            decimal_text(self.0),
            decimal_text(self.1),
            decimal_text(self.2),
            decimal_text(self.3),
        )
    }

    /// Writes the address in dotted decimal.
    pub fn to_text(&self) -> (text: String)
        ensures
            text@ == self.text(),
    {
        let mut text = String::new();
        push_decimal(&mut text, self.0);
        text.push('.');
        push_decimal(&mut text, self.1);
        text.push('.');
        push_decimal(&mut text, self.2);
        text.push('.');
        push_decimal(&mut text, self.3);
        text
    }
}

impl MacAddress {
    /// The colon-separated upper-case hexadecimal form of the address.
    pub open spec fn text(self) -> Seq<char> {
        hex_text(self.0) + seq![':'] + hex_text(self.1) + seq![':'] + hex_text(self.2) + seq![':']
            + hex_text(self.3) + seq![':'] + hex_text(self.4) + seq![':'] + hex_text(self.5)
    }

    /// Writes the address as six colon-separated pairs of hexadecimal digits.
    pub fn to_text(&self) -> (text: String)
        ensures
            text@ == self.text(),
    {
        let mut text = String::new();
        push_hex(&mut text, self.0);
        text.push(':');
        push_hex(&mut text, self.1);
        text.push(':');
        push_hex(&mut text, self.2);
        text.push(':');
        push_hex(&mut text, self.3);
        text.push(':');
        push_hex(&mut text, self.4);
        text.push(':');
        push_hex(&mut text, self.5);
        text
    }
}

/// The decimal text of an octet reads back as that octet, has one to three
/// characters, and starts with `0` only for the octet zero.
pub proof fn lemma_decimal_text_reads_back(n: u8)
    ensures
        decimal_number(decimal_text(n)) == n,
        1 <= decimal_text(n).len() <= 3,
        decimal_text(n)[0] == '0' ==> n == 0,
{
    let t = decimal_text(n);
    reveal_with_fuel(decimal_number, 4);
    if n >= 100 {
        assert(t.drop_last() =~= seq![decimal_digit(n / 100), decimal_digit(n / 10 % 10)]);
        assert(t.drop_last().drop_last() =~= seq![decimal_digit(n / 100)]);
        assert(t.drop_last().drop_last().drop_last() =~= Seq::<char>::empty());
    } else if n >= 10 {
        assert(t.drop_last() =~= seq![decimal_digit(n / 10)]);
        assert(t.drop_last().drop_last() =~= Seq::<char>::empty());
    } else {
        assert(t.drop_last() =~= Seq::<char>::empty());
    }
}

/// Whether `c` is one of the characters `0` to `9`.
pub open spec fn is_decimal_digit(c: char) -> bool {
    '0' <= c <= '9'
}

/// Whether `text` holds decimal digits only.
pub open spec fn is_decimal(text: Seq<char>) -> bool {
    forall|i: int| 0 <= i < text.len() ==> is_decimal_digit(#[trigger] text[i])
}

/// The decimal text of an octet holds digits only.
pub proof fn lemma_decimal_text_is_digits(n: u8)
    ensures
        is_decimal(decimal_text(n)),
{
}

/// Different octets have different decimal texts.
pub proof fn lemma_decimal_text_is_injective(one: u8, other: u8)
    requires
        decimal_text(one) == decimal_text(other),
    ensures
        one == other,
{
    lemma_decimal_text_reads_back(one);
    lemma_decimal_text_reads_back(other);
}

/// Different octets have different hexadecimal texts.
pub proof fn lemma_hex_text_is_injective(one: u8, other: u8)
    requires
        hex_text(one) == hex_text(other),
    ensures
        one == other,
{
    assert(hex_text(one)[0] == hex_text(other)[0]);
    assert(hex_text(one)[1] == hex_text(other)[1]);
    assert(one / 16 == other / 16);
    assert(one % 16 == other % 16);
}

/// Where two texts that each start with digits and a dot are equal, the
/// digits before the dot are equal, and so is what follows the dot.
proof fn lemma_leading_digits(
    one: Seq<char>,
    rest_of_one: Seq<char>,
    other: Seq<char>,
    rest_of_other: Seq<char>,
)
    requires
        is_decimal(one),
        is_decimal(other),
        one + seq!['.'] + rest_of_one == other + seq!['.'] + rest_of_other,
    ensures
        one == other,
        rest_of_one == rest_of_other,
{
    let whole = one + seq!['.'] + rest_of_one;
    let same = other + seq!['.'] + rest_of_other;
    assert(whole[one.len() as int] == '.');
    assert(same[other.len() as int] == '.');
    if one.len() < other.len() {
        assert(same[one.len() as int] == other[one.len() as int]);
        assert(is_decimal_digit(other[one.len() as int]));
    } else if other.len() < one.len() {
        assert(whole[other.len() as int] == one[other.len() as int]);
        assert(is_decimal_digit(one[other.len() as int]));
    }
    assert(one.len() == other.len());
    assert(one =~= whole.subrange(0, one.len() as int));
    assert(other =~= same.subrange(0, other.len() as int));
    assert(rest_of_one =~= whole.subrange(one.len() as int + 1, whole.len() as int));
    assert(rest_of_other =~= same.subrange(other.len() as int + 1, same.len() as int));
}

/// Where two dotted texts are equal, so are their four runs of digits.
proof fn lemma_dotted_parts(
    a: Seq<char>,
    b: Seq<char>,
    c: Seq<char>,
    d: Seq<char>,
    w: Seq<char>,
    x: Seq<char>,
    y: Seq<char>,
    z: Seq<char>,
)
    requires
        is_decimal(a),
        is_decimal(b),
        is_decimal(c),
        is_decimal(w),
        is_decimal(x),
        is_decimal(y),
        dotted(a, b, c, d) == dotted(w, x, y, z),
    ensures
        a == w,
        b == x,
        c == y,
        d == z,
{
    let dot = seq!['.'];
    assert(dotted(a, b, c, d) =~= a + dot + (b + dot + (c + dot + d)));
    assert(dotted(w, x, y, z) =~= w + dot + (x + dot + (y + dot + z)));
    lemma_leading_digits(a, b + dot + (c + dot + d), w, x + dot + (y + dot + z));
    lemma_leading_digits(b, c + dot + d, x, y + dot + z);
    lemma_leading_digits(c, d, y, z);
}

/// The text of an IPv4 address determines the address: different addresses
/// are stored under different texts.
pub proof fn lemma_ipv4_text_is_injective(one: Ipv4Address, other: Ipv4Address)
    requires
        one.text() == other.text(),
    ensures
        one == other,
{
    lemma_decimal_text_is_digits(one.0);
    lemma_decimal_text_is_digits(one.1);
    lemma_decimal_text_is_digits(one.2);
    lemma_decimal_text_is_digits(other.0);
    lemma_decimal_text_is_digits(other.1);
    lemma_decimal_text_is_digits(other.2);
    lemma_dotted_parts(
        decimal_text(one.0),
        decimal_text(one.1),
        decimal_text(one.2),
        decimal_text(one.3),
        decimal_text(other.0),
        decimal_text(other.1),
        decimal_text(other.2),
        decimal_text(other.3),
    );
    lemma_decimal_text_is_injective(one.0, other.0);
    lemma_decimal_text_is_injective(one.1, other.1);
    lemma_decimal_text_is_injective(one.2, other.2);
    lemma_decimal_text_is_injective(one.3, other.3);
}

/// The text of a hardware address determines the address: different
/// addresses are stored under different texts.
pub proof fn lemma_mac_text_is_injective(one: MacAddress, other: MacAddress)
    requires
        one.text() == other.text(),
    ensures
        one == other,
{
    let a = one.text();
    let b = other.text();
    assert(hex_text(one.0) =~= a.subrange(0, 2));
    assert(hex_text(other.0) =~= b.subrange(0, 2));
    assert(hex_text(one.1) =~= a.subrange(3, 5));
    assert(hex_text(other.1) =~= b.subrange(3, 5));
    assert(hex_text(one.2) =~= a.subrange(6, 8));
    assert(hex_text(other.2) =~= b.subrange(6, 8));
    assert(hex_text(one.3) =~= a.subrange(9, 11));
    assert(hex_text(other.3) =~= b.subrange(9, 11));
    assert(hex_text(one.4) =~= a.subrange(12, 14));
    assert(hex_text(other.4) =~= b.subrange(12, 14));
    assert(hex_text(one.5) =~= a.subrange(15, 17));
    assert(hex_text(other.5) =~= b.subrange(15, 17));
    lemma_hex_text_is_injective(one.0, other.0);
    lemma_hex_text_is_injective(one.1, other.1);
    lemma_hex_text_is_injective(one.2, other.2);
    lemma_hex_text_is_injective(one.3, other.3);
    lemma_hex_text_is_injective(one.4, other.4);
    lemma_hex_text_is_injective(one.5, other.5);
}

} // verus!
