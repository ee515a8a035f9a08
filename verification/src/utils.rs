//! Field elements from text: hexadecimal and decimal numerals.

use vstd::prelude::*;
use vstd::string::{StrSliceExecFns, StringExecFns};
use crate::bytes::be_value;
use crate::field::{modulus, FieldElement};

verus! {

/// `c` is one of the digits 0 to 9.
pub open spec fn is_decimal_digit(c: char) -> bool {
    '0' <= c <= '9'
}

/// `c` is a hexadecimal digit, in either case.
pub open spec fn is_hex_digit(c: char) -> bool {
    ('0' <= c <= '9') || ('a' <= c <= 'f') || ('A' <= c <= 'F')
}

/// The number of a hexadecimal digit.
pub open spec fn hex_digit_value(c: char) -> nat {
    if '0' <= c <= '9' {
        (c as int - '0' as int) as nat
    } else if 'a' <= c <= 'f' {
        (c as int - 'a' as int + 10) as nat
    } else {
        (c as int - 'A' as int + 10) as nat
    }
}

/// Every character of `s` is a decimal digit.
pub open spec fn is_decimal(s: Seq<char>) -> bool {
    forall|i: int| 0 <= i < s.len() ==> is_decimal_digit(#[trigger] s[i])
}

/// Every character of `s` is a hexadecimal digit.
pub open spec fn is_hex(s: Seq<char>) -> bool {
    forall|i: int| 0 <= i < s.len() ==> is_hex_digit(#[trigger] s[i])
}

/// The number that the decimal numeral `s` spells.
pub open spec fn decimal_value(s: Seq<char>) -> nat
    decreases s.len(),
{
    if s.len() == 0 {
        0
    } else {
        10 * decimal_value(s.drop_last()) + (s.last() as int - '0' as int) as nat
    }
}

/// The number that the hexadecimal numeral `s` spells.
pub open spec fn hex_value(s: Seq<char>) -> nat
    decreases s.len(),
{
    if s.len() == 0 {
        0
    } else {
        16 * hex_value(s.drop_last()) + hex_digit_value(s.last())
    }
}

/// The bytes that an even number of hexadecimal digits spell, two digits to
/// a byte.
pub open spec fn hex_bytes(s: Seq<char>) -> Seq<u8> {
    Seq::new(
        s.len() / 2,
        |i: int| (16 * hex_digit_value(s[2 * i]) + hex_digit_value(s[2 * i + 1])) as u8,
    )
}

/// `s` without every `0x` that it starts with.
pub open spec fn strip_0x(s: Seq<char>) -> Seq<char>
    decreases s.len(),
{
    if s.len() >= 2 && s[0] == '0' && s[1] == 'x' {
        strip_0x(s.skip(2))
    } else {
        s
    }
}

/// `count` zero bytes.
pub open spec fn zeros(count: nat) -> Seq<u8> {
    Seq::new(count, |i: int| 0u8)
}

/// `Vec::<u8>::from_hex` of the hex crate, on an even number of hexadecimal
/// digits: each pair of digits gives one byte, the first digit its high
/// half. Both cases of the letters are read.
#[verifier::external_body]
fn decode_hex(digits: &str) -> (bytes: Vec<u8>)
    requires
        digits@.len() % 2 == 0,
        is_hex(digits@),
    ensures
        bytes@ == hex_bytes(digits@),
{
    <Vec<u8> as hex::FromHex>::from_hex(digits).unwrap()
}

/// `BigUint::from_str_radix` with radix 10, then `to_bytes_be`, of
/// num-bigint: the bytes of the number that the decimal numeral spells, most
/// significant first and without leading zero bytes; the number zero gives
/// one zero byte.
#[verifier::external_body]
fn decimal_str_to_bytes_be(dec: &str) -> (bytes: Vec<u8>)
    requires
        dec@.len() > 0,
        is_decimal(dec@),
    ensures
        be_value(bytes@) == decimal_value(dec@),
        bytes@.len() > 0,
        bytes@[0] == 0 ==> bytes@.len() == 1,
{
    let n = <num_bigint::BigUint as num_traits::Num>::from_str_radix(dec, 10).expect(
        "invalid decimal string",
    );
    n.to_bytes_be()
}

/// Zero bytes in front do not change the number that bytes spell, most
/// significant first.
pub proof fn lemma_be_value_leading_zeros(count: nat, bytes: Seq<u8>)
    ensures
        be_value(zeros(count) + bytes) == be_value(bytes),
    decreases bytes.len(),
{
    let padded = zeros(count) + bytes;
    if bytes.len() == 0 {
        assert(padded =~= zeros(count));
        lemma_be_value_zeros(count);
    } else {
        assert(padded.drop_last() =~= zeros(count) + bytes.drop_last());
        lemma_be_value_leading_zeros(count, bytes.drop_last());
    }
}

/// Zero bytes spell zero.
pub proof fn lemma_be_value_zeros(count: nat)
    ensures
        be_value(zeros(count)) == 0,
    decreases count,
{
    if count > 0 {
        assert(zeros(count).drop_last() =~= zeros((count - 1) as nat));
        lemma_be_value_zeros((count - 1) as nat);
    }
}

/// A zero digit in front does not change the number that a decimal numeral
/// spells.
pub proof fn lemma_decimal_leading_zero(s: Seq<char>)
    ensures
        decimal_value(seq!['0'] + s) == decimal_value(s),
    decreases s.len(),
{
    let padded = seq!['0'] + s;
    if s.len() == 0 {
        assert(padded.drop_last() =~= Seq::<char>::empty());
        assert(decimal_value(padded.drop_last()) == 0);
        assert(padded.last() == '0');
    } else {
        assert(padded.drop_last() =~= seq!['0'] + s.drop_last());
        assert(padded.last() == s.last());
        lemma_decimal_leading_zero(s.drop_last());
    }
}

/// A zero digit in front does not change the number that a hexadecimal
/// numeral spells.
pub proof fn lemma_hex_leading_zero(s: Seq<char>)
    ensures
        hex_value(seq!['0'] + s) == hex_value(s),
    decreases s.len(),
{
    let padded = seq!['0'] + s;
    if s.len() == 0 {
        assert(padded.drop_last() =~= Seq::<char>::empty());
        assert(hex_value(padded.drop_last()) == 0);
        assert(padded.last() == '0');
    } else {
        assert(padded.drop_last() =~= seq!['0'] + s.drop_last());
        assert(padded.last() == s.last());
        lemma_hex_leading_zero(s.drop_last());
    }
}

/// The bytes of an even number of hexadecimal digits spell the number that
/// the digits spell.
pub proof fn lemma_hex_bytes_value(s: Seq<char>)
    requires
        s.len() % 2 == 0,
        is_hex(s),
    ensures
        be_value(hex_bytes(s)) == hex_value(s),
    decreases s.len(),
{
    if s.len() > 0 {
        let front = s.take(s.len() - 2);
        let bytes = hex_bytes(s);
        let high = s[s.len() - 2];
        let low = s[s.len() - 1];
        assert(is_hex_digit(high) && is_hex_digit(low));
        assert(hex_digit_value(high) < 16 && hex_digit_value(low) < 16);
        assert(bytes.drop_last() =~= hex_bytes(front));
        assert(bytes.last() == 16 * hex_digit_value(high) + hex_digit_value(low));
        assert(s.drop_last().drop_last() =~= front);
        assert(s.drop_last().last() == high);
        assert(hex_value(s.drop_last()) == 16 * hex_value(front) + hex_digit_value(high));
        assert(hex_value(s) == 16 * hex_value(s.drop_last()) + hex_digit_value(low));
        lemma_hex_bytes_value(front);
    } else {
        assert(hex_bytes(s) =~= Seq::<u8>::empty());
    }
}

/// Puts zero bytes in front of `bytes` until there are 32 of them.
fn left_pad_32(bytes: Vec<u8>) -> (padded: Vec<u8>)
    ensures
        padded@ == if bytes@.len() < 32 {
            zeros((32 - bytes@.len()) as nat) + bytes@
        } else {
            bytes@
        },
{
    if bytes.len() < 32 {
        let missing: usize = 32 - bytes.len();
        let mut pad = vec![0u8; missing];
        pad.extend_from_slice(bytes.as_slice());
        assert(pad@ =~= zeros((32 - bytes@.len()) as nat) + bytes@);
        pad
    } else {
        bytes
    }
}

/// The field element of a hexadecimal numeral, with or without `0x` in
/// front, of any length: the number that it spells, reduced modulo the field
/// order.
pub fn hex_to_fr(h: &str) -> (x: FieldElement)
    requires
        is_hex(strip_0x(h@)),
    ensures
        x.value() == hex_value(strip_0x(h@)) % modulus(),
{
    // 1. strip "0x"
    let n = h.unicode_len();
    let mut start: usize = 0;
    assert(h@.skip(0) =~= h@);
    loop
        invariant
            n == h@.len(),
            start <= n,
            strip_0x(h@.skip(start as int)) == strip_0x(h@),
        ensures
            strip_0x(h@) == h@.skip(start as int),
        decreases n - start,
    {
        if n - start < 2 {
            break ;
        }
        if h.get_char(start) != '0' || h.get_char(start + 1) != 'x' {
            break ;
        }
        assert(h@.skip(start as int).skip(2) =~= h@.skip(start + 2));
        start += 2;
    }
    let s = h.substring_char(start, n);
    assert(s@ =~= h@.skip(start as int));

    // 2. an even number of digits, with a zero in front where needed
    let padded: String = if (n - start) % 2 == 1 {
        proof {
            reveal_strlit("0");
            assert("0"@ =~= seq!['0']);
            lemma_hex_leading_zero(s@);
        }
        String::from_str("0").concat(s)
    } else {
        s.to_owned()
    };
    assert(hex_value(padded@) == hex_value(s@));

    // 3. big-endian hex to bytes
    proof {
        lemma_hex_bytes_value(padded@);
    }
    let bytes = decode_hex(padded.as_str());

    // 4. left-pad to 32 bytes
    proof {
        if bytes@.len() < 32 {
            lemma_be_value_leading_zeros((32 - bytes@.len()) as nat, bytes@);
        }
    }
    let bytes = left_pad_32(bytes);

    // 5. big-endian bytes to field element
    FieldElement::from_be_bytes_mod_order(bytes.as_slice())
}

/// The field element of a decimal numeral of any length: the number that it
/// spells, reduced modulo the field order.
pub fn int_to_fr(s: &str) -> (x: FieldElement)
    requires
        s@.len() > 0,
        is_decimal(s@),
    ensures
        x.value() == decimal_value(s@) % modulus(),
{
    let padded: String = if s.unicode_len() % 2 == 1 {
        proof {
            reveal_strlit("0");
            assert("0"@ =~= seq!['0']);
            lemma_decimal_leading_zero(s@);
        }
        String::from_str("0").concat(s)
    } else {
        s.to_owned()
    };
    let bytes = decimal_str_to_bytes_be(padded.as_str());
    proof {
        if bytes@.len() < 32 {
            lemma_be_value_leading_zeros((32 - bytes@.len()) as nat, bytes@);
        }
    }
    let bytes = left_pad_32(bytes);
    FieldElement::from_be_bytes_mod_order(bytes.as_slice())
}

} // verus!
