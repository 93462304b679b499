//! The byte-array rendering of a certificate digest, as a browser script
//! writes an array literal, and the reading of such a rendering back.
use crate::decimal::{all_digits, decimal, digits_value, is_digit, lemma_decimal_value};
use vstd::prelude::*;

verus! {

/// The bytes of `bs` in decimal, separated by a comma and a space.
pub open spec fn byte_list_text(bs: Seq<u8>) -> Seq<char>
    decreases bs.len(),
{
    if bs.len() == 0 {
        Seq::empty()
    } else if bs.len() == 1 {
        decimal(bs[0] as nat)
    } else {
        decimal(bs[0] as nat) + seq![',', ' '] + byte_list_text(bs.drop_first())
    }
}

/// The array-literal rendering of `bs`: `[b0, b1, ..., bn]`, each byte in
/// decimal.
pub open spec fn bytes_array_text(bs: Seq<u8>) -> Seq<char> {
    seq!['['] + byte_list_text(bs) + seq![']']
}

/// The number of decimal digits that `s` starts with.
pub open spec fn leading_digits(s: Seq<char>) -> nat
    decreases s.len(),
{
    if s.len() > 0 && is_digit(s[0]) {
        1 + leading_digits(s.drop_first())
    } else {
        0
    }
}

/// The numbers of a list written as decimal numbers separated by a comma and
/// a space.
pub open spec fn parse_number_list(s: Seq<char>) -> Seq<int>
    decreases s.len(),
{
    let k = leading_digits(s) as int;
    if s.len() == 0 || k == 0 {
        Seq::empty()
    } else if k + 2 <= s.len() {
        seq![digits_value(s.take(k))] + parse_number_list(s.skip(k + 2))
    } else {
        seq![digits_value(s.take(k))]
    }
}

/// The numbers of an array literal: the list between its two brackets.
pub open spec fn parse_array_text(s: Seq<char>) -> Seq<int> {
    if s.len() >= 2 {
        parse_number_list(s.subrange(1, s.len() - 1))
    } else {
        Seq::empty()
    }
}

/// The bytes of `bs` as numbers.
pub open spec fn byte_values(bs: Seq<u8>) -> Seq<int> {
    bs.map_values(|b: u8| b as int)
}

proof fn lemma_leading_digits(d: Seq<char>, t: Seq<char>)
    requires
        all_digits(d),
        t.len() == 0 || !is_digit(t[0]),
    ensures
        leading_digits(d + t) == d.len(),
    decreases d.len(),
{
    if d.len() == 0 {
        assert(d + t =~= t);
    } else {
        assert((d + t).drop_first() =~= d.drop_first() + t);
        lemma_leading_digits(d.drop_first(), t);
    }
}

proof fn lemma_byte_list_round_trip(bs: Seq<u8>)
    ensures
        parse_number_list(byte_list_text(bs)) == byte_values(bs),
    decreases bs.len(),
{
    let s = byte_list_text(bs);
    if bs.len() == 0 {
        assert(byte_values(bs) =~= Seq::<int>::empty());
    } else {
        let d = decimal(bs[0] as nat);
        lemma_decimal_value(bs[0] as nat);
        if bs.len() == 1 {
            lemma_leading_digits(d, Seq::empty());
            assert(d + Seq::<char>::empty() =~= d);
            assert(s.take(d.len() as int) =~= d);
            assert(byte_values(bs) =~= seq![bs[0] as int]);
        } else {
            let rest = byte_list_text(bs.drop_first());
            assert(s == d + (seq![',', ' '] + rest)) by {
                assert(s =~= d + (seq![',', ' '] + rest));
            }
            lemma_leading_digits(d, seq![',', ' '] + rest);
            assert(s.take(d.len() as int) =~= d);
            assert(s.skip(d.len() as int + 2) =~= rest);
            lemma_byte_list_round_trip(bs.drop_first());
            assert(byte_values(bs) =~= seq![bs[0] as int] + byte_values(bs.drop_first()));
        }
    }
}

/// The array-literal rendering of a digest reads back as the digest's bytes,
/// in order: the rendering loses nothing.
pub proof fn lemma_bytes_array_round_trip(bs: Seq<u8>)
    ensures
        parse_array_text(bytes_array_text(bs)) == byte_values(bs),
{
    let s = bytes_array_text(bs);
    assert(s.subrange(1, s.len() - 1) =~= byte_list_text(bs));
    lemma_byte_list_round_trip(bs);
}

/// The array-literal rendering of a SHA-256 digest.
///
/// Relies on `wtransport::tls::Sha256Digest::fmt` with
/// `Sha256DigestFmt::BytesArray`, documented to give `"[b0, b1, ..., b31]"`
/// with each byte in decimal (it formats the byte array with `{:?}`).
#[verifier::external_body]
pub(crate) fn digest_array_text(digest: &[u8; 32]) -> (r: String)
    ensures
        r@ == bytes_array_text(digest@),
{
    wtransport::tls::Sha256Digest::new(*digest).fmt(wtransport::tls::Sha256DigestFmt::BytesArray)
}

} // verus!
