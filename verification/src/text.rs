//! Rendering of the capture report: decimal timestamps, zero-padded, and
//! payloads in their quoted text form.

use vstd::prelude::*;

verus! {

/// The ASCII decimal digits of `n`, most significant first.
pub open spec fn dec_digits(n: nat) -> Seq<u8>
    decreases n,
{
    if n < 10 {
        seq![(48 + n) as u8]
    } else {
        dec_digits(n / 10).push((48 + n % 10) as u8)
    }
}

/// The decimal digits of `n`, left-padded with zeros to at least eight
/// places.
pub open spec fn padded8(n: nat) -> Seq<u8> {
    if dec_digits(n).len() >= 8 {
        dec_digits(n)
    } else {
        Seq::new((8 - dec_digits(n).len()) as nat, |i: int| 48u8) + dec_digits(n)
    }
}

/// The text that decoding these bytes leniently yields, as
/// `String::from_utf8_lossy` computes it.
pub uninterp spec fn lossy_of(bytes: Seq<u8>) -> Seq<char>;

/// The quoted, escaped form of a text, as the `{:?}` rendering of `str`
/// computes it, in bytes.
pub uninterp spec fn quoted_of(s: Seq<char>) -> Seq<u8>;

/// Relies on String::from_utf8_lossy: the decoded text depends on the bytes
/// alone.
#[verifier::external_body]
pub(crate) fn from_utf8_lossy_owned(v: &Vec<u8>) -> (r: String)
    ensures
        r@ == lossy_of(v@),
{
    String::from_utf8_lossy(v.as_slice()).into_owned()
}

/// Relies on the Debug rendering of str (`"{:?}"`): the quoted form depends
/// on the characters alone.
#[verifier::external_body]
pub(crate) fn debug_quote(s: &str) -> (r: Vec<u8>)
    ensures
        r@ == quoted_of(s@),
{
    format!("{:?}", s).into_bytes()
}

/// The ASCII decimal digits of `n`, most significant first.
pub fn u64_to_dec(n: u64) -> (r: Vec<u8>)
    ensures
        r@ == dec_digits(n as nat),
    decreases n,
{
    if n < 10 {
        let mut r: Vec<u8> = Vec::new();
        r.push(48 + (n as u8));
        proof {
            assert(r@ =~= dec_digits(n as nat));
        }
        r
    } else {
        let mut r = u64_to_dec(n / 10);
        r.push(48 + ((n % 10) as u8));
        proof {
            assert(r@ =~= dec_digits(n as nat));
        }
        r
    }
}

/// The decimal digits of `n`, left-padded with zeros to at least eight
/// places.
pub fn u64_to_padded8(n: u64) -> (r: Vec<u8>)
    ensures
        r@ == padded8(n as nat),
{
    let mut digits = u64_to_dec(n);
    let mut r: Vec<u8> = Vec::new();
    while r.len() + digits.len() < 8
        invariant
            digits@ == dec_digits(n as nat),
            r@ =~= Seq::new(r@.len(), |i: int| 48u8),
            digits@.len() >= 8 ==> r@.len() == 0,
            digits@.len() < 8 ==> r@.len() + digits@.len() <= 8,
        decreases 8 - r.len(),
    {
        r.push(48);
        proof {
            assert(r@ =~= Seq::new(r@.len(), |i: int| 48u8));
        }
    }
    r.append(&mut digits);
    proof {
        assert(r@ =~= padded8(n as nat));
    }
    r
}

} // verus!
