//! The two checksum algorithms of the wire protocol: the running XOR used by
//! revision V1, and the CRC-8/DVB-S2 used by revision V2.

use vstd::prelude::*;

verus! {

/// XOR of the bytes of `s`, folded from the left onto `acc`.
pub open spec fn xor_fold(acc: u8, s: Seq<u8>) -> u8
    decreases s.len(),
{
    if s.len() == 0 {
        acc
    } else {
        xor_fold(acc ^ s[0], s.skip(1))
    }
}

/// The V1 checksum of a byte sequence: the XOR of all its bytes.
pub open spec fn xor_of(s: Seq<u8>) -> u8 {
    xor_fold(0u8, s)
}

/// The CRC-8/DVB-S2 value of a byte sequence. The algorithm is left to the
/// outside implementation; verified code only relies on it being a function
/// of the bytes alone.
pub uninterp spec fn crc8_dvb_s2_of(s: Seq<u8>) -> u8;

/// Relies on `crc_any::CRCu8`: `crc8dvb_s2` starts a CRC-8/DVB-S2 accumulator
/// (polynomial 0xD5, initial value 0, unreflected, no output XOR), `digest`
/// folds the bytes into it in order, and `get_crc` reads the value out. The
/// result is a function of the bytes alone.
#[verifier::external_body]
pub(crate) fn crc8_dvb_s2(bytes: &[u8]) -> (r: u8)
    ensures
        r == crc8_dvb_s2_of(bytes@),
{
    let mut crc = crc_any::CRCu8::crc8dvb_s2();
    crc.digest(bytes);
    crc.get_crc()
}

/// Folding one more byte onto an XOR fold XORs it in.
pub proof fn lemma_xor_fold_push(acc: u8, s: Seq<u8>, b: u8)
    ensures
        xor_fold(acc, s.push(b)) == xor_fold(acc, s) ^ b,
    decreases s.len(),
{
    if s.len() == 0 {
        assert(s.push(b)[0] == b);
        assert(s.push(b).skip(1) =~= Seq::<u8>::empty());
        assert(xor_fold(acc, s.push(b)) == xor_fold(acc ^ b, Seq::<u8>::empty()));
        assert(xor_fold(acc ^ b, Seq::<u8>::empty()) == acc ^ b);
        assert(xor_fold(acc, s) == acc);
    } else {
        assert(s.push(b)[0] == s[0]);
        assert(s.push(b).skip(1) =~= s.skip(1).push(b));
        assert(xor_fold(acc, s.push(b)) == xor_fold(acc ^ s[0], s.skip(1).push(b)));
        lemma_xor_fold_push(acc ^ s[0], s.skip(1), b);
        assert(xor_fold(acc, s) == xor_fold(acc ^ s[0], s.skip(1)));
    }
}

/// An XOR fold over a concatenation is the fold of the second part started
/// from the fold of the first.
pub proof fn lemma_xor_fold_append(acc: u8, a: Seq<u8>, b: Seq<u8>)
    ensures
        xor_fold(acc, a + b) == xor_fold(xor_fold(acc, a), b),
    decreases a.len(),
{
    if a.len() == 0 {
        assert(a + b =~= b);
    } else {
        assert((a + b)[0] == a[0]);
        assert((a + b).skip(1) =~= a.skip(1) + b);
        lemma_xor_fold_append(acc ^ a[0], a.skip(1), b);
    }
}

/// An XOR fold over a single byte XORs it onto the start value.
pub proof fn lemma_xor_fold_one(acc: u8, a: u8)
    ensures
        xor_fold(acc, seq![a]) == acc ^ a,
{
    assert(seq![a][0] == a);
    assert(seq![a].skip(1) =~= Seq::<u8>::empty());
    assert(xor_fold(acc, seq![a]) == xor_fold(acc ^ a, Seq::<u8>::empty()));
}

/// An XOR fold over two bytes XORs both onto the start value.
pub proof fn lemma_xor_fold_two(acc: u8, a: u8, b: u8)
    ensures
        xor_fold(acc, seq![a, b]) == (acc ^ a) ^ b,
{
    assert(seq![a, b][0] == a);
    assert(seq![a, b].skip(1) =~= seq![b]);
    assert(xor_fold(acc, seq![a, b]) == xor_fold(acc ^ a, seq![b]));
    lemma_xor_fold_one(acc ^ a, b);
}

/// XOR with zero on the left leaves a byte unchanged.
pub proof fn lemma_xor_zero(x: u8)
    ensures
        0u8 ^ x == x,
        x ^ 0u8 == x,
{
    assert(0u8 ^ x == x) by (bit_vector);
    assert(x ^ 0u8 == x) by (bit_vector);
}

} // verus!
