//! The on-wire form of a fixed-point number: the sixteen bytes of its raw
//! pattern, least significant first, with no padding. Records keep numbers in
//! this form so that their byte layout has alignment one; arithmetic happens
//! on `I80F48`.

use crate::fixed_point::I80F48;
use vstd::bytes::*;
use vstd::prelude::*;
use vstd::slice::*;

verus! {

/// A fixed-point number as it lies in an account record.
#[derive(Clone, Copy, Debug)]
pub struct WrappedI80F48 {
    pub value: [u8; 16],
}

impl View for WrappedI80F48 {
    type V = Seq<u8>;

    open spec fn view(&self) -> Seq<u8> {
        self.value@
    }
}

/// The sixteen wire bytes of a number.
pub open spec fn spec_encode(v: I80F48) -> Seq<u8> {
    spec_u128_to_le_bytes(v.bits as u128)
}

/// The number that sixteen wire bytes stand for.
pub open spec fn spec_decode(s: Seq<u8>) -> I80F48 {
    I80F48 { bits: spec_u128_from_le_bytes(s) as i128 }
}

/// Encoding a number and decoding the bytes gives the number back, for every
/// representable number; the encoding is always sixteen bytes long.
pub proof fn lemma_encode_decode(v: I80F48)
    ensures
        spec_encode(v).len() == 16,
        spec_decode(spec_encode(v)) == v,
{
    lemma_auto_spec_u128_to_from_le_bytes();
    let b: i128 = v.bits;
    let u: u128 = b as u128;
    assert(u as i128 == b) by (bit_vector)
        requires
            u == b as u128,
    ;
    assert(spec_u128_to_le_bytes(u).len() == 16);
    assert(spec_u128_from_le_bytes(spec_u128_to_le_bytes(u)) == u);
}

/// Decoding sixteen bytes and encoding the number gives the bytes back: every
/// wire pattern stands for exactly one number.
pub proof fn lemma_decode_encode(s: Seq<u8>)
    requires
        s.len() == 16,
    ensures
        spec_encode(spec_decode(s)) == s,
{
    lemma_auto_spec_u128_to_from_le_bytes();
    let u: u128 = spec_u128_from_le_bytes(s);
    assert((u as i128) as u128 == u) by (bit_vector);
}

/// Reads the sixteen wire bytes of a number at `off`.
pub fn read_wrapped(data: &[u8], off: usize) -> (r: WrappedI80F48)
    requires
        off + 16 <= data@.len(),
    ensures
        r@ == data@.subrange(off as int, off + 16),
{
    let len: usize = data.len();
    let mut value: [u8; 16] = [0u8;16];
    let mut i: usize = 0;
    while i < 16
        invariant
            i <= 16,
            off + 16 <= data@.len() <= usize::MAX,
            forall|j: int| 0 <= j < i ==> value@[j] == data@[off + j],
        decreases 16 - i,
    {
        value[i] = data[off + i];
        i += 1;
    }
    let r = WrappedI80F48 { value };
    assert(r@ =~= data@.subrange(off as int, off + 16));
    r
}

impl WrappedI80F48 {
    /// Wire form of a number.
    pub fn from_fixed(v: I80F48) -> (r: WrappedI80F48)
        ensures
            r@ == spec_encode(v),
    {
        let raw: u128 = #[verifier::truncate]
        (v.bits as u128);
        let le = u128_to_le_bytes(raw);
        proof {
            lemma_auto_spec_u128_to_from_le_bytes();
        }
        let mut value: [u8; 16] = [0u8;16];
        let mut i: usize = 0;
        while i < 16
            invariant
                i <= 16,
                le@.len() == 16,
                forall|j: int| 0 <= j < i ==> value@[j] == le@[j],
            decreases 16 - i,
        {
            value[i] = le[i];
            i += 1;
        }
        let r = WrappedI80F48 { value };
        assert(r@ =~= le@);
        r
    }

    /// The number that the wire form stands for. Every pattern is a number.
    pub fn to_fixed(&self) -> (r: I80F48)
        ensures
            r == spec_decode(self@),
    {
        let raw: u128 = u128_from_le_bytes(self.value.as_slice());
        let bits: i128 = #[verifier::truncate]
        (raw as i128);
        I80F48 { bits }
    }
}

} // verus!
