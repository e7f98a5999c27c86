//! Reading little-endian integers and keys out of a byte buffer at fixed
//! offsets. Every account record in this crate is described by such offsets.

use vstd::bytes::*;
use vstd::prelude::*;
use vstd::slice::*;

verus! {

/// A 32-byte account address.
#[derive(Clone, Copy, Debug)]
pub struct Pubkey {
    pub bytes: [u8; 32],
}

impl View for Pubkey {
    type V = Seq<u8>;

    open spec fn view(&self) -> Seq<u8> {
        self.bytes@
    }
}

impl Pubkey {
    /// The address made of 32 zero bytes.
    pub fn zeroed() -> (r: Pubkey)
        ensures
            r@ == Seq::new(32, |i: int| 0u8),
    {
        let r = Pubkey { bytes: [0u8;32] };
        assert(r@ =~= Seq::new(32, |i: int| 0u8));
        r
    }

    /// Whether two addresses hold the same bytes.
    pub fn same(&self, other: &Pubkey) -> (r: bool)
        ensures
            r == (self@ == other@),
    {
        let mut i: usize = 0;
        while i < 32
            invariant
                i <= 32,
                forall|j: int| 0 <= j < i ==> self.bytes@[j] == other.bytes@[j],
            decreases 32 - i,
        {
            if self.bytes[i] != other.bytes[i] {
                return false;
            }
            i += 1;
        }
        assert(self@ =~= other@);
        true
    }
}

/// The byte at `off`.
pub open spec fn spec_u8_at(s: Seq<u8>, off: int) -> u8 {
    s[off]
}

/// The unsigned 16-bit integer stored little-endian at `off`.
pub open spec fn spec_u16_at(s: Seq<u8>, off: int) -> u16 {
    spec_u16_from_le_bytes(s.subrange(off, off + 2))
}

/// The unsigned 32-bit integer stored little-endian at `off`.
pub open spec fn spec_u32_at(s: Seq<u8>, off: int) -> u32 {
    spec_u32_from_le_bytes(s.subrange(off, off + 4))
}

/// The unsigned 64-bit integer stored little-endian at `off`.
pub open spec fn spec_u64_at(s: Seq<u8>, off: int) -> u64 {
    spec_u64_from_le_bytes(s.subrange(off, off + 8))
}

/// The two's-complement 64-bit integer stored little-endian at `off`.
pub open spec fn spec_i64_at(s: Seq<u8>, off: int) -> i64 {
    spec_u64_at(s, off) as i64
}

/// The unsigned 128-bit integer stored little-endian at `off`.
pub open spec fn spec_u128_at(s: Seq<u8>, off: int) -> u128 {
    spec_u128_from_le_bytes(s.subrange(off, off + 16))
}

/// The 32 bytes of a key stored at `off`.
pub open spec fn spec_key_at(s: Seq<u8>, off: int) -> Seq<u8> {
    s.subrange(off, off + 32)
}

/// Reads the byte at `off`.
pub fn read_u8(data: &[u8], off: usize) -> (r: u8)
    requires
        off < data@.len(),
    ensures
        r == spec_u8_at(data@, off as int),
{
    data[off]
}

/// Reads a little-endian unsigned 16-bit integer at `off`.
pub fn read_u16(data: &[u8], off: usize) -> (r: u16)
    requires
        off + 2 <= data@.len(),
    ensures
        r == spec_u16_at(data@, off as int),
{
    let len: usize = data.len();
    u16_from_le_bytes(slice_subrange(data, off, off + 2))
}

/// Reads a little-endian unsigned 32-bit integer at `off`.
pub fn read_u32(data: &[u8], off: usize) -> (r: u32)
    requires
        off + 4 <= data@.len(),
    ensures
        r == spec_u32_at(data@, off as int),
{
    let len: usize = data.len();
    u32_from_le_bytes(slice_subrange(data, off, off + 4))
}

/// Reads a little-endian unsigned 64-bit integer at `off`.
pub fn read_u64(data: &[u8], off: usize) -> (r: u64)
    requires
        off + 8 <= data@.len(),
    ensures
        r == spec_u64_at(data@, off as int),
{
    let len: usize = data.len();
    u64_from_le_bytes(slice_subrange(data, off, off + 8))
}

/// Reads a little-endian two's-complement 64-bit integer at `off`.
pub fn read_i64(data: &[u8], off: usize) -> (r: i64)
    requires
        off + 8 <= data@.len(),
    ensures
        r == spec_i64_at(data@, off as int),
{
    let raw: u64 = read_u64(data, off);
    #[verifier::truncate]
    (raw as i64)
}

/// Reads a little-endian unsigned 128-bit integer at `off`.
pub fn read_u128(data: &[u8], off: usize) -> (r: u128)
    requires
        off + 16 <= data@.len(),
    ensures
        r == spec_u128_at(data@, off as int),
{
    let len: usize = data.len();
    u128_from_le_bytes(slice_subrange(data, off, off + 16))
}

/// Reads the 32 bytes of a key at `off`.
pub fn read_key(data: &[u8], off: usize) -> (r: Pubkey)
    requires
        off + 32 <= data@.len(),
    ensures
        r@ == spec_key_at(data@, off as int),
{
    let len: usize = data.len();
    let mut bytes: [u8; 32] = [0u8;32];
    let mut i: usize = 0;
    while i < 32
        invariant
            i <= 32,
            off + 32 <= data@.len() <= usize::MAX,
            forall|j: int| 0 <= j < i ==> bytes@[j] == data@[off + j],
        decreases 32 - i,
    {
        bytes[i] = data[off + i];
        i += 1;
    }
    let r = Pubkey { bytes };
    assert(r@ =~= spec_key_at(data@, off as int));
    r
}

/// Whether `data` starts with the eight bytes of `tag`.
pub open spec fn spec_has_discriminator(data: Seq<u8>, tag: Seq<u8>) -> bool {
    data.len() >= 8 && data.subrange(0, 8) == tag
}

/// Tests the eight-byte type tag at the start of an account buffer. A buffer
/// shorter than eight bytes carries no tag and matches none.
pub fn has_discriminator(data: &[u8], tag: &[u8; 8]) -> (r: bool)
    ensures
        r == spec_has_discriminator(data@, tag@),
{
    if data.len() < 8 {
        return false;
    }
    let mut i: usize = 0;
    while i < 8
        invariant
            i <= 8,
            data@.len() >= 8,
            forall|j: int| 0 <= j < i ==> data@[j] == tag@[j],
        decreases 8 - i,
    {
        if data[i] != tag[i] {
            assert(data@.subrange(0, 8)[i as int] != tag@[i as int]);
            return false;
        }
        i += 1;
    }
    assert(data@.subrange(0, 8) =~= tag@);
    true
}

} // verus!
