//! Reading a typed record out of a raw account buffer.
//!
//! An account buffer is an eight-byte type tag followed by the record. A
//! record type states its exact size and how each of its fields lies in the
//! bytes; a buffer is accepted only when its length is the tag plus exactly
//! that size. Records are read byte by byte, so nothing is asked of where the
//! buffer lies in memory. `parse_account` does not examine the tag's value;
//! `parse_tagged_account` does.

use crate::layout::{has_discriminator, spec_has_discriminator};
use crate::marginfi::errors::DecodeError;
use vstd::prelude::*;
use vstd::slice::*;

verus! {

/// Length of the type tag in front of every record.
pub const DISCRIMINATOR_LEN: usize = 8;

/// A record with a fixed byte layout.
pub trait AccountRecord: Sized {
    /// Number of bytes the record takes.
    spec fn record_size() -> nat;

    /// Whether `self` holds, field by field, what `body` holds at the
    /// record's offsets. `body` is the buffer without its type tag.
    spec fn is_record_of(&self, body: Seq<u8>) -> bool;

    fn size() -> (r: usize)
        ensures
            r == Self::record_size(),
    ;

    fn from_body(body: &[u8]) -> (r: Self)
        requires
            body@.len() == Self::record_size(),
        ensures
            r.is_record_of(body@),
    ;
}

/// The error that a buffer of `len` bytes gets for a record of `size` bytes,
/// if any.
pub open spec fn spec_length_error(len: nat, size: nat) -> Option<DecodeError> {
    if len < 8 + size {
        Some(DecodeError::BufferTooShort)
    } else if len > 8 + size {
        Some(DecodeError::SizeMismatch)
    } else {
        None
    }
}

/// Reads the record that follows the type tag in `data`.
///
/// Succeeds exactly when `data` is eight bytes longer than the record; the
/// record then holds what the bytes after the tag hold. A shorter buffer is
/// `BufferTooShort`, a longer one `SizeMismatch`.
pub fn parse_account<T: AccountRecord>(data: &[u8]) -> (r: Result<T, DecodeError>)
    ensures
        r is Ok <==> data@.len() == 8 + T::record_size(),
        match r {
            Ok(record) => record.is_record_of(data@.subrange(8, data@.len() as int)),
            Err(e) => Some(e) == spec_length_error(data@.len(), T::record_size()),
        },
{
    let size = T::size();
    let len = data.len();
    if len < DISCRIMINATOR_LEN || len - DISCRIMINATOR_LEN < size {
        return Err(DecodeError::BufferTooShort);
    }
    if len - DISCRIMINATOR_LEN > size {
        return Err(DecodeError::SizeMismatch);
    }
    Ok(T::from_body(slice_subrange(data, DISCRIMINATOR_LEN, len)))
}

/// Reads the record that follows the type tag in `data`, after testing the
/// tag.
///
/// The length is tested first, as `parse_account` does; a buffer of the right
/// length that does not start with `tag` is `DiscriminatorMismatch`.
pub fn parse_tagged_account<T: AccountRecord>(data: &[u8], tag: &[u8; 8]) -> (r: Result<
    T,
    DecodeError,
>)
    ensures
        r is Ok <==> data@.len() == 8 + T::record_size() && spec_has_discriminator(data@, tag@),
        match r {
            Ok(record) => record.is_record_of(data@.subrange(8, data@.len() as int)),
            Err(e) => match spec_length_error(data@.len(), T::record_size()) {
                Some(length_error) => e == length_error,
                None => e == DecodeError::DiscriminatorMismatch,
            },
        },
{
    match parse_account::<T>(data) {
        Ok(record) => {
            if has_discriminator(data, tag) {
                Ok(record)
            } else {
                Err(DecodeError::DiscriminatorMismatch)
            }
        },
        Err(e) => Err(e),
    }
}

} // verus!
