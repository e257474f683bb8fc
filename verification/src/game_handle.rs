//! The memory accessor: an owned process handle paired with the image base
//! resolved at construction, typed little-endian coding of the transferred
//! values, classification of raw OS transfer results, and the checked
//! arithmetic of the composite read-modify-write operations.
//!
//! Every offset is an unsigned byte distance added to the image base in
//! 64-bit unsigned space. The accessor performs no bounds checking against
//! the target's memory layout: an out-of-range address surfaces as an OS
//! failure, classified here, never as a panic.

use vstd::prelude::*;
use vstd::bytes::lemma_auto_spec_u16_to_from_le_bytes;
use vstd::bytes::lemma_auto_spec_u32_to_from_le_bytes;
use vstd::bytes::spec_u16_from_le_bytes;
use vstd::bytes::spec_u16_to_le_bytes;
use vstd::bytes::spec_u32_from_le_bytes;
use vstd::bytes::spec_u32_to_le_bytes;
use vstd::bytes::u16_from_le_bytes;
use vstd::bytes::u16_to_le_bytes;
use vstd::bytes::u32_from_le_bytes;
use vstd::bytes::u32_to_le_bytes;
use crate::errors::GamecheatError;

verus! {

/// An open handle to the located process together with the load address of
/// its image, resolved once at construction and immutable afterwards.
///
/// The handle is owned exclusively: nothing else may close or duplicate it.
/// Releasing it goes through `release`, which consumes the accessor, so a
/// second release of the same accessor is rejected by the compiler — the
/// close happens exactly once, however the accessor's lifetime ends.
pub struct GameHandle {
    pub handle: u64,
    pub image_base: u64,
}

impl GameHandle {
    /// Builds the accessor from an opened handle and the resolved image base.
    pub fn new(handle: u64, image_base: u64) -> (r: GameHandle)
        ensures
            r.handle == handle,
            r.image_base == image_base,
    {
        GameHandle { handle, image_base }
    }

    /// The raw process handle this accessor owns.
    pub fn handle(&self) -> (r: u64)
        ensures
            r == self.handle,
    {
        self.handle
    }

    /// The load address of the process's image.
    pub fn image_base(&self) -> (r: u64)
        ensures
            r == self.image_base,
    {
        self.image_base
    }

    /// The address a memory operation targets: `image_base + offset`,
    /// deliberately computed in wrapping 64-bit unsigned space.
    pub fn target_address(&self, offset: u64) -> (addr: u64)
        ensures
            self.image_base + offset <= u64::MAX ==> addr == self.image_base + offset,
            self.image_base + offset > u64::MAX ==> addr == self.image_base + offset
                - 0x1_0000_0000_0000_0000,
    {
        self.image_base.wrapping_add(offset)
    }

    /// Gives up ownership and hands the raw handle out for the one close
    /// operation. Consuming `self` makes a second release of this accessor
    /// impossible.
    pub fn release(self) -> (raw: u64)
        ensures
            raw == self.handle,
    {
        self.handle
    }
}

/// The little-endian encoding of a `u8`: the byte itself.
pub open spec fn spec_u8_to_le_bytes(x: u8) -> Seq<u8> {
    seq![x]
}

/// The `u8` read from a one-byte little-endian buffer.
pub open spec fn spec_u8_from_le_bytes(s: Seq<u8>) -> u8
    recommends
        s.len() == 1,
{
    s[0]
}

/// The bytes a write of a `u8` value transfers.
pub fn write_bytes_u8(value: u8) -> (b: Vec<u8>)
    ensures
        b@ == spec_u8_to_le_bytes(value),
{
    let mut b: Vec<u8> = Vec::new();
    b.push(value);
    assert(b@ =~= spec_u8_to_le_bytes(value));
    b
}

/// The bytes a write of a `u16` value transfers: its little-endian encoding.
pub fn write_bytes_u16(value: u16) -> (b: Vec<u8>)
    ensures
        b@ == spec_u16_to_le_bytes(value),
        b@.len() == 2,
{
    u16_to_le_bytes(value)
}

/// The bytes a write of a `u32` value transfers: its little-endian encoding.
pub fn write_bytes_u32(value: u32) -> (b: Vec<u8>)
    ensures
        b@ == spec_u32_to_le_bytes(value),
        b@.len() == 4,
{
    u32_to_le_bytes(value)
}

/// Spec-level outcome of finishing a read of `size` bytes: the transfer
/// counts as complete only when the OS reported success and transferred
/// exactly the requested number of bytes. A short read is a failure, never a
/// truncated or zero-padded value.
pub open spec fn read_completed(success: bool, bytes_transferred: usize, size: usize) -> bool {
    success && bytes_transferred == size
}

/// Finishes a one-byte read: decodes the buffer when the transfer is
/// complete, reports `ReadFailure` with the OS error code otherwise.
pub fn finish_read_u8(success: bool, os_error: u32, bytes_transferred: usize, buffer: &[u8]) -> (r:
    Result<u8, GamecheatError>)
    requires
        buffer@.len() == 1,
    ensures
        read_completed(success, bytes_transferred, 1) ==> r == Ok::<u8, GamecheatError>(
            spec_u8_from_le_bytes(buffer@),
        ),
        !read_completed(success, bytes_transferred, 1) ==> r == Err::<u8, GamecheatError>(
            (GamecheatError::ReadFailure { os_error }),
        ),
{
    if success && bytes_transferred == 1 {
        Ok(buffer[0])
    } else {
        Err(GamecheatError::ReadFailure { os_error })
    }
}

/// Finishes a two-byte read: decodes the buffer as little-endian `u16` when
/// the transfer is complete, reports `ReadFailure` otherwise.
pub fn finish_read_u16(success: bool, os_error: u32, bytes_transferred: usize, buffer: &[u8]) -> (r:
    Result<u16, GamecheatError>)
    requires
        buffer@.len() == 2,
    ensures
        read_completed(success, bytes_transferred, 2) ==> r == Ok::<u16, GamecheatError>(
            spec_u16_from_le_bytes(buffer@),
        ),
        !read_completed(success, bytes_transferred, 2) ==> r == Err::<u16, GamecheatError>(
            (GamecheatError::ReadFailure { os_error }),
        ),
{
    if success && bytes_transferred == 2 {
        Ok(u16_from_le_bytes(buffer))
    } else {
        Err(GamecheatError::ReadFailure { os_error })
    }
}

/// Finishes a four-byte read: decodes the buffer as little-endian `u32` when
/// the transfer is complete, reports `ReadFailure` otherwise.
pub fn finish_read_u32(success: bool, os_error: u32, bytes_transferred: usize, buffer: &[u8]) -> (r:
    Result<u32, GamecheatError>)
    requires
        buffer@.len() == 4,
    ensures
        read_completed(success, bytes_transferred, 4) ==> r == Ok::<u32, GamecheatError>(
            spec_u32_from_le_bytes(buffer@),
        ),
        !read_completed(success, bytes_transferred, 4) ==> r == Err::<u32, GamecheatError>(
            (GamecheatError::ReadFailure { os_error }),
        ),
{
    if success && bytes_transferred == 4 {
        Ok(u32_from_le_bytes(buffer))
    } else {
        Err(GamecheatError::ReadFailure { os_error })
    }
}

/// Finishes a write of `requested` bytes: the operation succeeded only when
/// the OS reported success and transferred exactly the requested number of
/// bytes; anything else — outright failure or a short write — is a
/// `WriteFailure` carrying the OS error code.
pub fn finish_write(success: bool, os_error: u32, bytes_transferred: usize, requested: usize) -> (r:
    Result<(), GamecheatError>)
    ensures
        success && bytes_transferred == requested ==> r == Ok::<(), GamecheatError>(()),
        !(success && bytes_transferred == requested) ==> r == Err::<(), GamecheatError>(
            (GamecheatError::WriteFailure { os_error }),
        ),
{
    if success && bytes_transferred == requested {
        Ok(())
    } else {
        Err(GamecheatError::WriteFailure { os_error })
    }
}

/// The decision of the composite add: the value to write back, or
/// `ArithmeticOverflow` — and no write — when the sum cannot be represented.
pub fn composite_add(current: u32, delta: u32) -> (r: Result<u32, GamecheatError>)
    ensures
        current + delta <= u32::MAX ==> r == Ok::<u32, GamecheatError>((current + delta) as u32),
        current + delta > u32::MAX ==> r == Err::<u32, GamecheatError>(
            GamecheatError::ArithmeticOverflow,
        ),
{
    match current.checked_add(delta) {
        Some(v) => Ok(v),
        None => Err(GamecheatError::ArithmeticOverflow),
    }
}

/// The decision of the composite subtract: the value to write back, or
/// `ArithmeticUnderflow` — and no write — when the difference would fall
/// below zero. The value never wraps to a huge unsigned number.
pub fn composite_subtract(current: u32, delta: u32) -> (r: Result<u32, GamecheatError>)
    ensures
        current >= delta ==> r == Ok::<u32, GamecheatError>((current - delta) as u32),
        current < delta ==> r == Err::<u32, GamecheatError>(GamecheatError::ArithmeticUnderflow),
{
    match current.checked_sub(delta) {
        Some(v) => Ok(v),
        None => Err(GamecheatError::ArithmeticUnderflow),
    }
}

/// Round trip at one byte: a write of `v` followed by a read of the same
/// memory — the OS handing back exactly the bytes the write transferred —
/// returns `v`.
pub proof fn lemma_write_read_round_trip_u8(v: u8)
    ensures
        spec_u8_from_le_bytes(spec_u8_to_le_bytes(v)) == v,
{
}

/// Round trip at two bytes: a write of `v` followed by a read of the same
/// memory — the OS handing back exactly the bytes the write transferred —
/// returns `v`.
pub proof fn lemma_write_read_round_trip_u16(v: u16)
    ensures
        spec_u16_from_le_bytes(spec_u16_to_le_bytes(v)) == v,
{
    lemma_auto_spec_u16_to_from_le_bytes();
    assert(spec_u16_to_le_bytes(v).len() == 2);
}

/// Round trip at four bytes: a write of `v` followed by a read of the same
/// memory — the OS handing back exactly the bytes the write transferred —
/// returns `v`.
pub proof fn lemma_write_read_round_trip_u32(v: u32)
    ensures
        spec_u32_from_le_bytes(spec_u32_to_le_bytes(v)) == v,
{
    lemma_auto_spec_u32_to_from_le_bytes();
    assert(spec_u32_to_le_bytes(v).len() == 4);
}

} // verus!
