//! Creation-time stamps: how a worker's creation time is computed from the
//! kernel's process metadata and how it crosses the result channel.
use vstd::prelude::*;

use crate::error::{is_io_error, ProcessFunError};

verus! {

/// Number of bytes a creation-time stamp occupies on the channel.
pub const STAMP_LEN: usize = 8;

/// Byte `i` (least significant first) of `v`.
pub open spec fn byte_of(v: u64, i: u64) -> u8 {
    ((v >> (8 * i)) & 0xff) as u8
}

/// The eight little-endian bytes of a stamp.
pub open spec fn stamp_bytes(v: u64) -> Seq<u8> {
    seq![
        byte_of(v, 0), byte_of(v, 1), byte_of(v, 2), byte_of(v, 3),
        byte_of(v, 4), byte_of(v, 5), byte_of(v, 6), byte_of(v, 7),
    ]
}

/// The stamp that eight little-endian bytes stand for.
pub open spec fn stamp_value(b: Seq<u8>) -> u64
    recommends
        b.len() == 8,
{
    (b[0] as u64) | ((b[1] as u64) << 8u64) | ((b[2] as u64) << 16u64) | ((b[3] as u64) << 24u64)
        | ((b[4] as u64) << 32u64) | ((b[5] as u64) << 40u64) | ((b[6] as u64) << 48u64)
        | ((b[7] as u64) << 56u64)
}

/// The creation time, in whole seconds since the Unix epoch, of a process
/// whose status-change time reads `ctime`; times before the epoch have none.
pub open spec fn creation_seconds(ctime: i64) -> Option<u64> {
    if ctime >= 0 {
        Some(ctime as u64)
    } else {
        None
    }
}

/// Computes a worker's creation time from the status-change time that the
/// kernel reports for its process entry.
pub fn start_time_from_ctime(ctime: i64) -> (r: Result<u64, ProcessFunError>)
    ensures
        creation_seconds(ctime) is Some ==> r == Ok::<u64, ProcessFunError>(
            creation_seconds(ctime)->0,
        ),
        creation_seconds(ctime) is None ==> (r is Err && crate::error::is_process_error(
            r->Err_0,
            "Failed to calculate process start time"@,
        )),
{
    if ctime >= 0 {
        Ok(ctime as u64)
    } else {
        Err(ProcessFunError::ProcessError("Failed to calculate process start time".to_owned()))
    }
}

/// Encodes a creation-time stamp for the channel.
pub fn encode_start_time(v: u64) -> (r: Vec<u8>)
    ensures
        r@ == stamp_bytes(v),
        r@.len() == STAMP_LEN,
{
    let mut r: Vec<u8> = Vec::new();
    let mut i: u64 = 0;
    while i < 8
        invariant
            i <= 8,
            r@.len() == i,
            forall|j: int| 0 <= j < i ==> r@[j] == byte_of(v, j as u64),
        decreases 8 - i,
    {
        r.push(((v >> (8 * i)) & 0xff) as u8);
        i = i + 1;
    }
    assert(r@ =~= stamp_bytes(v));
    r
}

/// Decodes a creation-time stamp read from the channel; anything but exactly
/// eight bytes means the channel ended early.
pub fn decode_start_time(b: &[u8]) -> (r: Result<u64, ProcessFunError>)
    ensures
        b@.len() == STAMP_LEN ==> r == Ok::<u64, ProcessFunError>(stamp_value(b@)),
        b@.len() != STAMP_LEN ==> (r is Err && is_io_error(r->Err_0, "failed to fill whole buffer"@)),
{
    if b.len() != STAMP_LEN {
        return Err(ProcessFunError::IoError("failed to fill whole buffer".to_owned()));
    }
    let v = (b[0] as u64) | ((b[1] as u64) << 8u64) | ((b[2] as u64) << 16u64) | ((b[3] as u64)
        << 24u64) | ((b[4] as u64) << 32u64) | ((b[5] as u64) << 40u64) | ((b[6] as u64) << 48u64)
        | ((b[7] as u64) << 56u64);
    Ok(v)
}

proof fn lemma_bytes_reassemble(v: u64)
    ensures
        ((v & 0xff) | (((v >> 8) & 0xff) << 8) | (((v >> 16) & 0xff) << 16) | (((v >> 24) & 0xff)
            << 24) | (((v >> 32) & 0xff) << 32) | (((v >> 40) & 0xff) << 40) | (((v >> 48) & 0xff)
            << 48) | (((v >> 56) & 0xff) << 56)) == v,
{
    assert(((v & 0xff) | (((v >> 8) & 0xff) << 8) | (((v >> 16) & 0xff) << 16) | (((v >> 24)
        & 0xff) << 24) | (((v >> 32) & 0xff) << 32) | (((v >> 40) & 0xff) << 40) | (((v >> 48)
        & 0xff) << 48) | (((v >> 56) & 0xff) << 56)) == v) by (bit_vector);
}

proof fn lemma_byte_widen(x: u64)
    ensures
        ((x & 0xff) as u8) as u64 == x & 0xff,
{
    assert(x & 0xff <= 0xff) by (bit_vector);
}

/// Decoding an encoded stamp gives the stamp back.
pub proof fn lemma_stamp_round_trip(v: u64)
    ensures
        stamp_bytes(v).len() == STAMP_LEN,
        stamp_value(stamp_bytes(v)) == v,
{
    assert(byte_of(v, 0) == (v & 0xff) as u8) by (bit_vector);
    assert(byte_of(v, 1) == ((v >> 8) & 0xff) as u8);
    assert(byte_of(v, 2) == ((v >> 16) & 0xff) as u8);
    assert(byte_of(v, 3) == ((v >> 24) & 0xff) as u8);
    assert(byte_of(v, 4) == ((v >> 32) & 0xff) as u8);
    assert(byte_of(v, 5) == ((v >> 40) & 0xff) as u8);
    assert(byte_of(v, 6) == ((v >> 48) & 0xff) as u8);
    assert(byte_of(v, 7) == ((v >> 56) & 0xff) as u8);
    lemma_byte_widen(v);
    lemma_byte_widen(v >> 8);
    lemma_byte_widen(v >> 16);
    lemma_byte_widen(v >> 24);
    lemma_byte_widen(v >> 32);
    lemma_byte_widen(v >> 40);
    lemma_byte_widen(v >> 48);
    lemma_byte_widen(v >> 56);
    lemma_bytes_reassemble(v);
}

} // verus!
