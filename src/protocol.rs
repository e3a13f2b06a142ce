//! The worker side of the protocol: how a process learns that it is a
//! worker, and what it writes to the result channel before it exits.
use vstd::prelude::*;

use crate::decimal::{decimal_text, format_decimal, lemma_parse_format, parse_decimal, parsed_decimal};

verus! {

/// First byte of every reply on the result channel. A channel that closes
/// without it carries no reply, even when the encoded result is empty.
pub const REPLY_TAG: u8 = 1;

/// The bytes a worker writes for the encoded result `payload`.
pub open spec fn framed(payload: Seq<u8>) -> Seq<u8> {
    seq![REPLY_TAG] + payload
}

/// The encoded result that the channel bytes `b` carry, if they carry one.
pub open spec fn reply_payload(b: Seq<u8>) -> Option<Seq<u8>> {
    if b.len() > 0 && b[0] == REPLY_TAG {
        Some(b.drop_first())
    } else {
        None
    }
}

/// Frames an encoded result for the result channel.
pub fn frame_reply(payload: &[u8]) -> (r: Vec<u8>)
    ensures
        r@ == framed(payload@),
{
    let mut r: Vec<u8> = Vec::new();
    r.push(REPLY_TAG);
    let mut i: usize = 0;
    while i < payload.len()
        invariant
            i <= payload@.len(),
            r@ == seq![REPLY_TAG] + payload@.take(i as int),
        decreases payload@.len() - i,
    {
        r.push(payload[i]);
        i = i + 1;
        assert(r@ =~= seq![REPLY_TAG] + payload@.take(i as int));
    }
    assert(payload@.take(payload@.len() as int) =~= payload@);
    r
}

/// Takes the encoded result out of what was read from the result channel.
pub fn unframe_reply(b: &[u8]) -> (r: Option<Vec<u8>>)
    ensures
        reply_payload(b@) is None ==> r is None,
        reply_payload(b@) is Some ==> (r is Some && r->0@ == reply_payload(b@)->0),
{
    if b.len() == 0 || b[0] != REPLY_TAG {
        return None;
    }
    let mut r: Vec<u8> = Vec::new();
    let mut i: usize = 1;
    while i < b.len()
        invariant
            1 <= i <= b@.len(),
            r@ == b@.subrange(1, i as int),
        decreases b@.len() - i,
    {
        r.push(b[i]);
        i = i + 1;
        assert(r@ =~= b@.subrange(1, i as int));
    }
    assert(r@ =~= b@.drop_first());
    Some(r)
}

/// Unframing a framed reply gives the encoded result back.
pub proof fn lemma_frame_round_trip(payload: Seq<u8>)
    ensures
        reply_payload(framed(payload)) == Some(payload),
        framed(payload).len() > 0,
{
    assert(framed(payload).drop_first() =~= payload);
}

/// What a worker found in its environment: the signature hash it must run and
/// the raw handles of its argument and result channels.
#[derive(Debug, Clone, Copy, PartialEq, Eq, Structural)]
pub struct WorkerMarker {
    pub hash: u64,
    pub args_handle: i32,
    pub result_handle: i32,
}

/// The raw handle that decimal text `s` names, if any.
pub open spec fn parsed_handle(s: Seq<u8>) -> Option<i32> {
    match parsed_decimal(s) {
        Some(v) => if v <= i32::MAX {
            Some(v as i32)
        } else {
            None
        },
        None => None,
    }
}

/// The marker that the three environment values stand for: all three are
/// present and well formed, or the process is no worker.
pub open spec fn marker_of(hash: Option<Seq<u8>>, args: Option<Seq<u8>>, result: Option<Seq<u8>>) -> Option<WorkerMarker> {
    if hash is Some && args is Some && result is Some && parsed_decimal(hash->0) is Some
        && parsed_handle(args->0) is Some && parsed_handle(result->0) is Some {
        Some(
            WorkerMarker {
                hash: parsed_decimal(hash->0)->0,
                args_handle: parsed_handle(args->0)->0,
                result_handle: parsed_handle(result->0)->0,
            },
        )
    } else {
        None
    }
}

/// The view of an optional environment value.
pub open spec fn opt_view(v: Option<&[u8]>) -> Option<Seq<u8>> {
    match v {
        Some(s) => Some(s@),
        None => None,
    }
}

fn parse_handle(s: &[u8]) -> (r: Option<i32>)
    ensures
        r == parsed_handle(s@),
{
    match parse_decimal(s) {
        Some(v) => if v <= 0x7fff_ffff {
            Some(v as i32)
        } else {
            None
        },
        None => None,
    }
}

/// Decides from the three environment values whether this process is a
/// worker, and which call it must serve.
pub fn detect_worker(hash: Option<&[u8]>, args: Option<&[u8]>, result: Option<&[u8]>) -> (r: Option<WorkerMarker>)
    ensures
        r == marker_of(opt_view(hash), opt_view(args), opt_view(result)),
{
    match (hash, args, result) {
        (Some(h), Some(a), Some(s)) => {
            let hv = parse_decimal(h);
            let av = parse_handle(a);
            let sv = parse_handle(s);
            match (hv, av, sv) {
                (Some(hash), Some(args_handle), Some(result_handle)) => Some(
                    WorkerMarker { hash, args_handle, result_handle },
                ),
                _ => None,
            }
        },
        _ => None,
    }
}

/// The three environment values that hand `m` to a spawned worker.
pub open spec fn marker_values(m: WorkerMarker) -> (Seq<u8>, Seq<u8>, Seq<u8>) {
    (
        decimal_text(m.hash as nat),
        decimal_text(m.args_handle as nat),
        decimal_text(m.result_handle as nat),
    )
}

/// Writes the three environment values that hand `m` to a spawned worker.
pub fn marker_env(m: &WorkerMarker) -> (r: (Vec<u8>, Vec<u8>, Vec<u8>))
    requires
        m.args_handle >= 0,
        m.result_handle >= 0,
    ensures
        (r.0@, r.1@, r.2@) == marker_values(*m),
{
    (format_decimal(m.hash), format_decimal(m.args_handle as u64), format_decimal(m.result_handle as u64))
}

/// A worker that reads the values written for a marker finds that marker.
pub proof fn lemma_marker_round_trip(m: WorkerMarker)
    requires
        m.args_handle >= 0,
        m.result_handle >= 0,
    ensures
        marker_of(
            Some(marker_values(m).0),
            Some(marker_values(m).1),
            Some(marker_values(m).2),
        ) == Some(m),
{
    lemma_parse_format(m.hash);
    lemma_parse_format(m.args_handle as u64);
    lemma_parse_format(m.result_handle as u64);
}

} // verus!
