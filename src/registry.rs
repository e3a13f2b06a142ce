//! Signature hashes and the table that maps them to invokable functions.
use vstd::prelude::*;

use crate::protocol::{frame_reply, framed, reply_payload};
use crate::wrapper::{receive_next, WrapperView};

verus! {

/// Starting value of the signature hash (64-bit FNV-1a).
pub const HASH_OFFSET: u64 = 0xcbf2_9ce4_8422_2325;

/// Multiplier of the signature hash (64-bit FNV-1a).
pub const HASH_PRIME: u64 = 0x0000_0100_0000_01b3;

/// The 64-bit FNV-1a hash of `s`.
pub open spec fn fnv1a(s: Seq<u8>) -> u64
    decreases s.len(),
{
    if s.len() == 0 {
        HASH_OFFSET
    } else {
        (fnv1a(s.drop_last()) ^ (s.last() as u64)).wrapping_mul(HASH_PRIME)
    }
}

/// The parts of `parts` separated by commas.
pub open spec fn comma_joined(parts: Seq<Seq<u8>>) -> Seq<u8>
    decreases parts.len(),
{
    if parts.len() == 0 {
        Seq::empty()
    } else if parts.len() == 1 {
        parts[0]
    } else {
        comma_joined(parts.drop_last()) + seq![44u8] + parts.last()
    }
}

/// The text a signature hash is taken of: `name(arg,arg)->ret`.
pub open spec fn signature_text(name: Seq<u8>, args: Seq<Seq<u8>>, ret: Seq<u8>) -> Seq<u8> {
    name + seq![40u8] + comma_joined(args) + seq![41u8, 45u8, 62u8] + ret
}

/// The views of a list of byte strings.
pub open spec fn views(v: Seq<Vec<u8>>) -> Seq<Seq<u8>> {
    v.map_values(|b: Vec<u8>| b@)
}

fn append(out: &mut Vec<u8>, b: &[u8])
    ensures
        final(out)@ == old(out)@ + b@,
{
    let mut i: usize = 0;
    while i < b.len()
        invariant
            i <= b@.len(),
            out@ == old(out)@ + b@.take(i as int),
        decreases b@.len() - i,
    {
        out.push(b[i]);
        i = i + 1;
        assert(out@ =~= old(out)@ + b@.take(i as int));
    }
    assert(b@.take(b@.len() as int) =~= b@);
}

/// Writes the text that identifies a function by its name, the types of its
/// arguments in order, and its return type.
pub fn describe_signature(name: &[u8], args: &Vec<Vec<u8>>, ret: &[u8]) -> (r: Vec<u8>)
    ensures
        r@ == signature_text(name@, views(args@), ret@),
{
    let mut out: Vec<u8> = Vec::new();
    append(&mut out, name);
    out.push(40u8);
    let ghost start = out@;
    let mut i: usize = 0;
    while i < args.len()
        invariant
            i <= args@.len(),
            out@ == start + comma_joined(views(args@).take(i as int)),
        decreases args@.len() - i,
    {
        let ghost before = out@;
        if i > 0 {
            out.push(44u8);
        }
        append(&mut out, args[i].as_slice());
        proof {
            let p = views(args@).take(i as int + 1);
            assert(p.drop_last() =~= views(args@).take(i as int));
            assert(p.last() == args@[i as int]@);
            if i == 0 {
                assert(comma_joined(views(args@).take(0)) =~= Seq::<u8>::empty());
                assert(out@ =~= start + comma_joined(p));
            } else {
                assert(out@ =~= start + comma_joined(p));
            }
        }
        i = i + 1;
    }
    assert(views(args@).take(args@.len() as int) =~= views(args@));
    out.push(41u8);
    out.push(45u8);
    out.push(62u8);
    append(&mut out, ret);
    assert(out@ =~= signature_text(name@, views(args@), ret@));
    out
}

/// The 64-bit FNV-1a hash of a signature text.
pub fn signature_hash(text: &[u8]) -> (r: u64)
    ensures
        r == fnv1a(text@),
{
    let mut h: u64 = HASH_OFFSET;
    let mut i: usize = 0;
    while i < text.len()
        invariant
            i <= text@.len(),
            h == fnv1a(text@.take(i as int)),
        decreases text@.len() - i,
    {
        assert(text@.take(i as int + 1).drop_last() =~= text@.take(i as int));
        h = (h ^ (text[i] as u64)).wrapping_mul(HASH_PRIME);
        i = i + 1;
    }
    assert(text@.take(text@.len() as int) =~= text@);
    h
}

/// One invokable function: its name and its signature hash.
#[derive(Debug)]
pub struct RegistryEntry {
    pub name: String,
    pub hash: u64,
}

/// The table from signature hash to invokable function. Entries are only
/// ever added; the position of an entry names its handler.
#[derive(Debug)]
pub struct Registry {
    entries: Vec<RegistryEntry>,
}

/// Some entry of `entries` has signature hash `hash`.
pub open spec fn registered(entries: Seq<(Seq<char>, u64)>, hash: u64) -> bool {
    exists|i: int| 0 <= i < entries.len() && (#[trigger] entries[i]).1 == hash
}

/// The position of the first entry with signature hash `hash`.
pub open spec fn first_with(entries: Seq<(Seq<char>, u64)>, hash: u64, i: int) -> bool {
    &&& 0 <= i < entries.len()
    &&& entries[i].1 == hash
    &&& forall|j: int| 0 <= j < i ==> (#[trigger] entries[j]).1 != hash
}

impl View for Registry {
    type V = Seq<(Seq<char>, u64)>;

    closed spec fn view(&self) -> Seq<(Seq<char>, u64)> {
        self.entries@.map_values(|e: RegistryEntry| (e.name@, e.hash))
    }
}

impl Registry {
    /// An empty table.
    pub fn new() -> (r: Self)
        ensures
            r@ == Seq::<(Seq<char>, u64)>::empty(),
    {
        let r = Registry { entries: Vec::new() };
        assert(r@ =~= Seq::<(Seq<char>, u64)>::empty());
        r
    }

    /// Adds an invokable function; its handler is at position `len()` before
    /// the call.
    pub fn submit(&mut self, name: String, hash: u64)
        ensures
            final(self)@ == old(self)@.push((name@, hash)),
    {
        self.entries.push(RegistryEntry { name, hash });
        assert(self@ =~= old(self)@.push((name@, hash)));
    }

    /// The number of entries.
    pub fn len(&self) -> (r: usize)
        ensures
            r == self@.len(),
    {
        self.entries.len()
    }

    /// The position of the first entry with signature hash `hash`, if any.
    pub fn find(&self, hash: u64) -> (r: Option<usize>)
        ensures
            r is None <==> !registered(self@, hash),
            r is Some ==> first_with(self@, hash, r->0 as int),
    {
        let mut i: usize = 0;
        while i < self.entries.len()
            invariant
                i <= self@.len(),
                self@.len() == self.entries@.len(),
                forall|j: int| 0 <= j < i ==> (#[trigger] self@[j]).1 != hash,
            decreases self.entries@.len() - i,
        {
            assert(self@[i as int].1 == self.entries@[i as int].hash);
            if self.entries[i].hash == hash {
                return Some(i);
            }
            i = i + 1;
        }
        None
    }
}

/// How a worker ends after its one dispatch.
#[derive(Debug)]
pub enum WorkerExit {
    /// Write these bytes to the result channel, close it, exit with status 0.
    Reply(Vec<u8>),
    /// Write nothing and exit with a non-zero status.
    Fail,
}

/// What a worker writes to the result channel when it was assigned `hash`
/// and, if that hash is registered, its handler produced `reply`.
pub open spec fn worker_output(entries: Seq<(Seq<char>, u64)>, hash: u64, reply: Option<Seq<u8>>) -> Seq<u8> {
    if registered(entries, hash) && reply is Some {
        framed(reply->0)
    } else {
        Seq::empty()
    }
}

/// Decides how a worker ends: `found` is where its hash was found in the
/// table, `reply` what the handler returned there (`None` when it found
/// nothing to decode, or the call failed).
pub fn finish_worker(found: Option<usize>, reply: Option<Vec<u8>>) -> (r: WorkerExit)
    ensures
        found is Some && reply is Some ==> (r is Reply && r->Reply_0@ == framed(reply->0@)),
        found is None || reply is None ==> r is Fail,
{
    match (found, reply) {
        (Some(_), Some(p)) => WorkerExit::Reply(frame_reply(p.as_slice())),
        _ => WorkerExit::Fail,
    }
}

/// The status a worker exits with.
pub fn exit_status(e: &WorkerExit) -> (r: i32)
    ensures
        (r == 0) == (e is Reply),
{
    match e {
        WorkerExit::Reply(_) => 0,
        WorkerExit::Fail => 1,
    }
}

/// A worker assigned a hash that no entry has writes nothing, so the
/// caller's read finds no reply and its wait fails.
pub proof fn lemma_unknown_hash_no_reply(entries: Seq<(Seq<char>, u64)>, hash: u64, reply: Option<Seq<u8>>)
    requires
        !registered(entries, hash),
    ensures
        worker_output(entries, hash, reply) == Seq::<u8>::empty(),
        reply_payload(worker_output(entries, hash, reply)) is None,
        forall|v: WrapperView| #[trigger] receive_next(v, worker_output(entries, hash, reply)) == v,
{
}

/// A worker whose handler replied delivers exactly that encoded result.
pub proof fn lemma_known_hash_delivers(entries: Seq<(Seq<char>, u64)>, hash: u64, payload: Seq<u8>)
    requires
        registered(entries, hash),
    ensures
        reply_payload(worker_output(entries, hash, Some(payload))) == Some(payload),
{
    crate::protocol::lemma_frame_round_trip(payload);
}

} // verus!
