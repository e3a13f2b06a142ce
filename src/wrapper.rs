//! The lifecycle of a launched worker, seen from the caller's handle.
//!
//! The handle owns the worker's PID, its recorded creation time, the unread
//! end of the result channel and, once read, the worker's reply. Each method
//! decides the next step from that state; the caller performs the step (a
//! channel read, a kill signal) and hands back what came of it.
use vstd::prelude::*;

use crate::error::{already_completed, is_process_error, ProcessFunError};
use crate::guard::{kill_step_of, plan_kill, KillStep};
use crate::protocol::{reply_payload, unframe_reply};

verus! {

/// What a handle holds, as plain values.
pub struct WrapperView {
    pub pid: i32,
    pub start_time: u64,
    pub channel_open: bool,
    pub reply: Option<Seq<u8>>,
}

/// The caller's handle on one worker process.
#[derive(Debug)]
pub struct ProcessWrapper {
    child_pid: i32,
    start_time: u64,
    channel_open: bool,
    result: Option<Vec<u8>>,
}

impl View for ProcessWrapper {
    type V = WrapperView;

    closed spec fn view(&self) -> WrapperView {
        WrapperView {
            pid: self.child_pid,
            start_time: self.start_time,
            channel_open: self.channel_open,
            reply: match self.result {
                Some(b) => Some(b@),
                None => None,
            },
        }
    }
}

/// The next step of a wait.
#[derive(Debug)]
pub enum WaitStep {
    /// The reply is at hand: decode these bytes.
    Decode(Vec<u8>),
    /// The channel end has been handed out: read it to its end and give the
    /// outcome to `receive`.
    ReadChannel,
    /// Waiting is impossible.
    Fail(ProcessFunError),
}

/// How a wait with a deadline ends.
#[derive(Debug)]
pub enum TimeoutStep {
    /// The read finished in time, with this outcome.
    Finished(Result<Vec<u8>, ProcessFunError>),
    /// The deadline passed: take the step, then report the error.
    Expired(KillStep, ProcessFunError),
}

/// The handle of a worker that was just launched.
pub open spec fn launched(pid: i32, start_time: u64) -> WrapperView {
    WrapperView { pid, start_time, channel_open: true, reply: None }
}

/// The reply that a wait on `v` hands out without reading, if any.
pub open spec fn wait_reply(v: WrapperView) -> Option<Seq<u8>> {
    v.reply
}

/// A wait on `v` must read the channel.
pub open spec fn wait_reads(v: WrapperView) -> bool {
    v.reply is None && v.channel_open
}

/// The handle after a wait on `v` has decided its step.
pub open spec fn wait_next(v: WrapperView) -> WrapperView {
    if wait_reads(v) {
        WrapperView { channel_open: false, ..v }
    } else {
        v
    }
}

/// The handle after a read of the channel produced `bytes`.
pub open spec fn receive_next(v: WrapperView, bytes: Seq<u8>) -> WrapperView {
    if reply_payload(bytes) is Some {
        WrapperView { reply: reply_payload(bytes), ..v }
    } else {
        v
    }
}

/// The handle after an abort.
pub open spec fn abort_next(v: WrapperView) -> WrapperView {
    WrapperView { channel_open: false, ..v }
}

impl ProcessWrapper {
    /// The handle of worker `child_pid`, created at `start_time`, whose
    /// result channel is still unread.
    pub fn new(child_pid: i32, start_time: u64) -> (r: Self)
        ensures
            r@ == launched(child_pid, start_time),
    {
        ProcessWrapper { child_pid, start_time, channel_open: true, result: None }
    }

    /// The worker's PID.
    pub fn pid(&self) -> (r: i32)
        ensures
            r == self@.pid,
    {
        self.child_pid
    }

    /// The worker's recorded creation time.
    pub fn start_time(&self) -> (r: u64)
        ensures
            r == self@.start_time,
    {
        self.start_time
    }

    /// Decides the next step of a blocking wait: a reply that was already
    /// read is handed out again, else the channel is read once.
    pub fn wait(&mut self) -> (r: WaitStep)
        ensures
            final(self)@ == wait_next(old(self)@),
            wait_reply(old(self)@) is Some ==> (r is Decode && r->Decode_0@ == wait_reply(
                old(self)@,
            )->0),
            wait_reads(old(self)@) ==> r is ReadChannel,
            wait_reply(old(self)@) is None && !wait_reads(old(self)@) ==> (r is Fail
                && is_process_error(r->Fail_0, "Process already completed"@)),
    {
        match &self.result {
            Some(b) => WaitStep::Decode(b.clone()),
            None => {
                if self.channel_open {
                    self.channel_open = false;
                    WaitStep::ReadChannel
                } else {
                    WaitStep::Fail(already_completed())
                }
            },
        }
    }

    /// Takes the outcome of reading the result channel to its end and
    /// returns the encoded result. A channel that closed without a reply
    /// means the worker exited without replying.
    pub fn receive(&mut self, read: Result<Vec<u8>, ProcessFunError>) -> (r: Result<
        Vec<u8>,
        ProcessFunError,
    >)
        ensures
            read is Err ==> final(self)@ == old(self)@ && r == read,
            read is Ok ==> final(self)@ == receive_next(old(self)@, read->Ok_0@),
            read is Ok && reply_payload(read->Ok_0@) is None ==> r matches Err(
                ProcessFunError::WorkerFailed,
            ),
            read is Ok && reply_payload(read->Ok_0@) is Some ==> (r is Ok && r->Ok_0@
                == reply_payload(read->Ok_0@)->0),
    {
        match read {
            Err(e) => Err(e),
            Ok(bytes) => match unframe_reply(bytes.as_slice()) {
                None => Err(ProcessFunError::WorkerFailed),
                Some(payload) => {
                    self.result = Some(payload.clone());
                    Ok(payload)
                },
            },
        }
    }

    /// Drops the unread channel end, so that a pending reader stops, and
    /// decides whether the worker may be signalled: only while the process
    /// behind its PID has the recorded creation time (`current`, `None`
    /// when no process holds the PID).
    pub fn abort(&mut self, current: Option<u64>) -> (r: KillStep)
        ensures
            final(self)@ == abort_next(old(self)@),
            r == kill_step_of(old(self)@.pid, old(self)@.start_time, current),
    {
        self.channel_open = false;
        plan_kill(self.child_pid, self.start_time, current)
    }

    /// Ends a wait with a deadline. `raced` is the outcome of the read when it
    /// finished within the deadline, `None` when the deadline passed first;
    /// then the worker is aborted before the timeout is reported.
    pub fn timeout(&mut self, raced: Option<Result<Vec<u8>, ProcessFunError>>, current: Option<
        u64,
    >) -> (r: TimeoutStep)
        ensures
            raced is None ==> final(self)@ == abort_next(old(self)@),
            raced is None ==> (r matches TimeoutStep::Expired(k, e) && k == kill_step_of(
                old(self)@.pid,
                old(self)@.start_time,
                current,
            ) && e is TimeoutError),
            raced is Some && raced->0 is Err ==> final(self)@ == old(self)@,
            raced is Some && raced->0 is Err ==> r == TimeoutStep::Finished(raced->0),
            raced is Some && raced->0 is Ok ==> final(self)@ == receive_next(
                old(self)@,
                raced->0->Ok_0@,
            ),
            raced is Some && raced->0 is Ok && reply_payload(raced->0->Ok_0@) is None ==> r
                matches TimeoutStep::Finished(Err(ProcessFunError::WorkerFailed)),
            raced is Some && raced->0 is Ok && reply_payload(raced->0->Ok_0@) is Some ==> (r
                matches TimeoutStep::Finished(Ok(c)) && c@ == reply_payload(raced->0->Ok_0@)->0),
    {
        match raced {
            Some(read) => TimeoutStep::Finished(self.receive(read)),
            None => {
                let k = self.abort(current);
                TimeoutStep::Expired(k, ProcessFunError::TimeoutError)
            },
        }
    }
}

/// Once a reply has been received, every later wait hands out the same
/// encoded result without reading the channel and without changing the handle.
pub proof fn lemma_wait_idempotent(v: WrapperView, bytes: Seq<u8>)
    requires
        reply_payload(bytes) is Some,
    ensures
        wait_reply(receive_next(v, bytes)) == reply_payload(bytes),
        !wait_reads(receive_next(v, bytes)),
        wait_next(receive_next(v, bytes)) == receive_next(v, bytes),
        wait_reply(wait_next(receive_next(v, bytes))) == reply_payload(bytes),
{
}

/// After an abort no wait reads the channel again, and aborting again
/// changes nothing.
pub proof fn lemma_abort_closes_channel(v: WrapperView)
    ensures
        !wait_reads(abort_next(v)),
        !abort_next(v).channel_open,
        abort_next(abort_next(v)) == abort_next(v),
{
}

} // verus!
