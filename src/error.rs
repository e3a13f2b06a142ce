use vstd::prelude::*;

verus! {

/// Errors reported by the process-function runtime.
#[derive(Debug)]
pub enum ProcessFunError {
    /// More than one `process` marker was found on one function.
    MultipleTags { fun: String },
    /// The `process` marker was placed on something that is not a function with a body.
    BadItemType { item_text: String },
    /// Reading or writing a channel or a file failed.
    IoError(String),
    /// Source text could not be parsed.
    ParseError(String),
    /// Communication with the worker process failed.
    ProcessError(String),
    /// Arguments or a result could not be encoded or decoded.
    SerError(String),
    /// The worker did not reply before the deadline.
    TimeoutError,
    /// The worker exited without writing a reply.
    WorkerFailed,
    /// Sending the kill signal failed with the given OS error number.
    SignalFailure(i32),
}

/// `e` is a `ProcessError` whose message is `msg`.
pub open spec fn is_process_error(e: ProcessFunError, msg: Seq<char>) -> bool {
    match e {
        ProcessFunError::ProcessError(m) => m@ == msg,
        _ => false,
    }
}

/// `e` is an `IoError` whose message is `msg`.
pub open spec fn is_io_error(e: ProcessFunError, msg: Seq<char>) -> bool {
    match e {
        ProcessFunError::IoError(m) => m@ == msg,
        _ => false,
    }
}

/// The error for a handle whose result channel has already been handed out.
pub fn already_completed() -> (e: ProcessFunError)
    ensures
        is_process_error(e, "Process already completed"@),
{
    ProcessFunError::ProcessError("Process already completed".to_owned())
}

} // verus!
