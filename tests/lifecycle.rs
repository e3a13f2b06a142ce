use process_fun::guard::KillStep;
use process_fun::protocol::frame_reply;
use process_fun::wrapper::{ProcessWrapper, TimeoutStep, WaitStep};
use process_fun::ProcessFunError;

fn read_through(w: &mut ProcessWrapper, channel: Vec<u8>) -> Result<Vec<u8>, ProcessFunError> {
    match w.wait() {
        WaitStep::ReadChannel => w.receive(Ok(channel)),
        WaitStep::Decode(b) => Ok(b),
        WaitStep::Fail(e) => Err(e),
    }
}

#[test]
fn new_handle_reads_channel_once() {
    let mut w = ProcessWrapper::new(77, 1234);
    assert_eq!(w.pid(), 77);
    assert_eq!(w.start_time(), 1234);
    assert!(matches!(w.wait(), WaitStep::ReadChannel));
}

#[test]
fn wait_returns_reply_payload() {
    let mut w = ProcessWrapper::new(77, 1234);
    let r = read_through(&mut w, frame_reply(&[4, 0, 0, 0, 6, 0, 0, 0]));
    assert_eq!(r.unwrap(), vec![4, 0, 0, 0, 6, 0, 0, 0]);
}

#[test]
fn second_wait_gives_same_reply_without_reading() {
    let mut w = ProcessWrapper::new(77, 1234);
    let first = read_through(&mut w, frame_reply(&[42, 0, 0, 0])).unwrap();
    match w.wait() {
        WaitStep::Decode(b) => assert_eq!(b, first),
        other => panic!("unexpected {:?}", other),
    }
    match w.wait() {
        WaitStep::Decode(b) => assert_eq!(b, first),
        other => panic!("unexpected {:?}", other),
    }
}

#[test]
fn empty_reply_payload_is_a_reply() {
    let mut w = ProcessWrapper::new(77, 1234);
    assert_eq!(read_through(&mut w, frame_reply(&[])).unwrap(), Vec::<u8>::new());
}

#[test]
fn closed_empty_channel_is_worker_failed() {
    let mut w = ProcessWrapper::new(77, 1234);
    assert!(matches!(read_through(&mut w, vec![]), Err(ProcessFunError::WorkerFailed)));
    assert!(matches!(w.wait(), WaitStep::Fail(ProcessFunError::ProcessError(_))));
}

#[test]
fn read_error_is_passed_on() {
    let mut w = ProcessWrapper::new(77, 1234);
    assert!(matches!(w.wait(), WaitStep::ReadChannel));
    let r = w.receive(Err(ProcessFunError::IoError("broken".to_string())));
    assert!(matches!(r, Err(ProcessFunError::IoError(m)) if m == "broken"));
}

#[test]
fn wait_after_channel_taken_fails() {
    let mut w = ProcessWrapper::new(77, 1234);
    assert!(matches!(w.wait(), WaitStep::ReadChannel));
    match w.wait() {
        WaitStep::Fail(ProcessFunError::ProcessError(m)) => {
            assert_eq!(m, "Process already completed")
        }
        other => panic!("unexpected {:?}", other),
    }
}

#[test]
fn expired_timeout_kills_then_reports() {
    let mut w = ProcessWrapper::new(77, 1234);
    assert!(matches!(w.wait(), WaitStep::ReadChannel));
    match w.timeout(None, Some(1234)) {
        TimeoutStep::Expired(k, e) => {
            assert_eq!(k, KillStep::Signal(77));
            assert!(matches!(e, ProcessFunError::TimeoutError));
        }
        other => panic!("unexpected {:?}", other),
    }
    assert!(matches!(w.wait(), WaitStep::Fail(_)));
}

#[test]
fn expired_timeout_spares_reused_pid() {
    let mut w = ProcessWrapper::new(77, 1234);
    assert!(matches!(w.wait(), WaitStep::ReadChannel));
    match w.timeout(None, Some(9999)) {
        TimeoutStep::Expired(k, e) => {
            assert_eq!(k, KillStep::AlreadyStopped);
            assert!(matches!(e, ProcessFunError::TimeoutError));
        }
        other => panic!("unexpected {:?}", other),
    }
}

#[test]
fn timeout_in_time_behaves_like_wait() {
    let mut w = ProcessWrapper::new(77, 1234);
    assert!(matches!(w.wait(), WaitStep::ReadChannel));
    match w.timeout(Some(Ok(frame_reply(&[42, 0, 0, 0]))), Some(1234)) {
        TimeoutStep::Finished(Ok(b)) => assert_eq!(b, vec![42, 0, 0, 0]),
        other => panic!("unexpected {:?}", other),
    }
    match w.wait() {
        WaitStep::Decode(b) => assert_eq!(b, vec![42, 0, 0, 0]),
        other => panic!("unexpected {:?}", other),
    }
}

#[test]
fn timeout_in_time_without_reply_is_worker_failed() {
    let mut w = ProcessWrapper::new(77, 1234);
    assert!(matches!(w.wait(), WaitStep::ReadChannel));
    assert!(matches!(
        w.timeout(Some(Ok(vec![])), Some(1234)),
        TimeoutStep::Finished(Err(ProcessFunError::WorkerFailed))
    ));
}

#[test]
fn abort_drops_channel_and_checks_identity() {
    let mut w = ProcessWrapper::new(77, 1234);
    assert_eq!(w.abort(Some(1234)), KillStep::Signal(77));
    assert_eq!(w.abort(None), KillStep::AlreadyStopped);
    assert!(matches!(w.wait(), WaitStep::Fail(_)));
}

#[test]
fn distance_reply_matches_in_process_value() {
    let origin = (0i32, 0i32);
    let corner = (3i32, 4i32);
    let distance = |a: (i32, i32), b: (i32, i32)| -> f64 {
        let dx = (b.0 - a.0) as f64;
        let dy = (b.1 - a.1) as f64;
        (dx * dx + dy * dy).sqrt()
    };
    let in_process = distance(origin, corner);
    let encoded = bincode::serialize(&distance(origin, corner)).unwrap();
    let mut w = ProcessWrapper::new(77, 1234);
    let bytes = read_through(&mut w, frame_reply(&encoded)).unwrap();
    let decoded: f64 = bincode::deserialize(&bytes).unwrap();
    assert_eq!(decoded, 5.0);
    assert_eq!(decoded.to_bits(), in_process.to_bits());
}
