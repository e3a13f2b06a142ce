use process_fun::guard::{is_same_process, plan_kill, signal_result, KillStep, SignalOutcome};
use process_fun::stamp::{decode_start_time, encode_start_time, start_time_from_ctime, STAMP_LEN};
use process_fun::ProcessFunError;

#[test]
fn stamp_is_little_endian() {
    let b = encode_start_time(0x0102_0304_0506_0708);
    assert_eq!(b, vec![8, 7, 6, 5, 4, 3, 2, 1]);
    assert_eq!(b.len(), STAMP_LEN);
}

#[test]
fn stamp_round_trips() {
    for v in [0u64, 1, 255, 256, 1_700_000_000, u64::MAX] {
        let b = encode_start_time(v);
        assert_eq!(decode_start_time(&b).unwrap(), v);
    }
}

#[test]
fn short_stamp_is_an_io_error() {
    match decode_start_time(&[1, 2, 3]) {
        Err(ProcessFunError::IoError(m)) => assert_eq!(m, "failed to fill whole buffer"),
        other => panic!("unexpected {:?}", other),
    }
    assert!(decode_start_time(&[0; 9]).is_err());
    assert!(decode_start_time(&[]).is_err());
}

#[test]
fn creation_time_from_ctime() {
    assert_eq!(start_time_from_ctime(0).unwrap(), 0);
    assert_eq!(start_time_from_ctime(1_700_000_123).unwrap(), 1_700_000_123);
    match start_time_from_ctime(-5) {
        Err(ProcessFunError::ProcessError(m)) => {
            assert_eq!(m, "Failed to calculate process start time")
        }
        other => panic!("unexpected {:?}", other),
    }
}

#[test]
fn same_process_needs_equal_creation_time() {
    assert!(is_same_process(100, Some(100)));
    assert!(!is_same_process(100, Some(101)));
    assert!(!is_same_process(100, None));
}

#[test]
fn reused_pid_is_not_signalled() {
    assert_eq!(plan_kill(4242, 1000, Some(2000)), KillStep::AlreadyStopped);
    assert_eq!(plan_kill(4242, 1000, None), KillStep::AlreadyStopped);
    assert_eq!(plan_kill(4242, 1000, Some(1000)), KillStep::Signal(4242));
}

#[test]
fn gone_process_counts_as_stopped() {
    assert!(signal_result(SignalOutcome::Delivered).is_ok());
    assert!(signal_result(SignalOutcome::NoSuchProcess).is_ok());
    assert!(matches!(
        signal_result(SignalOutcome::Failed(1)),
        Err(ProcessFunError::SignalFailure(1))
    ));
}
