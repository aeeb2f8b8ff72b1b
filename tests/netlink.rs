use sun::netlink::{error_step, ErrorStep};
use sun::{
    DecodeError, IoKind, NetlinkError, NetlinkHandle, PollOutcome, RecvAction, UeventBacklight,
};

fn backlight_message(path_len: usize) -> Vec<u8> {
    let path: String = std::iter::repeat('x').take(path_len).collect();
    format!("change@/devices/{path}\0ACTION=change\0SUBSYSTEM=backlight\0").into_bytes()
}

#[test]
fn bounded_wait_polls_then_times_out() {
    let h = NetlinkHandle::new(9);
    let a: RecvAction<DecodeError> = h.read_uevent_msec(500);
    assert_eq!(a, RecvAction::Poll { fd: 9, timeout: 500 });
    let a0: RecvAction<DecodeError> = h.read_uevent_msec(0);
    assert_eq!(a0, RecvAction::Poll { fd: 9, timeout: 0 });
    let t: RecvAction<DecodeError> = h.after_poll(PollOutcome::TimedOut);
    assert_eq!(t, RecvAction::Fail(NetlinkError::Timeout));
    let r: RecvAction<DecodeError> = h.after_poll(PollOutcome::Ready);
    assert_eq!(r, RecvAction::Probe { fd: 9, capacity: 256 });
}

#[test]
fn unbounded_wait_reads_directly() {
    let h = NetlinkHandle::new(4);
    let a: RecvAction<DecodeError> = h.read_uevent_msec(-1);
    assert_eq!(a, RecvAction::Probe { fd: 4, capacity: 256 });
    let b: RecvAction<DecodeError> = h.read_uevent();
    assert_eq!(b, RecvAction::Probe { fd: 4, capacity: 256 });
}

#[test]
fn poll_failure_is_io_error() {
    let h = NetlinkHandle::new(4);
    let a: RecvAction<DecodeError> = h.after_poll(PollOutcome::Failed(IoKind::Interrupted));
    assert_eq!(a, RecvAction::Fail(NetlinkError::IO(IoKind::Interrupted)));
}

#[test]
fn large_message_grows_buffer_and_arrives_whole() {
    let msg = backlight_message(700);
    let size = msg.len();
    assert!(size > 256);
    let mut h = NetlinkHandle::new(3);
    let a: RecvAction<DecodeError> = h.after_probe(Ok(size));
    assert_eq!(a, RecvAction::Probe { fd: 3, capacity: size });
    assert_eq!(h.capacity(), size);
    let d: RecvAction<DecodeError> = h.after_probe(Ok(size));
    assert_eq!(d, RecvAction::Drain { fd: 3, capacity: size });
    let ev = h.after_drain::<UeventBacklight, DecodeError>(Ok(msg.clone()));
    assert_eq!(h.message(), &msg);
    let from_small = ev.ok().unwrap().devpath;

    let mut big = NetlinkHandle::new(3);
    let _: RecvAction<DecodeError> = big.after_probe(Ok(4096));
    let again: RecvAction<DecodeError> = big.after_probe(Ok(size));
    assert!(matches!(again, RecvAction::Drain { .. }));
    let from_big = big.after_drain::<UeventBacklight, DecodeError>(Ok(msg)).ok().unwrap().devpath;
    assert_eq!(from_small, from_big);
    assert_eq!(from_small.len(), "/devices/".len() + 700);
}

#[test]
fn moderate_overflow_doubles_buffer() {
    let mut h = NetlinkHandle::new(3);
    let a: RecvAction<DecodeError> = h.after_probe(Ok(300));
    assert_eq!(a, RecvAction::Probe { fd: 3, capacity: 512 });
    let b: RecvAction<DecodeError> = h.after_probe(Ok(100));
    assert_eq!(b, RecvAction::Drain { fd: 3, capacity: 512 });
    assert_eq!(h.capacity(), 512);
}

#[test]
fn probe_and_drain_failures_are_io_errors() {
    let mut h = NetlinkHandle::new(3);
    let a: RecvAction<DecodeError> = h.after_probe(Err(IoKind::Other(11)));
    assert_eq!(a, RecvAction::Fail(NetlinkError::IO(IoKind::Other(11))));
    let r = h.after_drain::<UeventBacklight, DecodeError>(Err(IoKind::Interrupted));
    assert!(matches!(r, Err(NetlinkError::IO(IoKind::Interrupted))));
}

#[test]
fn foreign_message_is_decode_error_and_ignored() {
    let mut h = NetlinkHandle::new(3);
    let msg = b"change@/devices/BAT0\0SUBSYSTEM=power_supply\0".to_vec();
    let r = h.after_drain::<UeventBacklight, DecodeError>(Ok(msg));
    let e = match r {
        Err(e) => e,
        Ok(_) => panic!("expected a rejection"),
    };
    assert_eq!(e, NetlinkError::Serialize(DecodeError::ForeignSubsystem));
    assert_eq!(error_step(&e), ErrorStep::Ignore);
}

#[test]
fn error_steps() {
    assert_eq!(error_step::<DecodeError>(&NetlinkError::Timeout), ErrorStep::Tick);
    assert_eq!(error_step::<DecodeError>(&NetlinkError::IO(IoKind::Interrupted)), ErrorStep::Recheck);
    assert_eq!(
        error_step::<DecodeError>(&NetlinkError::IO(IoKind::Other(5))),
        ErrorStep::Fault(IoKind::Other(5))
    );
}
