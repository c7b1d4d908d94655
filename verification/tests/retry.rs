use tun_tap::adapter::{resolve_attempt, run_retry, Async, IoOutcome, Step};
use tun_tap::{setup_request, Iface, Mode};

fn device(packet_info: bool) -> Iface {
    let reply = setup_request("tun10");
    Iface::from_setup(3, Mode::Tun, packet_info, 0, 0, &reply).expect("setup accepted")
}

#[test]
fn would_block_suspends() {
    assert_eq!(resolve_attempt(&IoOutcome::WouldBlock), Step::Suspend);
}

#[test]
fn completion_finishes_with_byte_count() {
    assert_eq!(resolve_attempt(&IoOutcome::Done(38)), Step::Finish(Ok(38)));
    assert_eq!(resolve_attempt(&IoOutcome::Done(0)), Step::Finish(Ok(0)));
}

#[test]
fn genuine_error_finishes_with_the_error() {
    assert_eq!(resolve_attempt(&IoOutcome::Fail(5)), Step::Finish(Err(5)));
}

#[test]
fn stale_readiness_is_retried_until_data_arrives() {
    let outcomes = vec![IoOutcome::WouldBlock, IoOutcome::WouldBlock, IoOutcome::Done(38)];
    assert_eq!(run_retry(&outcomes), Some(Ok(38)));
}

#[test]
fn all_stale_readiness_keeps_waiting() {
    let outcomes = vec![IoOutcome::WouldBlock; 4];
    assert_eq!(run_retry(&outcomes), None);
    assert_eq!(run_retry(&Vec::new()), None);
}

#[test]
fn first_real_outcome_decides() {
    let outcomes = vec![IoOutcome::Fail(77), IoOutcome::Done(1)];
    assert_eq!(run_retry(&outcomes), Some(Err(77)));
    let outcomes = vec![IoOutcome::WouldBlock, IoOutcome::Done(10), IoOutcome::Fail(77)];
    assert_eq!(run_retry(&outcomes), Some(Ok(10)));
}

#[test]
fn adapter_defaults_to_mtu_plus_header() {
    let with_info = Async::new(device(true));
    assert_eq!(with_info.recv_bufsize(), 1504);
    let without_info = Async::new(device(false));
    assert_eq!(without_info.recv_bufsize(), 1500);
}

#[test]
fn adapter_keeps_the_wrapped_device() {
    let adapter = Async::new(device(true));
    assert_eq!(adapter.iface().name().as_slice(), b"tun10");
    assert_eq!(adapter.iface().mode(), Mode::Tun);
}

#[test]
fn recv_bufsize_is_reconfigurable() {
    let mut adapter = Async::new(device(true));
    adapter.set_recv_bufsize(9004);
    assert_eq!(adapter.recv_bufsize(), 9004);
    let buf = adapter.make_recv_buffer();
    assert_eq!(buf.len(), 9004);
    assert!(buf.iter().all(|&b| b == 0));
}
