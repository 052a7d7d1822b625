use bpfcap::errors::{CaptureError, ReadFailure};
use bpfcap::filter::bpf_program;
use bpfcap::port::{BpfDirection, CallKind, DataLinkLayer, RecordingPort, Timeval,
    DIRECTION_OUT, DLT_RAW};
use bpfcap::rdloop::{attempt_read_result, suspending_read_step, SuspendStep};
use bpfcap::socket::BpfSocket;

/// One framed record carrying `payload`, as a device would hand it back.
fn framed(payload: &[u8]) -> Vec<u8> {
    let mut out = Vec::new();
    out.extend_from_slice(&0u32.to_le_bytes());
    out.extend_from_slice(&0u32.to_le_bytes());
    out.extend_from_slice(&(payload.len() as u32).to_le_bytes());
    out.extend_from_slice(&(payload.len() as u32).to_le_bytes());
    out.extend_from_slice(&20u16.to_le_bytes());
    out.extend_from_slice(&[0, 0]);
    out.extend_from_slice(payload);
    out
}

#[test]
fn binding_fifteen_character_name_succeeds() {
    let mut sock = BpfSocket::new(RecordingPort::new());
    let name = b"abcdefghijklmno";
    assert_eq!(name.len(), 15);
    assert_eq!(sock.configure(name, None), Ok(()));
    let port = sock.into_port();
    assert_eq!(port.calls, vec![CallKind::BindInterface]);
    let bound = port.bound_name.expect("bound");
    assert_eq!(&bound[..15], name);
    assert_eq!(bound[15], 0);
}

#[test]
fn binding_sixteen_character_name_fails_locally_without_any_call() {
    let mut sock = BpfSocket::new(RecordingPort::new());
    let name = b"abcdefghijklmnop";
    assert_eq!(name.len(), 16);
    assert_eq!(sock.configure(name, None), Err(CaptureError::InvalidArgument));
    let port = sock.into_port();
    assert_eq!(port.calls.len(), 0);
    assert!(port.bound_name.is_none());
}

#[test]
fn buffer_length_is_set_strictly_before_binding() {
    let mut sock = BpfSocket::new(RecordingPort::new());
    assert_eq!(sock.configure(b"en0", Some(65536)), Ok(()));
    let port = sock.into_port();
    assert_eq!(port.calls, vec![CallKind::SetBufferLen, CallKind::BindInterface]);
    assert_eq!(port.buffer_len, 65536);
}

#[test]
fn first_failure_aborts_the_sequence() {
    let mut port = RecordingPort::new();
    port.fail_set_buffer_len = Some(22);
    let mut sock = BpfSocket::new(port);
    assert_eq!(sock.configure(b"en0", Some(4096)), Err(CaptureError::OsError(22)));
    let port = sock.into_port();
    // the bind was never issued after the failed length call
    assert_eq!(port.calls, vec![CallKind::SetBufferLen]);
    assert!(port.bound_name.is_none());
}

#[test]
fn bind_failure_is_surfaced_verbatim() {
    let mut port = RecordingPort::new();
    port.fail_bind = Some(19);
    let got = BpfSocket::open(port, b"en0", None);
    assert!(matches!(got, Err(CaptureError::OsError(19))));
}

#[test]
fn length_bound_carried_to_a_later_query() {
    let mut port = RecordingPort::new();
    let field = bpfcap::ifname::encode_interface_name(b"en0").expect("fits");
    let n = port
        .length_after_configuration(1, &field)
        .expect("no scripted failure");
    assert!(n >= 32);
}

#[test]
fn effective_buffer_length_is_at_least_the_device_minimum() {
    let mut sock = BpfSocket::new(RecordingPort::new());
    assert_eq!(sock.configure(b"en0", Some(1)), Ok(()));
    let effective = sock.get_buffer_len().expect("queryable");
    // the device rounds a tiny request up; exact equality with the
    // request is not guaranteed and not asserted
    assert!(effective >= 32);
}

#[test]
fn bound_name_round_trips_through_the_field() {
    let mut sock = BpfSocket::new(RecordingPort::new());
    assert_eq!(sock.configure(b"en0", None), Ok(()));
    let name = sock.get_interface_name().expect("bound");
    assert_eq!(name, b"en0");
}

#[test]
fn data_link_layer_round_trips() {
    let mut sock = BpfSocket::new(RecordingPort::new());
    assert_eq!(sock.set_data_link_layer(DataLinkLayer::from_raw(DLT_RAW)), Ok(()));
    let got = sock.get_data_link_layer().expect("queryable");
    assert_eq!(got.as_raw(), DLT_RAW);
}

#[test]
fn read_timeout_round_trips() {
    let mut sock = BpfSocket::new(RecordingPort::new());
    let t = Timeval { tv_sec: 2, tv_usec: 500_000 };
    assert_eq!(sock.set_read_timeout(t), Ok(()));
    assert_eq!(sock.get_read_timeout(), Ok(t));
}

#[test]
fn direction_round_trips() {
    let mut sock = BpfSocket::new(RecordingPort::new());
    assert_eq!(sock.set_direction(BpfDirection::from_raw(DIRECTION_OUT)), Ok(()));
    assert_eq!(sock.get_direction().expect("queryable").as_raw(), DIRECTION_OUT);
}

#[test]
fn stats_snapshot_is_a_plain_pair() {
    let mut sock = BpfSocket::new(RecordingPort::new());
    let s = sock.get_stats().expect("queryable");
    assert_eq!(s.received(), 0);
    assert_eq!(s.dropped(), 0);
}

#[test]
fn nonsuspending_attempt_with_nothing_available_is_would_block() {
    let mut port = RecordingPort::new();
    port.nonblocking = true;
    let mut sock = BpfSocket::new(port);
    let mut buf = vec![0u8; 256];
    // a distinguished outcome, not an OS error — and no waiting happened
    assert_eq!(sock.read(&mut buf), Err(CaptureError::WouldBlock));
}

#[test]
fn attempt_outcomes_map_one_to_one() {
    assert_eq!(attempt_read_result(Ok(17)), Ok(17));
    assert_eq!(
        attempt_read_result(Err(ReadFailure::WouldBlock)),
        Err(CaptureError::WouldBlock)
    );
    assert_eq!(
        attempt_read_result(Err(ReadFailure::Os(5))),
        Err(CaptureError::OsError(5))
    );
}

#[test]
fn suspending_step_retries_only_on_would_block() {
    assert_eq!(suspending_read_step(Ok(9)), SuspendStep::Deliver(9));
    assert_eq!(
        suspending_read_step(Err(ReadFailure::WouldBlock)),
        SuspendStep::WaitAgain
    );
    assert_eq!(suspending_read_step(Err(ReadFailure::Os(7))), SuspendStep::Fail(7));
}

#[test]
fn empty_filter_passes_captured_frames() {
    let mut port = RecordingPort::new();
    port.pending = framed(&[1, 2, 3, 4]);
    let mut sock = BpfSocket::new(port);
    assert_eq!(sock.set_read_filter(bpf_program::empty()), Ok(()));
    let mut buf = vec![0u8; 256];
    let mut it = sock.read_iter(&mut buf).expect("frames staged");
    let pk = it.next().expect("one frame passed through");
    assert_eq!(pk.capture, &[1, 2, 3, 4]);
    assert!(it.next().is_none());
}

#[test]
fn reject_all_filter_yields_zero_bytes_thereafter() {
    let mut port = RecordingPort::new();
    port.pending = framed(&[1, 2, 3, 4]);
    let mut sock = BpfSocket::new(port);
    // a single return-zero instruction: a program rejecting every frame
    let mut program = bpf_program::empty();
    program.push_instruction(0x06, 0, 0, 0);
    assert_eq!(sock.set_read_filter(program), Ok(()));
    let mut buf = vec![0u8; 256];
    assert_eq!(sock.read(&mut buf), Ok(0));
}

#[test]
fn flush_discards_buffered_frames() {
    let mut port = RecordingPort::new();
    port.pending = framed(&[5, 6]);
    let mut sock = BpfSocket::new(port);
    assert_eq!(sock.flush(), Ok(()));
    let mut buf = vec![0u8; 64];
    assert_eq!(sock.read(&mut buf), Ok(0));
}

#[test]
fn read_fills_a_prefix_of_the_buffer() {
    let mut port = RecordingPort::new();
    port.pending = framed(&[0xab; 8]);
    let expected = port.pending.clone();
    let mut sock = BpfSocket::new(port);
    let mut buf = vec![0u8; 256];
    let n = sock.read(&mut buf).expect("frames staged");
    assert_eq!(n, expected.len());
    assert_eq!(&buf[..n], &expected[..]);
    assert_eq!(buf.len(), 256);
}

#[test]
fn immediate_and_promiscuous_are_recorded() {
    let mut sock = BpfSocket::new(RecordingPort::new());
    assert_eq!(sock.set_immediate(true), Ok(()));
    assert_eq!(sock.set_promiscuous(), Ok(()));
    let port = sock.into_port();
    assert_eq!(port.calls, vec![CallKind::SetImmediate, CallKind::SetPromiscuous]);
    assert_eq!(port.immediate, Some(true));
    assert!(port.promiscuous);
}
