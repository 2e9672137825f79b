use katey::proxy::{ProxyEnd, ProxyTask, RelayOutcome, run_race};
use katey::relay::{BUF_SIZE, MemSink, MemSource, TransferError, relay};

fn relay_bytes(data: &[u8]) -> Vec<u8> {
    let mut src = MemSource::new(data.to_vec());
    let mut sink = MemSink::new();
    relay(&mut src, &mut sink).expect("copy");
    sink.into_bytes()
}

#[test]
fn basic() {
    let reader: &[u8] = b"hello";
    let written = relay_bytes(reader);
    assert_eq!(b"hello", written.as_slice());
}

#[test]
fn large() {
    let mut reader: Vec<u8> = Vec::new();
    while reader.len() <= BUF_SIZE {
        reader.extend_from_slice(b"0123456789");
    }
    let expect = reader.clone();
    let written = relay_bytes(&reader);
    assert_eq!(expect, written);
}

#[test]
fn relay_empty_source() {
    assert_eq!(Vec::<u8>::new(), relay_bytes(b""));
}

#[test]
fn relay_exact_buffer_boundary() {
    let data = vec![7u8; BUF_SIZE];
    assert_eq!(data, relay_bytes(&data));
}

#[test]
fn relay_one_past_buffer_boundary() {
    let mut data = vec![9u8; BUF_SIZE];
    data.push(42);
    assert_eq!(data, relay_bytes(&data));
}

#[test]
fn relay_reports_read_failure() {
    let mut src = MemSource::failing_from(b"abc".to_vec(), 0);
    let mut sink = MemSink::new();
    let r = relay(&mut src, &mut sink);
    assert_eq!(Err(TransferError::ReadFailed), r);
    assert_eq!(Vec::<u8>::new(), sink.into_bytes());
}

#[test]
fn relay_reports_write_failure() {
    let mut src = MemSource::new(b"abc".to_vec());
    let mut sink = MemSink::broken();
    let r = relay(&mut src, &mut sink);
    assert_eq!(Err(TransferError::WriteFailed), r);
}

#[test]
fn relay_delivers_prefix_before_mid_stream_failure() {
    // the source yields one full chunk, then fails on the next read
    let mut data = vec![3u8; BUF_SIZE + 10];
    for (i, b) in data.iter_mut().enumerate() {
        *b = (i % 251) as u8;
    }
    let mut src = MemSource::failing_from(data.clone(), BUF_SIZE);
    let mut sink = MemSink::new();
    let r = relay(&mut src, &mut sink);
    assert_eq!(Err(TransferError::ReadFailed), r);
    assert_eq!(&data[..BUF_SIZE], sink.into_bytes().as_slice());
}

fn alternating_schedule(len: usize) -> Vec<bool> {
    (0..len).map(|i| i % 2 == 0).collect()
}

#[test]
fn select_left() {
    let mut to = ProxyTask::flowing(b"hello".to_vec());
    let mut from = ProxyTask::stalled(Vec::new());
    let schedule = alternating_schedule(8);
    let end = run_race(&mut to, &mut from, &schedule);
    assert_eq!(Some(ProxyEnd::ClosedCleanly), end);
    assert_eq!(Some(RelayOutcome::CleanEof), to.outcome());
    assert_eq!(b"hello", to.into_delivered().as_slice());
}

#[test]
fn select_right() {
    let mut to = ProxyTask::stalled(Vec::new());
    let mut from = ProxyTask::flowing(b"hello".to_vec());
    let schedule = alternating_schedule(8);
    let end = run_race(&mut to, &mut from, &schedule);
    assert_eq!(Some(ProxyEnd::ClosedCleanly), end);
    assert_eq!(Some(RelayOutcome::CleanEof), from.outcome());
    assert_eq!(b"hello", from.into_delivered().as_slice());
}

#[test]
fn select_left_error() {
    let mut to = ProxyTask::failing(TransferError::ReadFailed);
    let mut from = ProxyTask::stalled(Vec::new());
    let schedule = alternating_schedule(8);
    let end = run_race(&mut to, &mut from, &schedule);
    assert_eq!(Some(ProxyEnd::TransferFailed(TransferError::ReadFailed)), end);
}

#[test]
fn select_right_error() {
    let mut to = ProxyTask::stalled(Vec::new());
    let mut from = ProxyTask::failing(TransferError::ReadFailed);
    let schedule = alternating_schedule(8);
    let end = run_race(&mut to, &mut from, &schedule);
    assert_eq!(Some(ProxyEnd::TransferFailed(TransferError::ReadFailed)), end);
}

#[test]
fn race_completes_though_peer_never_drains() {
    // one direction's writer never drains; the other finishes regardless
    let payload = vec![5u8; 2 * BUF_SIZE + 1];
    let mut live = ProxyTask::flowing(payload.clone());
    let mut blocked = ProxyTask::stalled(b"queued but never moving".to_vec());
    // schedule only the live side: the blocked side need not move at all
    let schedule = vec![true; 4];
    let end = run_race(&mut live, &mut blocked, &schedule);
    assert_eq!(Some(ProxyEnd::ClosedCleanly), end);
    assert_eq!(payload, live.into_delivered());
    assert_eq!(None, blocked.outcome());
}

#[test]
fn race_closes_cleanly_between_well_behaved_endpoints() {
    let mut a = ProxyTask::flowing(b"request".to_vec());
    let mut b = ProxyTask::flowing(b"a much longer reply that is still in flight".to_vec());
    // either direction reaching EOF ends the session cleanly
    let schedule = alternating_schedule(6);
    let end = run_race(&mut a, &mut b, &schedule);
    assert_eq!(Some(ProxyEnd::ClosedCleanly), end);
}

#[test]
fn race_without_enough_steps_stays_unfinished() {
    let mut a = ProxyTask::flowing(vec![1u8; BUF_SIZE * 3]);
    let mut b = ProxyTask::stalled(Vec::new());
    let schedule = vec![true; 2];
    let end = run_race(&mut a, &mut b, &schedule);
    assert_eq!(None, end);
}

fn echo_round_trip(line: &[u8]) -> Vec<u8> {
    // client -> proxy -> echo service, then the echoed bytes travel back
    let mut client_out = MemSource::new(line.to_vec());
    let mut to_echo = MemSink::new();
    relay(&mut client_out, &mut to_echo).expect("forward relay");
    let mut echo_out = MemSource::new(to_echo.into_bytes());
    let mut back_to_client = MemSink::new();
    relay(&mut echo_out, &mut back_to_client).expect("return relay");
    back_to_client.into_bytes()
}

#[test]
fn proxied_echo_returns_each_line() {
    assert_eq!(b"foo\n".to_vec(), echo_round_trip(b"foo\n"));
    assert_eq!(b"bar\n".to_vec(), echo_round_trip(b"bar\n"));
}

#[test]
fn echo_single() {
    assert_eq!(b"foo".to_vec(), relay_bytes(b"foo"));
    assert_eq!(b"bar".to_vec(), relay_bytes(b"bar"));
}

#[test]
fn echo_interleaved() {
    // two clients of the echo handler, served independently
    let mut src1 = MemSource::new(b"foo".to_vec());
    let mut sink1 = MemSink::new();
    let mut src2 = MemSource::new(b"bar".to_vec());
    let mut sink2 = MemSink::new();
    relay(&mut src1, &mut sink1).expect("copy");
    relay(&mut src2, &mut sink2).expect("copy");
    assert_eq!(b"foo", sink1.into_bytes().as_slice());
    assert_eq!(b"bar", sink2.into_bytes().as_slice());
    let mut src1 = MemSource::new(b"baz".to_vec());
    let mut sink1 = MemSink::new();
    let mut src2 = MemSource::new(b"baz".to_vec());
    let mut sink2 = MemSink::new();
    relay(&mut src1, &mut sink1).expect("copy");
    relay(&mut src2, &mut sink2).expect("copy");
    assert_eq!(b"baz", sink1.into_bytes().as_slice());
    assert_eq!(b"baz", sink2.into_bytes().as_slice());
}
