use std::collections::VecDeque;

use tropic01_hal::transaction::Stage;
use tropic01_hal::{Action, Event, Operation, SerialTransportError, Transaction};

/// What the bridge answers to one exchange.
enum Reply {
    /// The bridge acknowledges chip select.
    Ack,
    /// The bridge echoes the frame it got.
    Echo,
    /// The bridge answers with these bytes.
    Bytes(Vec<u8>),
    /// The link fails.
    Fail,
}

/// A serial link that answers from a script and records what was written.
struct MockLink {
    replies: VecDeque<Reply>,
    written: Vec<Vec<u8>>,
    pauses: usize,
}

impl MockLink {
    fn new(replies: Vec<Reply>) -> MockLink {
        MockLink { replies: replies.into(), written: Vec::new(), pauses: 0 }
    }
}

fn run(ops: Vec<Operation>, link: &mut MockLink) -> (Result<(), SerialTransportError>, Vec<Operation>) {
    let mut t = Transaction::new(ops);
    let mut action = t.begin();
    loop {
        action = match action {
            Action::Exchange { send, settle_ms: _, receive } => {
                link.written.push(send.clone());
                let event = match link.replies.pop_front().expect("scripted reply") {
                    Reply::Ack => Event::Received(b"OK\r\n".to_vec()),
                    Reply::Echo => Event::Received(send),
                    Reply::Bytes(b) => Event::Received(b),
                    Reply::Fail => Event::LinkFailed(std::io::Error::new(
                        std::io::ErrorKind::TimedOut,
                        "timed out",
                    )),
                };
                if let Event::Received(ref b) = event {
                    assert_eq!(b.len(), receive);
                }
                t.advance(event)
            }
            Action::Pause { nanos } => {
                assert_eq!(nanos, 1);
                link.pauses += 1;
                t.advance(Event::Paused)
            }
            Action::Finish(r) => {
                assert_eq!(t.stage(), Stage::Done);
                return (r, t.into_operations());
            }
        };
    }
}

#[test]
fn transaction_brackets_operations_with_chip_select() {
    let mut link = MockLink::new(vec![Reply::Ack, Reply::Echo, Reply::Ack]);
    let (r, ops) = run(vec![Operation::TransferInPlace(vec![0x12, 0xAB])], &mut link);
    assert!(r.is_ok());
    assert_eq!(link.written, vec![b"CS=0\n".to_vec(), b"12ABx\n".to_vec(), b"CS=0\n".to_vec()]);
    assert!(matches!(&ops[0], Operation::TransferInPlace(b) if *b == vec![0x12, 0xAB]));
}

#[test]
fn read_sends_zeros_and_keeps_the_answer() {
    let mut link = MockLink::new(vec![Reply::Ack, Reply::Bytes(b"C0FFEEx\n".to_vec()), Reply::Ack]);
    let (r, ops) = run(vec![Operation::Read(vec![9, 9, 9])], &mut link);
    assert!(r.is_ok());
    assert_eq!(link.written[1], b"000000x\n".to_vec());
    assert!(matches!(&ops[0], Operation::Read(b) if *b == vec![0xC0, 0xFF, 0xEE]));
}

#[test]
fn write_keeps_its_data() {
    let mut link = MockLink::new(vec![Reply::Ack, Reply::Bytes(b"FFFF\r\n".to_vec()), Reply::Ack]);
    let (r, ops) = run(vec![Operation::Write(vec![1, 2])], &mut link);
    assert!(r.is_ok());
    assert_eq!(link.written[1], b"0102x\n".to_vec());
    assert!(matches!(&ops[0], Operation::Write(b) if *b == vec![1, 2]));
}

#[test]
fn transfer_sends_write_buffer_into_read_buffer() {
    let mut link = MockLink::new(vec![Reply::Ack, Reply::Bytes(b"AABBx\n".to_vec()), Reply::Ack]);
    let (r, ops) = run(vec![Operation::Transfer(vec![0, 0], vec![5, 6])], &mut link);
    assert!(r.is_ok());
    assert_eq!(link.written[1], b"0506x\n".to_vec());
    assert!(matches!(&ops[0], Operation::Transfer(rd, wr) if *rd == vec![0xAA, 0xBB] && *wr == vec![5, 6]));
}

#[test]
fn bad_chip_select_ack_is_invalid_response() {
    let mut link = MockLink::new(vec![Reply::Bytes(b"NO\r\n".to_vec())]);
    let (r, _) = run(vec![Operation::TransferInPlace(vec![1])], &mut link);
    assert!(matches!(r, Err(SerialTransportError::InvalidResponse)));
    assert_eq!(link.written.len(), 1);
}

#[test]
fn bad_closing_ack_is_invalid_response() {
    let mut link = MockLink::new(vec![Reply::Ack, Reply::Echo, Reply::Bytes(b"ERR\n".to_vec())]);
    let (r, _) = run(vec![Operation::TransferInPlace(vec![1])], &mut link);
    assert!(matches!(r, Err(SerialTransportError::InvalidResponse)));
}

#[test]
fn mismatched_transfer_lengths_do_no_io() {
    let mut link = MockLink::new(vec![Reply::Ack]);
    let (r, ops) = run(vec![Operation::Transfer(vec![0; 3], vec![1; 4])], &mut link);
    assert!(matches!(r, Err(SerialTransportError::InvalidBufferLength)));
    assert_eq!(link.written, vec![b"CS=0\n".to_vec()]);
    assert!(matches!(&ops[0], Operation::Transfer(rd, _) if *rd == vec![0; 3]));
}

#[test]
fn echo_with_bad_terminator_is_invalid_response() {
    let mut link = MockLink::new(vec![Reply::Ack, Reply::Bytes(b"0102zz".to_vec())]);
    let (r, _) = run(vec![Operation::TransferInPlace(vec![1, 2])], &mut link);
    assert!(matches!(r, Err(SerialTransportError::InvalidResponse)));
    assert_eq!(link.written.len(), 2);
}

#[test]
fn echo_with_non_hex_byte_is_invalid_hex_digit() {
    let mut link = MockLink::new(vec![Reply::Ack, Reply::Bytes(vec![0x30, 0x47, 0x30, 0x32, b'x', b'\n'])]);
    let (r, ops) = run(vec![Operation::TransferInPlace(vec![1, 2])], &mut link);
    assert!(matches!(r, Err(SerialTransportError::InvalidHexDigit)));
    assert!(matches!(&ops[0], Operation::TransferInPlace(b) if *b == vec![1, 2]));
}

#[test]
fn echo_with_non_utf8_is_non_utf8_hex() {
    let mut link = MockLink::new(vec![Reply::Ack, Reply::Bytes(vec![0xFF, 0x30, b'x', b'\n'])]);
    let (r, _) = run(vec![Operation::TransferInPlace(vec![1])], &mut link);
    assert!(matches!(r, Err(SerialTransportError::NonUtf8Hex)));
}

#[test]
fn ping_of_4096_bytes_must_be_chunked() {
    let mut link = MockLink::new(vec![Reply::Ack]);
    let (r, _) = run(vec![Operation::TransferInPlace(vec![0x06; 4096])], &mut link);
    assert!(matches!(r, Err(SerialTransportError::DataTooLong)));
    assert_eq!(link.written, vec![b"CS=0\n".to_vec()]);

    let mut link = MockLink::new(vec![Reply::Ack, Reply::Echo, Reply::Echo, Reply::Ack]);
    let (r, ops) = run(
        vec![
            Operation::TransferInPlace(vec![0x06; 2048]),
            Operation::TransferInPlace(vec![0x06; 2048]),
        ],
        &mut link,
    );
    assert!(r.is_ok());
    assert_eq!(link.written.len(), 4);
    assert_eq!(link.written[1].len(), 4098);
    assert!(link.written[1].starts_with(b"0606"));
    for op in &ops {
        assert!(matches!(op, Operation::TransferInPlace(b) if *b == vec![0x06; 2048]));
    }
}

#[test]
fn transfer_of_2049_bytes_is_rejected_before_io() {
    let mut link = MockLink::new(vec![Reply::Ack]);
    let (r, _) = run(vec![Operation::Write(vec![0; 2049])], &mut link);
    assert!(matches!(r, Err(SerialTransportError::DataTooLong)));
    assert_eq!(link.written.len(), 1);
}

#[test]
fn empty_transfers_touch_nothing() {
    let mut link = MockLink::new(vec![Reply::Ack, Reply::Ack]);
    let (r, _) = run(
        vec![
            Operation::TransferInPlace(Vec::new()),
            Operation::Write(Vec::new()),
            Operation::Read(Vec::new()),
            Operation::Transfer(Vec::new(), Vec::new()),
        ],
        &mut link,
    );
    assert!(r.is_ok());
    assert_eq!(link.written, vec![b"CS=0\n".to_vec(), b"CS=0\n".to_vec()]);
}

#[test]
fn delay_pauses_minimally() {
    let mut link = MockLink::new(vec![Reply::Ack, Reply::Ack]);
    let (r, _) = run(vec![Operation::DelayNs(1_000_000)], &mut link);
    assert!(r.is_ok());
    assert_eq!(link.pauses, 1);
    assert_eq!(link.written.len(), 2);
}

#[test]
fn link_failure_ends_transaction_with_io() {
    let mut link = MockLink::new(vec![Reply::Ack, Reply::Fail]);
    let (r, _) = run(vec![Operation::Write(vec![1]), Operation::Write(vec![2])], &mut link);
    assert!(matches!(r, Err(SerialTransportError::Io(e)) if e.kind() == std::io::ErrorKind::TimedOut));
    assert_eq!(link.written.len(), 2);
}

#[test]
fn error_stops_remaining_operations() {
    let mut link = MockLink::new(vec![Reply::Ack, Reply::Bytes(b"01zz".to_vec())]);
    let (r, _) = run(vec![Operation::Write(vec![1]), Operation::Write(vec![2])], &mut link);
    assert!(matches!(r, Err(SerialTransportError::InvalidResponse)));
    assert_eq!(link.written.len(), 2);
}

#[test]
fn chip_select_settles_immediately_and_frames_wait() {
    let mut t = Transaction::new(vec![Operation::Write(vec![7])]);
    match t.begin() {
        Action::Exchange { send, settle_ms, receive } => {
            assert_eq!(send, b"CS=0\n".to_vec());
            assert_eq!(settle_ms, 0);
            assert_eq!(receive, 4);
        }
        _ => panic!("expected the chip-select exchange"),
    }
    match t.advance(Event::Received(b"OK\r\n".to_vec())) {
        Action::Exchange { send, settle_ms, receive } => {
            assert_eq!(send, b"07x\n".to_vec());
            assert_eq!(settle_ms, 10);
            assert_eq!(receive, 4);
        }
        _ => panic!("expected the frame exchange"),
    }
}

#[test]
fn decode_error_keeps_bytes_already_decoded() {
    let mut link = MockLink::new(vec![Reply::Ack, Reply::Bytes(vec![b'4', b'1', 0xFF, 0xFF, b'x', b'\n'])]);
    let (r, ops) = run(vec![Operation::TransferInPlace(vec![0, 0])], &mut link);
    assert!(matches!(r, Err(SerialTransportError::NonUtf8Hex)));
    assert!(matches!(&ops[0], Operation::TransferInPlace(b) if *b == vec![0x41, 0x00]));

    let mut link = MockLink::new(vec![Reply::Ack, Reply::Bytes(b"AB0Gx\n".to_vec())]);
    let (r, ops) = run(vec![Operation::Read(vec![5, 5])], &mut link);
    assert!(matches!(r, Err(SerialTransportError::InvalidHexDigit)));
    assert!(matches!(&ops[0], Operation::Read(b) if *b == vec![0xAB, 0x00]));
}
