// The wire format and the channel scenarios: round trips, length-prefix
// fidelity, the size ceiling, partial assembly, and the flush contract.

use tcp_channel::{
    ChatMessage, Endian, IoStep, MemoryReader, MemoryWriter, Receiver, ReceiverBuilder, RecvError,
    Sender, SenderBuilder, StreamError,
};

fn send_one_bytes(endian: Endian, payload: &[u8]) -> Vec<u8> {
    let mut sender = SenderBuilder::realtime()
        .with_type::<Vec<u8>>()
        .with_writer::<MemoryWriter>()
        .with_endianness(endian)
        .build(MemoryWriter::new(Vec::new()));
    sender.send(&payload.to_vec()).unwrap();
    sender.writer().contents().clone()
}

fn bytes_receiver(endian: Endian, data: Vec<u8>, script: Vec<IoStep>) -> Receiver<Vec<u8>, MemoryReader> {
    ReceiverBuilder::realtime()
        .with_type::<Vec<u8>>()
        .with_reader::<MemoryReader>()
        .with_endianness(endian)
        .build(MemoryReader::new(data, script))
}

#[test]
fn round_trip_bytes_big_endian() {
    let wire = send_one_bytes(Endian::Big, b"some payload");
    let mut receiver = bytes_receiver(Endian::Big, wire, Vec::new());
    assert_eq!(receiver.recv().unwrap(), b"some payload".to_vec());
}

#[test]
fn round_trip_bytes_little_endian() {
    let wire = send_one_bytes(Endian::Little, b"some payload");
    let mut receiver = bytes_receiver(Endian::Little, wire, Vec::new());
    assert_eq!(receiver.recv().unwrap(), b"some payload".to_vec());
}

#[test]
fn round_trip_zero_length_payload() {
    let wire = send_one_bytes(Endian::Big, b"");
    assert_eq!(wire.len(), 8);
    let mut receiver = bytes_receiver(Endian::Big, wire, Vec::new());
    assert_eq!(receiver.recv().unwrap(), Vec::<u8>::new());
}

#[test]
fn round_trip_u64_both_orders() {
    for endian in [Endian::Big, Endian::Little] {
        let mut sender = SenderBuilder::realtime()
            .with_type::<u64>()
            .with_writer::<MemoryWriter>()
            .with_endianness(endian)
            .build(MemoryWriter::new(Vec::new()));
        sender.send(&0x0123_4567_89AB_CDEF).unwrap();
        let mut receiver = ReceiverBuilder::realtime()
            .with_type::<u64>()
            .with_reader::<MemoryReader>()
            .with_endianness(endian)
            .build(MemoryReader::new(sender.writer().contents().clone(), Vec::new()));
        assert_eq!(receiver.recv().unwrap(), 0x0123_4567_89AB_CDEF);
    }
}

#[test]
fn u64_payload_honours_byte_order() {
    let mut sender = SenderBuilder::realtime()
        .with_type::<u64>()
        .with_writer::<MemoryWriter>()
        .with_endianness(Endian::Little)
        .build(MemoryWriter::new(Vec::new()));
    sender.send(&1u64).unwrap();
    let wire = sender.writer().contents().clone();
    assert_eq!(&wire[0..8], &8u64.to_le_bytes());
    assert_eq!(&wire[8..16], &1u64.to_le_bytes());
}

#[test]
fn length_prefix_big_endian() {
    let wire = send_one_bytes(Endian::Big, b"abcde");
    assert_eq!(wire.len(), 8 + 5);
    assert_eq!(&wire[0..8], &5u64.to_be_bytes());
    assert_eq!(&wire[8..], b"abcde");
}

#[test]
fn length_prefix_little_endian() {
    let wire = send_one_bytes(Endian::Little, b"abcde");
    assert_eq!(wire.len(), 8 + 5);
    assert_eq!(&wire[0..8], &5u64.to_le_bytes());
    assert_eq!(&wire[8..], b"abcde");
}

#[test]
fn length_prefix_native_resolves() {
    let wire = send_one_bytes(Endian::Native, b"abcde");
    let prefix = &wire[0..8];
    assert!(prefix == 5u64.to_be_bytes() || prefix == 5u64.to_le_bytes());
}

#[test]
fn mismatched_byte_order_reads_wrong_length() {
    // A caller contract, not a caught error: a big-endian frame read as
    // little-endian declares a gigantic length and is rejected as too large.
    let wire = send_one_bytes(Endian::Big, b"abc");
    let mut receiver = bytes_receiver(Endian::Little, wire, Vec::new());
    match receiver.recv() {
        Err(RecvError::TooLarge(l)) => assert_eq!(l, 3u64 << 56),
        other => panic!("expected TooLarge, got {:?}", other),
    }
}

#[test]
fn size_ceiling_enforced() {
    // A 256 KiB payload against a 1 KiB ceiling: rejected after the eight
    // prefix bytes, with not one payload byte consumed from the stream.
    let payload = vec![0xA5u8; 262_144];
    let wire = send_one_bytes(Endian::Big, &payload);
    let mut receiver = ReceiverBuilder::realtime()
        .with_type::<Vec<u8>>()
        .with_reader::<MemoryReader>()
        .with_endianness(Endian::Big)
        .with_max_size(1024)
        .build(MemoryReader::new(wire, Vec::new()));
    match receiver.recv() {
        Err(RecvError::TooLarge(l)) => assert_eq!(l, 262_144),
        other => panic!("expected TooLarge, got {:?}", other),
    }
    assert_eq!(receiver.reader().remaining(), 262_144);
}

#[test]
fn partial_assembly_returns_value_only_when_complete() {
    let wire = send_one_bytes(Endian::Big, b"piece by piece");
    let total = wire.len();
    let mut script = Vec::new();
    for _ in 0..total {
        script.push(IoStep::NotReady);
        script.push(IoStep::Serve(1));
    }
    let mut receiver = bytes_receiver(Endian::Big, wire, script);
    let mut not_ready: usize = 0;
    loop {
        match receiver.recv() {
            Err(RecvError::IoError(StreamError::NotReady)) => {
                not_ready += 1;
                assert!(receiver.reader().remaining() > 0);
            }
            Ok(v) => {
                assert_eq!(v, b"piece by piece".to_vec());
                assert_eq!(receiver.reader().remaining(), 0);
                break;
            }
            other => panic!("expected NotReady or the value, got {:?}", other),
        }
    }
    assert_eq!(not_ready, total);
}

#[test]
fn buffered_sender_delivers_nothing_before_flush() {
    let mut sender = SenderBuilder::buffered()
        .with_type::<Vec<u8>>()
        .with_writer::<MemoryWriter>()
        .with_endianness(Endian::Big)
        .build(MemoryWriter::new(Vec::new()));
    sender.send(&b"queued".to_vec()).unwrap();
    assert_eq!(sender.writer().contents().len(), 0);
    sender.flush().unwrap();
    let wire = sender.writer().contents().clone();
    assert_eq!(&wire[0..8], &6u64.to_be_bytes());
    assert_eq!(&wire[8..], b"queued");
}

#[test]
fn realtime_sender_delivers_without_flush() {
    let mut sender = SenderBuilder::realtime()
        .with_type::<Vec<u8>>()
        .with_writer::<MemoryWriter>()
        .with_endianness(Endian::Big)
        .build(MemoryWriter::new(Vec::new()));
    sender.send(&b"now".to_vec()).unwrap();
    assert_eq!(sender.writer().contents().len(), 8 + 3);
}

#[test]
fn flush_resumes_after_stream_failure() {
    let script = vec![IoStep::Serve(3), IoStep::NotReady];
    let mut sender: Sender<Vec<u8>, MemoryWriter> = SenderBuilder::buffered()
        .with_type::<Vec<u8>>()
        .with_writer::<MemoryWriter>()
        .with_endianness(Endian::Big)
        .build(MemoryWriter::new(script));
    sender.send(&b"ab".to_vec()).unwrap();
    match sender.flush() {
        Err(tcp_channel::SendError::IoError(StreamError::NotReady)) => {}
        other => panic!("expected NotReady, got {:?}", other),
    }
    assert_eq!(sender.writer().contents().len(), 3);
    sender.flush().unwrap();
    let wire = sender.writer().contents().clone();
    assert_eq!(&wire[0..8], &2u64.to_be_bytes());
    assert_eq!(&wire[8..], b"ab");
}

#[test]
fn closed_stream_surfaces_as_io_error() {
    // A stream that accepts nothing is a write failure, not a kind of its
    // own: the sender reports every stream failure as IoError.
    let script = vec![IoStep::Serve(0)];
    let mut sender = SenderBuilder::realtime()
        .with_type::<Vec<u8>>()
        .with_writer::<MemoryWriter>()
        .with_endianness(Endian::Big)
        .build(MemoryWriter::new(script));
    match sender.send(&b"late".to_vec()) {
        Err(tcp_channel::SendError::IoError(StreamError::Closed)) => {}
        other => panic!("expected IoError(Closed), got {:?}", other),
    }
}

#[test]
fn chat_scenario_in_order() {
    // A client says "hi" and leaves; the server hears exactly that, in order.
    let mut sender = SenderBuilder::buffered()
        .with_type::<ChatMessage>()
        .with_writer::<MemoryWriter>()
        .with_endianness(Endian::Big)
        .build(MemoryWriter::new(Vec::new()));
    sender.send(&ChatMessage::Say(b"hi".to_vec())).unwrap();
    sender.send(&ChatMessage::Leave).unwrap();
    sender.flush().unwrap();

    let mut receiver = ReceiverBuilder::buffered()
        .with_type::<ChatMessage>()
        .with_reader::<MemoryReader>()
        .with_endianness(Endian::Big)
        .build(MemoryReader::new(sender.writer().contents().clone(), Vec::new()));
    assert_eq!(receiver.recv().unwrap(), ChatMessage::Say(b"hi".to_vec()));
    assert_eq!(receiver.recv().unwrap(), ChatMessage::Leave);
    match receiver.recv() {
        Err(RecvError::Disconnected) => {}
        other => panic!("expected Disconnected at end of stream, got {:?}", other),
    }
}

#[test]
fn disconnected_mid_prefix() {
    let mut wire = send_one_bytes(Endian::Big, b"cut");
    wire.truncate(3);
    let mut receiver = bytes_receiver(Endian::Big, wire, Vec::new());
    match receiver.recv() {
        Err(RecvError::Disconnected) => {}
        other => panic!("expected Disconnected, got {:?}", other),
    }
}

#[test]
fn disconnected_mid_payload() {
    let mut wire = send_one_bytes(Endian::Big, b"cut short");
    wire.truncate(12);
    let mut receiver = bytes_receiver(Endian::Big, wire, Vec::new());
    match receiver.recv() {
        Err(RecvError::Disconnected) => {}
        other => panic!("expected Disconnected, got {:?}", other),
    }
}

#[test]
fn invalid_payload_is_a_serialization_error() {
    // A complete frame whose single payload byte is no ChatMessage tag.
    let mut wire = 1u64.to_be_bytes().to_vec();
    wire.push(7u8);
    let mut receiver = ReceiverBuilder::buffered()
        .with_type::<ChatMessage>()
        .with_reader::<MemoryReader>()
        .with_endianness(Endian::Big)
        .build(MemoryReader::new(wire, Vec::new()));
    match receiver.recv() {
        Err(RecvError::SerializationError) => {}
        other => panic!("expected SerializationError, got {:?}", other),
    }
}

#[test]
fn consecutive_frames_have_no_delimiter() {
    let mut sender = SenderBuilder::buffered()
        .with_type::<Vec<u8>>()
        .with_writer::<MemoryWriter>()
        .with_endianness(Endian::Big)
        .build(MemoryWriter::new(Vec::new()));
    sender.send(&b"one".to_vec()).unwrap();
    sender.send(&b"two".to_vec()).unwrap();
    sender.flush().unwrap();
    let wire = sender.writer().contents().clone();
    let mut expected = Vec::new();
    expected.extend_from_slice(&3u64.to_be_bytes());
    expected.extend_from_slice(b"one");
    expected.extend_from_slice(&3u64.to_be_bytes());
    expected.extend_from_slice(b"two");
    assert_eq!(wire, expected);
}

#[test]
fn default_max_size_is_64_mebibytes() {
    assert_eq!(tcp_channel::DEFAULT_MAX_SIZE, 64 * 1024 * 1024);
}

#[test]
fn carries_bincode_payloads() {
    // The channel frames whatever bytes a real codec produces.
    let encoded: Vec<u8> = bincode::serialize(&0xFEED_u16).unwrap();
    let wire = send_one_bytes(Endian::Big, &encoded);
    let mut receiver = bytes_receiver(Endian::Big, wire, Vec::new());
    let back = receiver.recv().unwrap();
    let decoded: u16 = bincode::deserialize(&back).unwrap();
    assert_eq!(decoded, 0xFEED_u16);
}

#[test]
fn size_ceiling_is_inclusive() {
    // A declared length equal to the ceiling passes; one byte more fails.
    let at_limit = send_one_bytes(Endian::Big, b"1234");
    let mut receiver = ReceiverBuilder::realtime()
        .with_type::<Vec<u8>>()
        .with_reader::<MemoryReader>()
        .with_endianness(Endian::Big)
        .with_max_size(4)
        .build(MemoryReader::new(at_limit, Vec::new()));
    assert_eq!(receiver.recv().unwrap(), b"1234".to_vec());

    let over_limit = send_one_bytes(Endian::Big, b"12345");
    let mut receiver = ReceiverBuilder::realtime()
        .with_type::<Vec<u8>>()
        .with_reader::<MemoryReader>()
        .with_endianness(Endian::Big)
        .with_max_size(4)
        .build(MemoryReader::new(over_limit, Vec::new()));
    match receiver.recv() {
        Err(RecvError::TooLarge(l)) => assert_eq!(l, 5),
        other => panic!("expected TooLarge, got {:?}", other),
    }
}

#[test]
fn disconnection_keeps_failing() {
    let mut wire = send_one_bytes(Endian::Big, b"gone");
    wire.truncate(10);
    let mut receiver = bytes_receiver(Endian::Big, wire, Vec::new());
    for _ in 0..3 {
        match receiver.recv() {
            Err(RecvError::Disconnected) => {}
            other => panic!("expected Disconnected, got {:?}", other),
        }
    }
}
