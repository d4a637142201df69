// The blob exchange: a client sends a large binary message, a server answers
// with every byte incremented, and the client checks the answer; the streams
// in between serve bytes in full, in small chunks, or in small chunks
// interleaved with "not ready" signals.

use tcp_channel::{
    ChatMessage, Endian, IoStep, MemoryReader, MemoryWriter, Receiver, ReceiverBuilder, RecvError,
    SenderBuilder,
};

const SIZE: usize = 262_144;

/// A fixed pseudo-random byte blob (a little multiplicative generator).
fn make_blob(len: usize) -> Vec<u8> {
    let mut state: u64 = 0x2545_F491_4F6C_DD1D;
    let mut blob = Vec::with_capacity(len);
    for _ in 0..len {
        state = state.wrapping_mul(6364136223846793005).wrapping_add(1442695040888963407);
        blob.push((state >> 33) as u8);
    }
    blob
}

/// A script that hands data out in `chunk`-byte pieces; with `nonblocking`,
/// every piece is preceded by a "not ready" signal.
fn slow_script(total: usize, chunk: usize, nonblocking: bool) -> Vec<IoStep> {
    let mut script = Vec::new();
    let mut served: usize = 0;
    while served < total {
        if nonblocking {
            script.push(IoStep::NotReady);
        }
        script.push(IoStep::Serve(chunk));
        served += chunk;
    }
    script
}

/// Keep calling `recv` until it returns something other than "not ready",
/// the way a caller's event loop would.
fn pretend_blocking_read(
    receiver: &mut Receiver<ChatMessage, MemoryReader>,
) -> Result<ChatMessage, RecvError> {
    loop {
        match receiver.recv() {
            Err(RecvError::IoError(tcp_channel::StreamError::NotReady)) => continue,
            other => return other,
        }
    }
}

fn blob(slow: bool, blocking: bool, max_size: usize) -> Result<(), RecvError> {
    let blob = make_blob(SIZE);

    // Client side: send the blob, then leave.
    let mut client_sender = SenderBuilder::realtime()
        .with_type::<ChatMessage>()
        .with_writer::<MemoryWriter>()
        .with_endianness(Endian::Big)
        .build(MemoryWriter::new(Vec::new()));
    client_sender.send(&ChatMessage::Say(blob.clone())).unwrap();
    client_sender.send(&ChatMessage::Leave).unwrap();

    // Server side: read the client's bytes through a possibly slow stream.
    let client_wire = client_sender.writer().contents().clone();
    let script = if slow {
        slow_script(client_wire.len(), 1024, !blocking)
    } else {
        Vec::new()
    };
    let mut server_receiver = ReceiverBuilder::buffered()
        .with_type::<ChatMessage>()
        .with_endianness(Endian::Big)
        .with_reader::<MemoryReader>()
        .with_max_size(max_size)
        .build(MemoryReader::new(client_wire, script));

    let mut server_sender = SenderBuilder::buffered()
        .with_type::<ChatMessage>()
        .with_endianness(Endian::Big)
        .with_writer::<MemoryWriter>()
        .build(MemoryWriter::new(Vec::new()));

    loop {
        match pretend_blocking_read(&mut server_receiver)? {
            ChatMessage::Say(mut payload) => {
                for byte in payload.iter_mut() {
                    *byte = byte.wrapping_add(1);
                }
                server_sender.send(&ChatMessage::Say(payload)).unwrap();
                server_sender.flush().unwrap();
            }
            ChatMessage::Leave => break,
        }
    }

    // Client side again: read the server's answer the same slow way.
    let server_wire = server_sender.writer().contents().clone();
    let script = if slow {
        slow_script(server_wire.len(), 1024, !blocking)
    } else {
        Vec::new()
    };
    let mut client_receiver = ReceiverBuilder::buffered()
        .with_type::<ChatMessage>()
        .with_endianness(Endian::Big)
        .with_reader::<MemoryReader>()
        .with_max_size(max_size)
        .build(MemoryReader::new(server_wire, script));

    match pretend_blocking_read(&mut client_receiver)? {
        ChatMessage::Say(answer) => {
            assert_eq!(answer.len(), blob.len());
            for (a, b) in answer.iter().zip(blob.iter()) {
                assert_eq!(*a, b.wrapping_add(1));
            }
        }
        ChatMessage::Leave => panic!("expected the incremented blob"),
    }
    Ok(())
}

#[test]
fn fast_blob() {
    blob(false, true, tcp_channel::DEFAULT_MAX_SIZE).unwrap();
}

#[test]
fn slow_blob() {
    blob(true, true, tcp_channel::DEFAULT_MAX_SIZE).unwrap();
}

#[test]
fn slow_nonblocking_blob() {
    blob(true, false, tcp_channel::DEFAULT_MAX_SIZE).unwrap();
}

#[test]
#[should_panic]
fn fast_blob_too_small() {
    blob(false, true, 1024).unwrap();
}
