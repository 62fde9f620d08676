use constellation_fabric::error::Error;
use constellation_fabric::frame::{
    decode_header, encode_header, read_frames, FrameReader, READ_CHUNK,
};
use constellation_fabric::timeout::{settle, Operation};
use constellation_fabric::wire::MAX_FRAME_LEN;

/// Bytes written by one end, read in order by the other.
struct Pipe {
    bytes: Vec<u8>,
    pos: usize,
}

impl Pipe {
    fn new() -> Pipe {
        Pipe { bytes: Vec::new(), pos: 0 }
    }

    fn send(&mut self, payload: &[u8]) {
        let header = encode_header(payload.len()).unwrap();
        self.bytes.extend_from_slice(&header);
        self.bytes.extend_from_slice(payload);
    }

    fn read(&mut self, want: usize) -> Vec<u8> {
        let end = std::cmp::min(self.pos + want, self.bytes.len());
        let chunk = self.bytes[self.pos..end].to_vec();
        self.pos = end;
        chunk
    }

    fn receive(&mut self) -> Result<Vec<u8>, Error> {
        let mut reader = FrameReader::new();
        loop {
            let want = reader.wanted();
            let chunk = self.read(want);
            if let Some(payload) = reader.on_read(Ok(chunk))? {
                return Ok(payload);
            }
        }
    }
}

#[test]
fn tcp_send_receive_single_message() {
    let mut pipe = Pipe::new();
    let msg = b"hello world";
    pipe.send(msg);
    let response = pipe.receive().unwrap();
    assert_eq!(response, msg);
}

#[test]
fn unix_send_receive_single_message() {
    let mut pipe = Pipe::new();
    let msg = b"hello unix";
    pipe.send(msg);
    let response = pipe.receive().unwrap();
    assert_eq!(response, msg);
}

#[test]
fn tcp_multiple_messages_preserve_boundaries() {
    let mut pipe = Pipe::new();
    let messages = vec![b"first".to_vec(), b"second".to_vec(), b"third".to_vec()];
    for msg in &messages {
        pipe.send(msg);
    }
    for msg in &messages {
        let response = pipe.receive().unwrap();
        assert_eq!(&response, msg);
    }
    assert_eq!(pipe.pos, pipe.bytes.len());
}

#[test]
fn unix_multiple_messages_preserve_boundaries() {
    let mut pipe = Pipe::new();
    let messages = vec![b"first".to_vec(), b"second".to_vec(), b"third".to_vec()];
    for msg in &messages {
        pipe.send(msg);
        let response = pipe.receive().unwrap();
        assert_eq!(&response, msg);
    }
}

#[test]
fn tcp_rejects_oversized_frame() {
    let mut reader = FrameReader::new();
    let declared: u32 = 200 * 1024 * 1024;
    let result = reader.on_read(Ok(declared.to_be_bytes().to_vec()));
    assert!(result.is_err());
    match result.unwrap_err() {
        Error::InvalidFrame(msg) => assert!(msg.contains("too large")),
        _ => panic!("Expected InvalidFrame error"),
    }
}

#[test]
fn oversized_frame_message_names_length() {
    match decode_header((200u32 * 1024 * 1024).to_be_bytes()) {
        Err(Error::InvalidFrame(msg)) => assert_eq!(msg, "Message too large: 209715200 bytes"),
        other => panic!("unexpected {:?}", other),
    }
}

#[test]
fn connection_closed_error() {
    let mut reader = FrameReader::new();
    let result = reader.on_read(Ok(Vec::new()));
    match result.unwrap_err() {
        Error::ConnectionClosed => {}
        e => panic!("Expected ConnectionClosed, got {:?}", e),
    }
}

#[test]
fn close_inside_a_frame_is_io_error() {
    let mut reader = FrameReader::new();
    assert!(reader.on_read(Ok(vec![0, 0, 0, 5])).unwrap().is_none());
    assert!(reader.on_read(Ok(vec![1, 2])).unwrap().is_none());
    match reader.on_read(Ok(Vec::new())) {
        Err(Error::Io(e)) => assert_eq!(e.kind(), std::io::ErrorKind::UnexpectedEof),
        other => panic!("unexpected {:?}", other),
    }
}

#[test]
fn close_inside_a_prefix_is_io_error() {
    let mut reader = FrameReader::new();
    assert!(reader.on_read(Ok(vec![0, 0])).unwrap().is_none());
    match reader.on_read(Ok(Vec::new())) {
        Err(Error::Io(e)) => assert_eq!(e.kind(), std::io::ErrorKind::UnexpectedEof),
        other => panic!("unexpected {:?}", other),
    }
}

#[test]
fn read_frames_keeps_boundaries() {
    let mut pipe = Pipe::new();
    for msg in [&b"first"[..], b"second", b"third"] {
        pipe.send(msg);
    }
    let frames = read_frames(&pipe.bytes).unwrap();
    assert_eq!(frames, vec![b"first".to_vec(), b"second".to_vec(), b"third".to_vec()]);
}

#[test]
fn read_frames_of_nothing_is_empty() {
    assert_eq!(read_frames(&[]).unwrap(), Vec::<Vec<u8>>::new());
}

#[test]
fn read_frames_rejects_a_cut_frame() {
    match read_frames(&[0, 0, 0, 1, 7, 0, 0, 0, 5, 1, 2]) {
        Err(Error::Io(e)) => assert_eq!(e.kind(), std::io::ErrorKind::UnexpectedEof),
        other => panic!("unexpected {:?}", other),
    }
}

#[test]
fn read_frames_rejects_an_oversized_prefix() {
    match read_frames(&(200u32 * 1024 * 1024).to_be_bytes()) {
        Err(Error::InvalidFrame(msg)) => assert!(msg.contains("too large")),
        other => panic!("unexpected {:?}", other),
    }
}

#[test]
fn stream_failure_is_io_error() {
    let mut reader = FrameReader::new();
    let failure = std::io::Error::new(std::io::ErrorKind::ConnectionReset, "reset");
    match reader.on_read(Err(failure)) {
        Err(Error::Io(e)) => assert_eq!(e.kind(), std::io::ErrorKind::ConnectionReset),
        other => panic!("unexpected {:?}", other),
    }
}

#[test]
fn tcp_receive_timeout_fires() {
    let result: Result<Vec<u8>, Error> = settle(Operation::Receive, None);
    assert!(result.is_err());
    match result.unwrap_err() {
        Error::Custom(msg) => assert!(msg.contains("timeout")),
        _ => panic!("Expected timeout error"),
    }
}

#[test]
fn unix_timeout_works() {
    let result: Result<Vec<u8>, Error> = settle(Operation::Receive, None);
    match result.unwrap_err() {
        Error::Custom(msg) => assert_eq!(msg, "Receive timeout exceeded"),
        _ => panic!("Expected timeout error"),
    }
}

#[test]
fn timeout_texts_name_the_operation() {
    for (op, text) in [
        (Operation::Connect, "Connect timeout exceeded"),
        (Operation::Send, "Send timeout exceeded"),
        (Operation::Receive, "Receive timeout exceeded"),
    ] {
        match settle::<()>(op, None) {
            Err(Error::Custom(msg)) => assert_eq!(msg, text),
            other => panic!("unexpected {:?}", other),
        }
    }
}

#[test]
fn settle_passes_a_finished_result_through() {
    assert_eq!(settle(Operation::Send, Some(Ok(7u8))).unwrap(), 7);
    match settle::<()>(Operation::Send, Some(Err(Error::ConnectionClosed))) {
        Err(Error::ConnectionClosed) => {}
        other => panic!("unexpected {:?}", other),
    }
}

#[test]
fn header_is_big_endian() {
    assert_eq!(encode_header(5).unwrap(), [0, 0, 0, 5]);
    assert_eq!(encode_header(0x0102_0304).unwrap(), [1, 2, 3, 4]);
    assert_eq!(decode_header([1, 2, 3, 4]).unwrap(), 0x0102_0304);
}

#[test]
fn ceiling_is_inclusive() {
    assert_eq!(MAX_FRAME_LEN, 100 * 1024 * 1024);
    assert_eq!(decode_header((MAX_FRAME_LEN as u32).to_be_bytes()).unwrap(), MAX_FRAME_LEN);
    assert_eq!(encode_header(MAX_FRAME_LEN).unwrap(), (MAX_FRAME_LEN as u32).to_be_bytes());
    match decode_header((MAX_FRAME_LEN as u32 + 1).to_be_bytes()) {
        Err(Error::InvalidFrame(msg)) => assert!(msg.contains("too large")),
        other => panic!("unexpected {:?}", other),
    }
}

#[test]
fn sending_beyond_the_ceiling_is_refused() {
    match encode_header(MAX_FRAME_LEN + 1) {
        Err(Error::InvalidFrame(msg)) => assert_eq!(msg, "Message too large: 104857601 bytes"),
        other => panic!("unexpected {:?}", other),
    }
}

#[test]
fn empty_payload_round_trips() {
    let mut pipe = Pipe::new();
    pipe.send(b"");
    assert_eq!(pipe.receive().unwrap(), Vec::<u8>::new());
}

#[test]
fn reader_asks_only_for_the_current_frame() {
    let mut reader = FrameReader::new();
    assert_eq!(reader.wanted(), 4);
    assert!(reader.on_read(Ok(vec![0, 0])).unwrap().is_none());
    assert_eq!(reader.wanted(), 2);
    assert!(reader.on_read(Ok(vec![0, 3])).unwrap().is_none());
    assert_eq!(reader.wanted(), 3);
    assert_eq!(reader.on_read(Ok(vec![7, 8, 9])).unwrap(), Some(vec![7, 8, 9]));
    assert_eq!(reader.wanted(), 4);
}

#[test]
fn large_frame_arrives_in_chunks() {
    let payload: Vec<u8> = (0..(3 * READ_CHUNK + 17)).map(|i| (i % 251) as u8).collect();
    let mut pipe = Pipe::new();
    pipe.send(&payload);
    pipe.send(b"after");
    assert_eq!(pipe.receive().unwrap(), payload);
    assert_eq!(pipe.receive().unwrap(), b"after");
}
