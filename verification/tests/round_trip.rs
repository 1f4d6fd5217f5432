//! Whole calls, run against a scripted peer with a small codec of the tests' own.

use carrot_client::{
    Action, Carrot, CarrotError, Event, Exchange, IoFailure, Request, Value, Write,
};

/// What the scripted peer does with a request.
struct Peer {
    accepts_writes: bool,
    delivery: Option<Vec<u8>>,
    written: Vec<Vec<u8>>,
}

impl Peer {
    fn delivering(delivery: Option<Vec<u8>>) -> Peer {
        Peer { accepts_writes: true, delivery, written: Vec::new() }
    }

    fn refusing_writes() -> Peer {
        Peer { accepts_writes: false, delivery: None, written: Vec::new() }
    }
}

const READ: u8 = 1;
const WRITE: u8 = 2;

/// Serialises a request into one frame: operation, key, and for a write the
/// time, the kind of the data, its length and the data itself.
fn encode(request: &Request) -> Option<Vec<u8>> {
    let mut frame: Vec<u8> = Vec::new();
    match request {
        Request::Read { key } => {
            frame.push(READ);
            frame.extend_from_slice(&key.to_be_bytes());
        }
        Request::Write { key, data, iat } => {
            frame.push(WRITE);
            frame.extend_from_slice(&key.to_be_bytes());
            frame.extend_from_slice(&iat.to_be_bytes());
            let (kind, payload): (u8, Vec<u8>) = match data {
                Value::Unsigned(number) => (1, number.to_be_bytes().to_vec()),
                Value::Signed(number) => (2, number.to_be_bytes().to_vec()),
                Value::Text(text) => (3, text.as_bytes().to_vec()),
                Value::Bytes(bytes) => (4, bytes.clone()),
            };
            frame.push(kind);
            frame.extend_from_slice(&(payload.len() as u32).to_be_bytes());
            frame.extend_from_slice(&payload);
        }
    }
    if frame.len() > 1024 {
        return None;
    }
    frame.resize(1024, 0);
    Some(frame)
}

/// Parses a frame as `encode` writes it.
fn decode(frame: &[u8]) -> Option<Request> {
    if frame.len() != 1024 {
        return None;
    }
    let key: u32 = u32::from_be_bytes([frame[1], frame[2], frame[3], frame[4]]);
    match frame[0] {
        READ => Some(Request::Read { key }),
        WRITE => {
            let mut iat: [u8; 8] = [0u8; 8];
            iat.copy_from_slice(&frame[5..13]);
            let length: usize =
                u32::from_be_bytes([frame[14], frame[15], frame[16], frame[17]]) as usize;
            let payload: &[u8] = frame.get(18..18 + length)?;
            let data: Value = match frame[13] {
                1 => Value::Unsigned(u64::from_be_bytes(payload.try_into().ok()?)),
                2 => Value::Signed(i64::from_be_bytes(payload.try_into().ok()?)),
                3 => Value::Text(String::from_utf8(payload.to_vec()).ok()?),
                4 => Value::Bytes(payload.to_vec()),
                _ => return None,
            };
            Some(Request::Write { key, data, iat: u64::from_be_bytes(iat) })
        }
        _ => None,
    }
}

/// Runs a call to its end: does what the exchange asks for and reports back.
fn drive(mut exchange: Exchange<Request>, peer: &mut Peer) -> Result<Request, CarrotError> {
    let mut steps: u32 = 0;
    loop {
        let event: Event<Request> = match exchange.action() {
            Action::Encode(request) => match encode(request) {
                Some(bytes) => Event::Encoded(bytes),
                None => Event::EncodeFailed,
            },
            Action::Send(frame) => {
                if peer.accepts_writes {
                    peer.written.push(frame.to_vec());
                    Event::Sent
                } else {
                    Event::SendFailed
                }
            }
            Action::Receive => match &peer.delivery {
                Some(bytes) => Event::Received(bytes.clone()),
                None => Event::ReceiveFailed,
            },
            Action::Decode(frame) => match decode(frame) {
                Some(response) => Event::Decoded(response),
                None => Event::DecodeFailed,
            },
            Action::Finish => break,
        };
        exchange = exchange.step(event);
        steps += 1;
        assert!(steps <= 4);
    }
    match exchange.into_result() {
        Ok(result) => result,
        Err(unfinished) => panic!("the call has not ended: {:?}", unfinished),
    }
}

fn client() -> Carrot<()> {
    match Carrot::new("127.0.0.1:7000", Some(())) {
        Ok(carrot) => carrot,
        Err(error) => panic!("no client: {:?}", error),
    }
}

/// A peer that sends every request frame back.
fn echo(request: &Request) -> Peer {
    Peer::delivering(encode(request))
}

fn written_frame_of(exchange: Exchange<Request>) -> Vec<u8> {
    let mut peer: Peer = Peer::delivering(Some(vec![1u8; 1024]));
    let _ = drive(exchange, &mut peer);
    assert_eq!(peer.written.len(), 1);
    peer.written.remove(0)
}

#[test]
fn write_of_unsigned_puts_one_frame_on_the_wire() {
    let frame: Vec<u8> = written_frame_of(client().write(1, 5u64, 6));
    assert_eq!(frame.len(), 1024);
    assert_eq!(decode(&frame), Some(Request::Write { key: 1, data: Value::Unsigned(5), iat: 6 }));
}

#[test]
fn write_of_signed_puts_one_frame_on_the_wire() {
    let frame: Vec<u8> = written_frame_of(client().write(2, -5i64, 6));
    assert_eq!(frame.len(), 1024);
    assert_eq!(decode(&frame), Some(Request::Write { key: 2, data: Value::Signed(-5), iat: 6 }));
}

#[test]
fn write_of_string_puts_one_frame_on_the_wire() {
    let frame: Vec<u8> = written_frame_of(client().write(3, String::from("beet"), 6));
    assert_eq!(frame.len(), 1024);
    assert_eq!(
        decode(&frame),
        Some(Request::Write { key: 3, data: Value::Text(String::from("beet")), iat: 6 })
    );
}

#[test]
fn write_of_bytes_puts_one_frame_on_the_wire() {
    let frame: Vec<u8> = written_frame_of(client().write(4, vec![9u8; 40], 6));
    assert_eq!(frame.len(), 1024);
    assert_eq!(
        decode(&frame),
        Some(Request::Write { key: 4, data: Value::Bytes(vec![9u8; 40]), iat: 6 })
    );
}

#[test]
fn read_puts_one_frame_on_the_wire() {
    let frame: Vec<u8> = written_frame_of(client().read(5));
    assert_eq!(frame.len(), 1024);
    assert_eq!(decode(&frame), Some(Request::Read { key: 5 }));
}

#[test]
fn key_and_value_come_back_from_an_echoing_peer() {
    let carrot: Carrot<()> = client();
    let values: Vec<Value> = vec![
        Value::Unsigned(0),
        Value::Unsigned(u64::MAX),
        Value::Signed(i64::MIN),
        Value::Signed(i64::MAX),
        Value::Text(String::new()),
        Value::Text(String::from("Möhre")),
        Value::Bytes(Vec::new()),
        Value::Bytes(vec![0u8, 255, 0, 1]),
    ];
    let mut key: u32 = 0;
    for value in values {
        let request: Request = Request::Write { key, data: value.clone(), iat: 11 };
        let mut peer: Peer = echo(&request);
        assert_eq!(drive(carrot.write(key, value, 11), &mut peer), Ok(request));
        key = key * 3 + 1;
    }
    let mut peer: Peer = echo(&Request::Read { key: u32::MAX });
    assert_eq!(drive(carrot.read(u32::MAX), &mut peer), Ok(Request::Read { key: u32::MAX }));
}

#[test]
fn data_too_large_for_a_frame_is_an_encoding_error() {
    let mut peer: Peer = Peer::delivering(Some(vec![1u8; 1024]));
    let result: Result<Request, CarrotError> =
        drive(client().write(1, vec![0u8; 2000], 0), &mut peer);
    assert_eq!(result, Err(CarrotError::Encoding));
    assert!(peer.written.is_empty());
}

#[test]
fn zero_frame_from_the_peer_is_a_decoding_error() {
    let mut peer: Peer = Peer::delivering(Some(vec![0u8; 1024]));
    assert_eq!(drive(client().read(5), &mut peer), Err(CarrotError::Decoding));
    assert_eq!(peer.written.len(), 1);
}

#[test]
fn peer_that_closes_at_once_is_a_transport_error() {
    let mut peer: Peer = Peer::delivering(Some(Vec::new()));
    let result: Result<Request, CarrotError> = drive(client().read(1), &mut peer);
    assert_eq!(result, Err(CarrotError::Io(IoFailure::Closed)));
    assert_eq!(CarrotError::Io(IoFailure::Closed).message(), "N == 0");
}

#[test]
fn failed_read_ends_the_call_with_a_transport_error() {
    let mut peer: Peer = Peer::delivering(None);
    let result: Result<Request, CarrotError> = drive(client().read(1), &mut peer);
    assert_eq!(result, Err(CarrotError::Io(IoFailure::Read)));
}

#[test]
fn closed_socket_fails_reads_and_writes_with_a_transport_error() {
    let carrot: Carrot<()> = client();
    let mut peer: Peer = Peer::refusing_writes();
    let read: Result<Request, CarrotError> = drive(carrot.read(1), &mut peer);
    assert_eq!(read, Err(CarrotError::Io(IoFailure::Write)));
    let write: Result<Request, CarrotError> = drive(carrot.write(1, 2u64, 3), &mut peer);
    assert_eq!(write, Err(CarrotError::Io(IoFailure::Write)));
    assert!(read.is_err_and(|error| error.is_io()));
    assert!(write.is_err_and(|error| error.is_io()));
}

#[test]
fn partial_response_is_parsed_from_the_zeroed_buffer() {
    let request: Request = Request::Read { key: 258 };
    let whole: Vec<u8> = match encode(&request) {
        Some(frame) => frame,
        None => panic!("no frame"),
    };
    let mut peer: Peer = Peer::delivering(Some(whole[..5].to_vec()));
    assert_eq!(drive(client().read(258), &mut peer), Ok(request));
}
