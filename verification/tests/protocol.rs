use serde_json::Value;
use vlt1::cli::{put_request, received_plaintext, ResultError};
use vlt1::protocol::{
    frame_length, read_frame, write_frame, ErrorCode, Failure, ProtocolError, Request, Success,
    MAX_FRAME_BYTES,
};

fn request_json(request: &Request) -> Vec<u8> {
    let mut fields = serde_json::Map::new();
    if let Request::Get { object_id } = request {
        fields.insert("op".to_owned(), Value::String("get".to_owned()));
        fields.insert("object_id".to_owned(), Value::String(object_id.clone()));
    }
    serde_json::to_vec(&Value::Object(fields)).expect("request JSON")
}

fn parsed_request(body: &[u8]) -> Option<Request> {
    let value: Value = serde_json::from_slice(body).ok()?;
    match value.get("op")?.as_str()? {
        "get" => Some(Request::Get {
            object_id: value.get("object_id")?.as_str()?.to_owned(),
        }),
        _ => None,
    }
}

#[test]
fn request_round_trip_is_stable() {
    let request = Request::Get {
        object_id: "00".repeat(16),
    };
    let bytes = write_frame(&request_json(&request)).expect("write request");
    let body = read_frame(&bytes).expect("read request");
    assert_eq!(parsed_request(&body), Some(request));
}

#[test]
fn oversize_length_is_rejected_before_allocation() {
    let length = u32::try_from(MAX_FRAME_BYTES + 1)
        .expect("protocol maximum must fit into u32")
        .to_be_bytes();
    let bytes = length.to_vec();
    assert!(matches!(
        read_frame(&bytes),
        Err(ProtocolError::InvalidLength)
    ));
    assert_eq!(frame_length(&length), Err(ProtocolError::InvalidLength));
}

#[test]
fn frames_are_bounded_and_complete() {
    assert_eq!(MAX_FRAME_BYTES, 16 * 1024 * 1024);
    assert_eq!(
        frame_length(&(MAX_FRAME_BYTES as u32).to_be_bytes()),
        Ok(MAX_FRAME_BYTES)
    );
    assert_eq!(frame_length(&[0; 4]), Err(ProtocolError::InvalidLength));
    assert_eq!(write_frame(b"abc"), Ok(vec![0, 0, 0, 3, b'a', b'b', b'c']));
    assert_eq!(write_frame(b""), Err(ProtocolError::InvalidLength));
    assert_eq!(
        write_frame(&vec![0; MAX_FRAME_BYTES + 1]),
        Err(ProtocolError::InvalidLength)
    );
    assert_eq!(read_frame(&[0, 0, 0]), Err(ProtocolError::Truncated));
    assert_eq!(
        read_frame(&[0, 0, 0, 3, b'a', b'b']),
        Err(ProtocolError::Truncated)
    );
    assert_eq!(
        read_frame(&[0, 0, 0, 2, b'a', b'b', b'c']),
        Ok(vec![b'a', b'b'])
    );
}

#[test]
fn protocol_errors_have_messages() {
    assert_eq!(
        ProtocolError::Truncated.message(),
        "truncated protocol frame"
    );
    assert_eq!(ProtocolError::InvalidJson.message(), "invalid protocol JSON");
    assert_eq!(
        ProtocolError::InvalidLength.message(),
        "invalid protocol frame length"
    );
    assert_eq!(ProtocolError::Io.message(), "protocol stream I/O failed");
    let failure = Failure {
        code: ErrorCode::WitnessConflict,
        message: String::new(),
    };
    assert_eq!(failure.code_to_text(), "freshness witness conflict");
}

#[test]
fn plaintext_travels_as_base64() {
    let request = put_request("00", &[0xfb, 0xff, 0x00]);
    assert_eq!(
        request,
        Request::Put {
            object_id: "00".to_owned(),
            plaintext_b64: "+/8A".to_owned(),
        }
    );
    let result = Success::Plaintext {
        plaintext_b64: "+/8A".to_owned(),
    };
    assert_eq!(received_plaintext(&result), Ok(vec![0xfb, 0xff, 0x00]));
    let broken = Success::Plaintext {
        plaintext_b64: "+/8".to_owned(),
    };
    assert_eq!(received_plaintext(&broken), Err(ResultError::Encoding));
    assert_eq!(
        received_plaintext(&Success::Empty),
        Err(ResultError::Unexpected)
    );
}
