//! Bounded local daemon protocol.
//!
//! One request and one response travel over a local connection. Each message is
//! framed by a four-byte big-endian length and is rejected before its body is
//! read if that length is zero or exceeds [`MAX_FRAME_BYTES`].
use crate::bytes::{be_value, push_be, read_be};
use vstd::prelude::*;
use vstd::slice::{slice_subrange, slice_to_vec};

verus! {

/// Maximum accepted request or response frame size.
pub const MAX_FRAME_BYTES: usize = 16_777_216;

/// Bytes of the length that precedes every message.
pub const FRAME_HEADER_BYTES: usize = 4;

/// Closed set of client operations accepted by the daemon.
#[derive(Clone, Debug, PartialEq, Eq)]
pub enum Request {
    /// Returns non-secret daemon and vault metadata.
    Status,
    /// Unlocks the daemon-held vault with a local passphrase.
    Unlock {
        /// Passphrase transported only over the protected local socket.
        passphrase: String,
    },
    /// Explicitly clears the daemon-held Root Key.
    Lock,
    /// Publishes a base64 plaintext as a new immutable version.
    Put {
        /// 32-character lowercase hexadecimal object identifier.
        object_id: String,
        /// Standard base64 plaintext payload.
        plaintext_b64: String,
    },
    /// Fully verifies and returns the active object version as base64 plaintext.
    Get {
        /// 32-character lowercase hexadecimal object identifier.
        object_id: String,
    },
    /// Re-wraps the Root Key under a replacement passphrase and locks the vault.
    RotatePassphrase {
        /// Current passphrase used to authenticate the Root Key envelope.
        current_passphrase: String,
        /// Replacement passphrase used for a new Root Key envelope.
        replacement_passphrase: String,
    },
    /// Verifies all active object versions after the vault is unlocked.
    Verify,
    /// Runs a full write-ahead-log checkpoint after the vault is unlocked.
    Checkpoint,
    /// Creates a consistent encrypted online backup and sidecar manifest.
    Backup {
        /// New backup destination path; the daemon refuses to overwrite it.
        destination: String,
    },
    /// Stops the daemon. Disabled unless the daemon was explicitly configured for it.
    Shutdown,
}

/// Closed set of successful result payloads.
#[allow(inconsistent_fields)]
#[derive(Clone, Debug, PartialEq, Eq)]
pub enum Success {
    /// A no-payload operation completed.
    Empty,
    /// Non-secret daemon status.
    Status {
        /// Format label.
        format: String,
        /// Stable lowercase hexadecimal vault identifier.
        vault_id: String,
        /// `locked` or `unlocked` lifecycle state.
        lifecycle: String,
        /// Database integrity scan state observed during startup.
        recovery: String,
        /// Number of verified active objects when known.
        verified_active_objects: Option<u64>,
    },
    /// A new immutable version was published.
    Published {
        /// New 32-character lowercase hexadecimal version identifier.
        version_id: String,
    },
    /// Fully verified base64 plaintext.
    Plaintext {
        /// Standard base64 plaintext payload.
        plaintext_b64: String,
    },
    /// Result of an all-active-object verification pass.
    Verified {
        /// Number of active object versions verified.
        active_objects: u64,
    },
    /// Metadata for a successfully created encrypted online backup.
    Backup {
        /// Stable backup format marker.
        format: String,
        /// Lowercase hexadecimal SHA-256 of the encrypted snapshot database.
        database_sha256: String,
        /// Exact encrypted snapshot file length.
        database_bytes: u64,
    },
}

/// What a successful result says.
#[allow(inconsistent_fields)]
pub ghost enum SuccessView {
    Empty,
    Status {
        format: Seq<char>,
        vault_id: Seq<char>,
        lifecycle: Seq<char>,
        recovery: Seq<char>,
        verified_active_objects: Option<u64>,
    },
    Published { version_id: Seq<char> },
    Plaintext { plaintext_b64: Seq<char> },
    Verified { active_objects: u64 },
    Backup { format: Seq<char>, database_sha256: Seq<char>, database_bytes: u64 },
}

impl View for Success {
    type V = SuccessView;

    open spec fn view(&self) -> SuccessView {
        match *self {
            Success::Empty => SuccessView::Empty,
            Success::Status {
                format,
                vault_id,
                lifecycle,
                recovery,
                verified_active_objects,
            } => SuccessView::Status {
                format: format@,
                vault_id: vault_id@,
                lifecycle: lifecycle@,
                recovery: recovery@,
                verified_active_objects,
            },
            Success::Published { version_id } => SuccessView::Published { version_id: version_id@ },
            Success::Plaintext { plaintext_b64 } => SuccessView::Plaintext {
                plaintext_b64: plaintext_b64@,
            },
            Success::Verified { active_objects } => SuccessView::Verified { active_objects },
            Success::Backup { format, database_sha256, database_bytes } => SuccessView::Backup {
                format: format@,
                database_sha256: database_sha256@,
                database_bytes,
            },
        }
    }
}

/// Stable error categories returned by the daemon.
#[derive(Clone, Copy, Debug, PartialEq, Eq, Structural)]
pub enum ErrorCode {
    /// Protocol framing or content was malformed.
    Protocol,
    /// Caller peer credentials were not permitted.
    Unauthorized,
    /// Requested operation needs an unlocked vault.
    Locked,
    /// Requested item was absent.
    NotFound,
    /// Input was not valid for the requested operation.
    InvalidInput,
    /// Authentication or integrity verification failed.
    Verification,
    /// A storage operation failed.
    Storage,
    /// Independently configured freshness witness could not be reached.
    WitnessUnavailable,
    /// Witness state contradicted the locally authenticated active state.
    WitnessConflict,
    /// Daemon admission controls rejected the connection without dispatching it.
    Overloaded,
    /// The requested operation is disabled by daemon policy.
    Policy,
    /// An internal failure occurred; details are retained only in daemon logs.
    Internal,
}

/// The text of an error category in messages for people.
pub open spec fn error_code_text(code: ErrorCode) -> &'static str {
    match code {
        ErrorCode::Protocol => "protocol error",
        ErrorCode::Unauthorized => "unauthorized",
        ErrorCode::Locked => "vault locked",
        ErrorCode::NotFound => "not found",
        ErrorCode::InvalidInput => "invalid input",
        ErrorCode::Verification => "verification failed",
        ErrorCode::Storage => "storage error",
        ErrorCode::WitnessUnavailable => "freshness witness unavailable",
        ErrorCode::WitnessConflict => "freshness witness conflict",
        ErrorCode::Overloaded => "daemon connection limit reached",
        ErrorCode::Policy => "policy denied",
        ErrorCode::Internal => "internal error",
    }
}

/// Error response that deliberately avoids sensitive diagnostics.
#[derive(Clone, Debug, PartialEq, Eq)]
pub struct Failure {
    /// Stable machine-readable error category.
    pub code: ErrorCode,
    /// Safe, non-secret explanatory message.
    pub message: String,
}

impl Failure {
    /// Names the error category for a person at the command line.
    #[must_use]
    pub fn code_to_text(&self) -> (res: &'static str)
        ensures
            res == error_code_text(self.code),
            res == match self.code {
                ErrorCode::Protocol => "protocol error",
                ErrorCode::Unauthorized => "unauthorized",
                ErrorCode::Locked => "vault locked",
                ErrorCode::NotFound => "not found",
                ErrorCode::InvalidInput => "invalid input",
                ErrorCode::Verification => "verification failed",
                ErrorCode::Storage => "storage error",
                ErrorCode::WitnessUnavailable => "freshness witness unavailable",
                ErrorCode::WitnessConflict => "freshness witness conflict",
                ErrorCode::Overloaded => "daemon connection limit reached",
                ErrorCode::Policy => "policy denied",
                ErrorCode::Internal => "internal error",
            },
    {
        match self.code {
            ErrorCode::Protocol => "protocol error",
            ErrorCode::Unauthorized => "unauthorized",
            ErrorCode::Locked => "vault locked",
            ErrorCode::NotFound => "not found",
            ErrorCode::InvalidInput => "invalid input",
            ErrorCode::Verification => "verification failed",
            ErrorCode::Storage => "storage error",
            ErrorCode::WitnessUnavailable => "freshness witness unavailable",
            ErrorCode::WitnessConflict => "freshness witness conflict",
            ErrorCode::Overloaded => "daemon connection limit reached",
            ErrorCode::Policy => "policy denied",
            ErrorCode::Internal => "internal error",
        }
    }
}

/// What a failure says.
pub ghost struct FailureView {
    pub code: ErrorCode,
    pub message: Seq<char>,
}

impl View for Failure {
    type V = FailureView;

    open spec fn view(&self) -> FailureView {
        FailureView { code: self.code, message: self.message@ }
    }
}

/// One protocol response.
#[derive(Clone, Debug, PartialEq, Eq)]
pub enum Response {
    /// Successful response.
    Success {
        /// Operation-specific successful result.
        result: Success,
    },
    /// Failed response.
    Error {
        /// Stable error category and safe message.
        error: Failure,
    },
}

/// What a response says.
pub ghost enum ResponseView {
    Success { result: SuccessView },
    Error { error: FailureView },
}

impl View for Response {
    type V = ResponseView;

    open spec fn view(&self) -> ResponseView {
        match *self {
            Response::Success { result } => ResponseView::Success { result: result@ },
            Response::Error { error } => ResponseView::Error { error: error@ },
        }
    }
}

/// Framing or serialization error.
#[derive(Clone, Copy, Debug, PartialEq, Eq, Structural)]
pub enum ProtocolError {
    /// The peer ended a frame before all bytes arrived.
    Truncated,
    /// The frame length was zero or exceeded the fixed protocol limit.
    InvalidLength,
    /// The body did not match the closed request or response schema.
    InvalidJson,
    /// A stream operation failed without exposing an implementation-specific error.
    Io,
}

impl ProtocolError {
    /// The message of an error.
    pub open spec fn text(self) -> Seq<char> {
        match self {
            ProtocolError::Truncated => "truncated protocol frame"@,
            ProtocolError::InvalidLength => "invalid protocol frame length"@,
            ProtocolError::InvalidJson => "invalid protocol JSON"@,
            ProtocolError::Io => "protocol stream I/O failed"@,
        }
    }

    /// Returns the message of an error.
    pub fn message(&self) -> (res: &'static str)
        ensures
            res@ == self.text(),
            res == match *self {
                ProtocolError::Truncated => "truncated protocol frame",
                ProtocolError::InvalidLength => "invalid protocol frame length",
                ProtocolError::InvalidJson => "invalid protocol JSON",
                ProtocolError::Io => "protocol stream I/O failed",
            },
    {
        match self {
            ProtocolError::Truncated => "truncated protocol frame",
            ProtocolError::InvalidLength => "invalid protocol frame length",
            ProtocolError::InvalidJson => "invalid protocol JSON",
            ProtocolError::Io => "protocol stream I/O failed",
        }
    }
}

/// The length that a frame header announces.
pub open spec fn length_verdict(header: Seq<u8>) -> Result<nat, ProtocolError> {
    let length = crate::bytes::be_value(header);
    if length == 0 || length > MAX_FRAME_BYTES {
        Err(ProtocolError::InvalidLength)
    } else {
        Ok(length)
    }
}

/// The body of the frame that a byte stream starts with.
pub open spec fn frame_verdict(stream: Seq<u8>) -> Result<Seq<u8>, ProtocolError> {
    if stream.len() < FRAME_HEADER_BYTES {
        Err(ProtocolError::Truncated)
    } else {
        match length_verdict(stream.subrange(0, FRAME_HEADER_BYTES as int)) {
            Err(error) => Err(error),
            Ok(length) => if stream.len() < FRAME_HEADER_BYTES + length {
                Err(ProtocolError::Truncated)
            } else {
                Ok(stream.subrange(FRAME_HEADER_BYTES as int, FRAME_HEADER_BYTES + length))
            },
        }
    }
}

/// The frame of a message body.
pub open spec fn framed(body: Seq<u8>) -> Result<Seq<u8>, ProtocolError> {
    if body.len() == 0 || body.len() > MAX_FRAME_BYTES {
        Err(ProtocolError::InvalidLength)
    } else {
        Ok(crate::bytes::be_bytes(body.len(), 4) + body)
    }
}

/// Reads the length in a frame header, before any body is read.
pub fn frame_length(header: &[u8; 4]) -> (res: Result<usize, ProtocolError>)
    ensures
        match (res, length_verdict(header@)) {
            (Ok(length), Ok(expected)) => length == expected && 0 < length <= MAX_FRAME_BYTES,
            (Err(error), Err(expected)) => error == expected,
            _ => false,
        },
{
    let length: u64 = read_be(header.as_slice());
    if length == 0 || length > MAX_FRAME_BYTES as u64 {
        return Err(ProtocolError::InvalidLength);
    }
    Ok(length as usize)
}

/// Reads one bounded frame from the start of a byte stream and returns its body.
pub fn read_frame(stream: &[u8]) -> (res: Result<Vec<u8>, ProtocolError>)
    ensures
        match (res, frame_verdict(stream@)) {
            (Ok(body), Ok(expected)) => body@ == expected,
            (Err(error), Err(expected)) => error == expected,
            _ => false,
        },
{
    if stream.len() < FRAME_HEADER_BYTES {
        return Err(ProtocolError::Truncated);
    }
    let header: [u8; 4] = [stream[0], stream[1], stream[2], stream[3]];
    assert(header@ =~= stream@.subrange(0, 4));
    let length: usize = frame_length(&header)?;
    if stream.len() - FRAME_HEADER_BYTES < length {
        return Err(ProtocolError::Truncated);
    }
    Ok(slice_to_vec(slice_subrange(stream, FRAME_HEADER_BYTES, FRAME_HEADER_BYTES + length)))
}

/// Frames one bounded message body.
pub fn write_frame(body: &[u8]) -> (res: Result<Vec<u8>, ProtocolError>)
    ensures
        match (res, framed(body@)) {
            (Ok(frame), Ok(expected)) => frame@ == expected,
            (Err(error), Err(expected)) => error == expected,
            _ => false,
        },
{
    if body.len() == 0 || body.len() > MAX_FRAME_BYTES {
        return Err(ProtocolError::InvalidLength);
    }
    let mut frame: Vec<u8> = Vec::new();
    push_be(&mut frame, body.len() as u64, 4);
    frame.extend_from_slice(body);
    Ok(frame)
}

/// Every message that can be framed is read back from its frame, whatever follows it in
/// the stream.
pub proof fn frame_round_trip(body: Seq<u8>, rest: Seq<u8>)
    requires
        framed(body) is Ok,
    ensures
        frame_verdict(framed(body)->Ok_0 + rest) == Ok::<_, ProtocolError>(body),
{
    let header = crate::bytes::be_bytes(body.len(), 4);
    let stream = framed(body)->Ok_0 + rest;
    crate::bytes::lemma_be_bytes_len(body.len(), 4);
    crate::bytes::lemma_pow256_values();
    crate::bytes::be_value_of_be_bytes(body.len(), 4);
    assert(stream.subrange(0, 4) =~= header);
    assert(stream.subrange(4, 4int + body.len()) =~= body);
}

/// A frame that a stream starts with is the only framing of its body.
pub proof fn frames_are_canonical(stream: Seq<u8>)
    requires
        frame_verdict(stream) is Ok,
    ensures
        framed(frame_verdict(stream)->Ok_0) == Ok::<_, ProtocolError>(
            stream.subrange(0, 4int + frame_verdict(stream)->Ok_0.len()),
        ),
{
    let header = stream.subrange(0, 4);
    let body = frame_verdict(stream)->Ok_0;
    crate::bytes::be_bytes_of_be_value(header);
    assert(stream.subrange(0, 4int + body.len()) =~= header + body);
}

/// A frame holds from one byte to 16 MiB, every such body can be framed, and the frame is the
/// body behind its length in four bytes.
pub proof fn frames_hold_up_to_sixteen_mebibytes(body: Seq<u8>)
    ensures
        framed(body) is Ok <==> 1 <= body.len() <= 16_777_216,
        framed(body) matches Ok(frame) ==> {
            &&& frame.len() == 4 + body.len()
            &&& be_value(frame.subrange(0, 4)) == body.len()
            &&& frame.subrange(4, frame.len() as int) == body
        },
        framed(body) matches Err(error) ==> error is InvalidLength,
{
    crate::bytes::lemma_pow256_values();
    if framed(body) is Ok {
        crate::bytes::be_value_of_be_bytes(body.len(), 4);
        let frame = framed(body)->Ok_0;
        assert(frame.subrange(0, 4) =~= crate::bytes::be_bytes(body.len(), 4));
        assert(frame.subrange(4, frame.len() as int) =~= body);
    }
}

/// A stream yields a body exactly where its first four bytes announce from 1 byte to 16 MiB
/// and that many bytes follow. Too few bytes are a truncation, any other length is refused.
pub proof fn streams_yield_what_their_header_announces(stream: Seq<u8>)
    ensures
        stream.len() < 4 ==> frame_verdict(stream) == Err::<Seq<u8>, _>(ProtocolError::Truncated),
        stream.len() >= 4 ==> ({
            let announced = be_value(stream.subrange(0, 4)) as int;
            frame_verdict(stream) == if announced == 0 || announced > 16_777_216 {
                Err::<Seq<u8>, _>(ProtocolError::InvalidLength)
            } else if stream.len() < 4 + announced {
                Err(ProtocolError::Truncated)
            } else {
                Ok(stream.subrange(4, 4 + announced))
            }
        }),
        stream.len() == 4 ==> (length_verdict(stream) is Ok <==> 1 <= be_value(stream)
            <= 16_777_216) && (length_verdict(stream) matches Ok(length) ==> length == be_value(
            stream,
        )),
{
}

/// A response stands for what it says.
pub proof fn responses_stand_for_what_they_say(result: Success, error: Failure)
    ensures
        error@.code == error.code,
        error@.message == error.message@,
        (Response::Success { result })@ == (ResponseView::Success { result: result@ }),
        (Response::Error { error })@ == (ResponseView::Error { error: error@ }),
        result is Empty <==> result@ is Empty,
        result matches Success::Published { version_id } ==> result@ == (SuccessView::Published {
            version_id: version_id@,
        }),
        result matches Success::Plaintext { plaintext_b64 } ==> result@ == (
        SuccessView::Plaintext { plaintext_b64: plaintext_b64@ }),
        result matches Success::Verified { active_objects } ==> result@ == (
        SuccessView::Verified { active_objects }),
        result matches Success::Backup { format, database_sha256, database_bytes } ==> result@ == (
        SuccessView::Backup {
            format: format@,
            database_sha256: database_sha256@,
            database_bytes,
        }),
{
}

} // verus!
