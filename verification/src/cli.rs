//! The command-line client's decisions: new passphrases, requests and results.
use crate::primitives::{base64_decode, base64_encode, base64_value};
use crate::protocol::{Request, Success, SuccessView};
use crate::bytes::same_text;
use vstd::prelude::*;

verus! {

/// Why a new passphrase is refused.
#[derive(Clone, Copy, Debug, PartialEq, Eq, Structural)]
pub enum PassphraseError {
    /// It is empty.
    Empty,
    /// Its confirmation differs.
    Mismatch,
}

impl PassphraseError {
    /// Returns the message for a person.
    pub fn message(&self) -> (res: &'static str)
        ensures
            res == match *self {
                PassphraseError::Empty => "passphrase must not be empty",
                PassphraseError::Mismatch => "passphrase confirmation does not match",
            },
    {
        match self {
            PassphraseError::Empty => "passphrase must not be empty",
            PassphraseError::Mismatch => "passphrase confirmation does not match",
        }
    }
}

/// Checks a new passphrase before its confirmation is asked for.
pub fn check_new_passphrase(first: &str) -> (res: Result<(), PassphraseError>)
    ensures
        res == if first@.len() == 0 {
            Err::<(), _>(PassphraseError::Empty)
        } else {
            Ok(())
        },
{
    if first.is_empty() {
        return Err(PassphraseError::Empty);
    }
    Ok(())
}

/// Checks that a new passphrase was confirmed.
pub fn confirm_passphrase(first: &str, second: &str) -> (res: Result<(), PassphraseError>)
    ensures
        res == if first@ == second@ {
            Ok::<(), PassphraseError>(())
        } else {
            Err(PassphraseError::Mismatch)
        },
{
    if !same_text(first, second) {
        return Err(PassphraseError::Mismatch);
    }
    Ok(())
}

/// Builds the request that publishes a plaintext. The daemon decodes exactly that plaintext
/// from it.
pub fn put_request(object_id: &str, plaintext: &[u8]) -> (res: Request)
    requires
        plaintext@.len() <= crate::daemon::MAX_ENCODABLE_BYTES,
    ensures
        res matches Request::Put { object_id: object, plaintext_b64 } && object@ == object_id@
            && plaintext_b64@ == crate::primitives::base64_text(plaintext@) && base64_value(
            plaintext_b64@,
        ) == Some(plaintext@),
{
    Request::Put { object_id: object_id.to_string(), plaintext_b64: base64_encode(plaintext) }
}

/// Why a result does not yield a plaintext.
#[derive(Clone, Copy, Debug, PartialEq, Eq, Structural)]
pub enum ResultError {
    /// The result is not a plaintext.
    Unexpected,
    /// The plaintext is not base64.
    Encoding,
}

/// Returns the plaintext that a read was answered with.
pub fn received_plaintext(result: &Success) -> (res: Result<Vec<u8>, ResultError>)
    ensures
        match result@ {
            SuccessView::Plaintext { plaintext_b64 } => match (res, base64_value(plaintext_b64)) {
                (Ok(plaintext), Some(expected)) => plaintext@ == expected,
                (Err(error), None) => error == ResultError::Encoding,
                _ => false,
            },
            _ => res == Err::<Vec<u8>, _>(ResultError::Unexpected),
        },
{
    match result {
        Success::Plaintext { plaintext_b64 } => match base64_decode(plaintext_b64.as_str()) {
            Some(plaintext) => Ok(plaintext),
            None => Err(ResultError::Encoding),
        },
        _ => Err(ResultError::Unexpected),
    }
}

} // verus!
