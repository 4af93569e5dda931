//! The outside functions that the vault composes: ciphers, hashes, signatures,
//! randomness, base64 and memory wiping. Each contract below is taken as given;
//! everything else in the crate is proved from these contracts.
use aes_gcm_siv::aead::{Aead, KeyInit, Payload};
use aes_gcm_siv::{Aes256GcmSiv, Nonce};
use base64::engine::general_purpose::STANDARD;
use base64::Engine;
use ed25519_dalek::{Signature, Signer, SigningKey, Verifier, VerifyingKey};
use hkdf::Hkdf;
use rand::rngs::OsRng;
use rand::RngCore;
use sha2::{Digest, Sha256};
use vstd::prelude::*;
use vstd::utf8::{decode_utf8, valid_utf8};
use zeroize::Zeroize;

verus! {

/// Largest message or associated data that AES-GCM-SIV accepts, in bytes.
pub const AEAD_MAX_BYTES: u64 = 0x10_0000_0000;

/// Length of the authentication tag behind every ciphertext.
pub const AEAD_TAG_BYTES: u64 = 16;

/// Largest passphrase that Argon2 accepts, in bytes.
pub const ARGON2_MAX_PASSPHRASE_BYTES: u64 = 0xffff_ffff;

/// What AES-256-GCM-SIV makes of a message: its ciphertext, then the tag.
pub uninterp spec fn aead_ciphertext(key: Seq<u8>, nonce: Seq<u8>, aad: Seq<u8>, message: Seq<u8>) -> Seq<u8>;

/// The message that AES-256-GCM-SIV authenticates in a ciphertext, or nothing.
pub uninterp spec fn aead_plaintext(key: Seq<u8>, nonce: Seq<u8>, aad: Seq<u8>, ciphertext: Seq<u8>) -> Option<Seq<u8>>;

/// The 32-byte output of Argon2id, version 1.3, without secret or associated data.
pub uninterp spec fn argon2id_output(passphrase: Seq<u8>, salt: Seq<u8>, memory_kib: u32, iterations: u32, lanes: u32) -> Seq<u8>;

/// The first 32 bytes of HKDF-SHA-256 output.
pub uninterp spec fn hkdf_sha256(salt: Seq<u8>, key: Seq<u8>, info: Seq<u8>) -> Seq<u8>;

/// The SHA-256 digest of a byte string.
pub uninterp spec fn sha256(message: Seq<u8>) -> Seq<u8>;

/// What a running SHA-256 computation has been given so far.
pub uninterp spec fn absorbed(state: Sha256Stream) -> Seq<u8>;

/// The Ed25519 public key of a secret seed.
pub uninterp spec fn ed25519_public_key(seed: Seq<u8>) -> Seq<u8>;

/// The Ed25519 signature of a message under a secret seed.
pub uninterp spec fn ed25519_signature(seed: Seq<u8>, message: Seq<u8>) -> Seq<u8>;

/// Whether 32 bytes decode to an Ed25519 public key.
pub uninterp spec fn ed25519_key_parses(public_key: Seq<u8>) -> bool;

/// Whether a signature verifies for a message under an Ed25519 public key.
pub uninterp spec fn ed25519_verifies(public_key: Seq<u8>, message: Seq<u8>, signature: Seq<u8>) -> bool;

/// The standard padded base64 text of a byte string.
pub uninterp spec fn base64_text(bytes: Seq<u8>) -> Seq<char>;

/// The byte string that a standard base64 text stands for, or nothing.
pub uninterp spec fn base64_value(text: Seq<char>) -> Option<Seq<u8>>;

/// The text of a byte string with every malformed sequence replaced.
pub uninterp spec fn lossy_text(bytes: Seq<u8>) -> Seq<char>;

/// `Aead::encrypt` of `aes_gcm_siv::Aes256GcmSiv`, built by `new_from_slice`. It fails
/// exactly on a message or associated data above the cipher's limit. The result is the
/// named ciphertext, one tag longer than the message, and `decrypt` in the same context
/// gives the message back.
#[verifier::external_body]
pub(crate) fn aead_encrypt(key: &[u8], nonce: &[u8; 12], aad: &[u8], message: &[u8]) -> (res: Option<Vec<u8>>)
    requires
        key@.len() == 32,
    ensures
        res is Some <==> (message@.len() <= AEAD_MAX_BYTES && aad@.len() <= AEAD_MAX_BYTES),
        res is Some ==> res->0@ == aead_ciphertext(key@, nonce@, aad@, message@),
        res is Some ==> res->0@.len() == message@.len() + AEAD_TAG_BYTES,
        res is Some ==> aead_plaintext(key@, nonce@, aad@, res->0@) == Some(message@),
{
    let cipher = Aes256GcmSiv::new_from_slice(key).ok()?;
    cipher.encrypt(Nonce::from_slice(nonce), Payload { msg: message, aad }).ok()
}

/// `Aead::decrypt` of `aes_gcm_siv::Aes256GcmSiv`, built by `new_from_slice`: the named
/// message, one tag shorter than the ciphertext, or a failure.
#[verifier::external_body]
pub(crate) fn aead_decrypt(key: &[u8], nonce: &[u8; 12], aad: &[u8], ciphertext: &[u8]) -> (res: Option<Vec<u8>>)
    requires
        key@.len() == 32,
    ensures
        res is Some ==> aead_plaintext(key@, nonce@, aad@, ciphertext@) == Some(res->0@),
        res is Some ==> res->0@.len() + AEAD_TAG_BYTES == ciphertext@.len(),
        res is None ==> aead_plaintext(key@, nonce@, aad@, ciphertext@) is None,
{
    let cipher = Aes256GcmSiv::new_from_slice(key).ok()?;
    cipher.decrypt(Nonce::from_slice(nonce), Payload { msg: ciphertext, aad }).ok()
}

/// Which Argon2 cost parameters are usable: at least eight blocks and eight for every
/// lane, at least one pass, and between one and 2^24 - 1 lanes.
pub open spec fn argon2_costs_usable(memory_kib: u32, iterations: u32, lanes: u32) -> bool {
    &&& memory_kib >= 8
    &&& memory_kib >= 8 * lanes
    &&& iterations >= 1
    &&& 1 <= lanes <= 0xff_ffff
}

/// `argon2::Params::new` for a 32-byte output accepts exactly the usable costs. It
/// multiplies the lane count by eight in 32 bits, so the count is bounded beforehand.
#[verifier::external_body]
pub(crate) fn argon2_accepts(memory_kib: u32, iterations: u32, lanes: u32) -> (res: bool)
    requires
        lanes <= 0x1fff_ffff,
    ensures
        res == argon2_costs_usable(memory_kib, iterations, lanes),
{
    argon2::Params::new(memory_kib, iterations, lanes, Some(32)).is_ok()
}

/// `argon2::Argon2::hash_password_into` with algorithm Argon2id and version 1.3: the named
/// output, except for a passphrase above the length limit, which is refused.
#[verifier::external_body]
pub(crate) fn argon2id(passphrase: &[u8], salt: &[u8; 16], memory_kib: u32, iterations: u32, lanes: u32) -> (res: Option<[u8; 32]>)
    requires
        argon2_costs_usable(memory_kib, iterations, lanes),
    ensures
        res is Some <==> passphrase@.len() <= ARGON2_MAX_PASSPHRASE_BYTES,
        res is Some ==> res->0@ == argon2id_output(passphrase@, salt@, memory_kib, iterations, lanes),
{
    let params = argon2::Params::new(memory_kib, iterations, lanes, Some(32)).ok()?;
    let argon2 = argon2::Argon2::new(argon2::Algorithm::Argon2id, argon2::Version::V0x13, params);
    let mut output = [0u8; 32];
    argon2.hash_password_into(passphrase, salt, &mut output).ok()?;
    Some(output)
}

/// `hkdf::Hkdf::<Sha256>::new` and `expand` to 32 bytes, which is below the expansion
/// limit of 255 digests and so never fails.
#[verifier::external_body]
pub(crate) fn hkdf_expand(salt: &[u8], key: &[u8; 32], info: &[u8]) -> (res: Option<[u8; 32]>)
    ensures
        res is Some,
        res->0@ == hkdf_sha256(salt@, key@, info@),
{
    let mut output = [0u8; 32];
    Hkdf::<Sha256>::new(Some(salt), key).expand(info, &mut output).ok()?;
    Some(output)
}

/// A running SHA-256 computation of the `sha2` crate.
#[verifier::external_body]
pub struct Sha256Stream {
    inner: Sha256,
}

/// `sha2::Sha256::new`: nothing absorbed yet.
#[verifier::external_body]
pub(crate) fn sha256_start() -> (res: Sha256Stream)
    ensures
        absorbed(res) == Seq::<u8>::empty(),
{
    Sha256Stream { inner: Sha256::new() }
}

/// `sha2::Digest::update`: absorbs bytes behind those already absorbed.
#[verifier::external_body]
pub(crate) fn sha256_absorb(state: &mut Sha256Stream, bytes: &[u8])
    ensures
        absorbed(*final(state)) == absorbed(*old(state)) + bytes@,
{
    state.inner.update(bytes);
}

/// `sha2::Digest::finalize`: the named digest of all absorbed bytes. The crate counts the
/// message's bits in 64 bits, as SHA-256 itself does. A message of 2^61 bytes would
/// overflow that count; it is larger than any database file or address space.
#[verifier::external_body]
pub(crate) fn sha256_finish(state: Sha256Stream) -> (res: [u8; 32])
    ensures
        res@ == sha256(absorbed(state)),
{
    state.inner.finalize().into()
}

/// `ed25519_dalek::SigningKey::from_bytes` and `verifying_key`: the named public key of a
/// seed, which always decodes.
#[verifier::external_body]
pub(crate) fn signing_public_key(seed: &[u8; 32]) -> (res: [u8; 32])
    ensures
        res@ == ed25519_public_key(seed@),
        ed25519_key_parses(res@),
{
    SigningKey::from_bytes(seed).verifying_key().to_bytes()
}

/// `ed25519_dalek::Signer::sign`: the named signature, which verifies under the public
/// key of the same seed.
#[verifier::external_body]
pub(crate) fn sign_message(seed: &[u8; 32], message: &[u8]) -> (res: [u8; 64])
    ensures
        res@ == ed25519_signature(seed@, message@),
        ed25519_verifies(ed25519_public_key(seed@), message@, res@),
{
    SigningKey::from_bytes(seed).sign(message).to_bytes()
}

/// `ed25519_dalek::VerifyingKey::from_bytes`: whether the key decodes.
#[verifier::external_body]
pub(crate) fn public_key_parses(public_key: &[u8; 32]) -> (res: bool)
    ensures
        res == ed25519_key_parses(public_key@),
{
    VerifyingKey::from_bytes(public_key).is_ok()
}

/// `ed25519_dalek::Verifier::verify` under a key that decodes: whether it accepts.
#[verifier::external_body]
pub(crate) fn signature_verifies(public_key: &[u8; 32], message: &[u8], signature: &[u8; 64]) -> (res: bool)
    requires
        ed25519_key_parses(public_key@),
    ensures
        res == ed25519_verifies(public_key@, message@, signature@),
{
    VerifyingKey::from_bytes(public_key)
        .and_then(|key| key.verify(message, &Signature::from_bytes(signature)))
        .is_ok()
}

/// `rand::rngs::OsRng::fill_bytes`: bytes of the operating system's generator, of which
/// nothing is known. It panics where the operating system has no randomness to give.
#[verifier::external_body]
pub(crate) fn random_array<const N: usize>() -> (res: [u8; N]) {
    let mut bytes = [0u8; N];
    OsRng.fill_bytes(&mut bytes);
    bytes
}

/// `base64::Engine::encode` of the standard padded engine: the named text, which
/// `decode` takes back to the same bytes. The text has four characters for every three
/// bytes begun, and `encode` panics where that exceeds the largest allocation, which is half
/// the address space.
#[verifier::external_body]
pub(crate) fn base64_encode(bytes: &[u8]) -> (res: String)
    requires
        bytes@.len() <= usize::MAX / 8 * 3,
    ensures
        res@ == base64_text(bytes@),
        base64_value(res@) == Some(bytes@),
{
    STANDARD.encode(bytes)
}

/// `base64::Engine::decode` of the standard padded engine: the named bytes or a failure.
#[verifier::external_body]
pub(crate) fn base64_decode(text: &str) -> (res: Option<Vec<u8>>)
    ensures
        res is Some ==> base64_value(text@) == Some(res->0@),
        res is None ==> base64_value(text@) is None,
{
    STANDARD.decode(text).ok()
}

/// `constant_time_eq::constant_time_eq`: whether two byte strings are equal.
#[verifier::external_body]
pub(crate) fn constant_time_equal(left: &[u8], right: &[u8]) -> (res: bool)
    ensures
        res == (left@ == right@),
{
    constant_time_eq::constant_time_eq(left, right)
}

/// `String::from_utf8_lossy`: the named text, which is the decoded text where the bytes
/// are valid UTF-8.
#[verifier::external_body]
pub(crate) fn text_from_bytes(bytes: &[u8]) -> (res: String)
    ensures
        res@ == lossy_text(bytes@),
        valid_utf8(bytes@) ==> res@ == decode_utf8(bytes@),
{
    String::from_utf8_lossy(bytes).into_owned()
}

/// `zeroize::Zeroize::zeroize` of a byte array: every byte becomes zero.
#[verifier::external_body]
pub(crate) fn wipe_array<const N: usize>(bytes: &mut [u8; N])
    ensures
        forall|i: int| 0 <= i < N ==> final(bytes)@[i] == 0,
{
    bytes.zeroize();
}

/// `zeroize::Zeroize::zeroize` of a byte vector: its memory is overwritten and it becomes
/// empty.
#[verifier::external_body]
pub(crate) fn wipe_vec(bytes: &mut Vec<u8>)
    ensures
        final(bytes)@ == Seq::<u8>::empty(),
{
    bytes.zeroize();
}

} // verus!
