//! Signed freshness receipts and challenge-bound object heads.
//!
//! A receipt confirms one immutable version commitment. A head confirms the
//! witness's currently durable commitment for one object and binds a
//! caller-generated random challenge, preventing replay of a stale response as
//! a fresh observation.
use crate::bytes::{be_bytes, be_value_of_be_bytes, bytes_equal, lemma_be_bytes_len, lemma_pow256_values, push_be};
use crate::crypto::label;
use crate::error::VaultError;
use crate::format::{group_identifiers, ObjectId, SealedRecord, SealedView, VaultId, VersionId};
use crate::primitives::{absorbed, ed25519_key_parses, ed25519_public_key, ed25519_signature, ed25519_verifies, public_key_parses, random_array, sha256, sha256_absorb, sha256_finish, sha256_start, sign_message, signature_verifies, signing_public_key};
use vstd::prelude::*;
use vstd::std_specs::cmp::PartialEqSpec;
use vstd::utf8::{encode_utf8, is_ascii_chars_encode_utf8};

verus! {

/// The commitment of a witness to one encrypted version.
pub open spec fn commitment_of(
    vault_id: Seq<u8>,
    object_id: Seq<u8>,
    version_id: Seq<u8>,
    manifest: SealedView,
) -> Seq<u8> {
    sha256(
        label("VLT/1 witness commitment v1") + vault_id + object_id + version_id + manifest.nonce
            + be_bytes(manifest.ciphertext.len(), 8) + manifest.ciphertext,
    )
}

/// The canonical bytes that a receipt signs.
pub open spec fn receipt_message(
    vault_id: Seq<u8>,
    object_id: Seq<u8>,
    version_id: Seq<u8>,
    witness_epoch: u64,
    commitment: Seq<u8>,
) -> Seq<u8> {
    label("VLT/1 witness receipt v1") + vault_id + object_id + version_id + be_bytes(
        witness_epoch as nat,
        8,
    ) + commitment
}

/// `count` zero bytes.
pub open spec fn zeros(count: nat) -> Seq<u8> {
    Seq::new(count, |i: int| 0u8)
}

/// The canonical bytes that a head signs.
pub open spec fn head_message(
    vault_id: Seq<u8>,
    object_id: Seq<u8>,
    present: bool,
    version_id: Option<Seq<u8>>,
    witness_epoch: u64,
    commitment: Option<Seq<u8>>,
    challenge: Seq<u8>,
) -> Seq<u8> {
    let version = match version_id {
        Some(version) => version,
        None => zeros(16),
    };
    let committed = match commitment {
        Some(committed) => committed,
        None => zeros(32),
    };
    label("VLT/1 witness head v1") + vault_id + object_id + seq![
        if present {
            1u8
        } else {
            0u8
        },
    ] + version + be_bytes(witness_epoch as nat, 8) + committed + challenge
}

/// The verdict on a signature: the key must decode and the signature must verify.
pub open spec fn signature_verdict(
    public_key: Seq<u8>,
    message: Seq<u8>,
    signature: Seq<u8>,
) -> Result<(), VaultError> {
    if !ed25519_key_parses(public_key) {
        Err(VaultError::InvalidFormat("witness public key"))
    } else if !ed25519_verifies(public_key, message, signature) {
        Err(VaultError::Authentication)
    } else {
        Ok(())
    }
}

fn verify_signature(public_key: &[u8; 32], message: &[u8], signature: &[u8; 64]) -> (res: Result<
    (),
    VaultError,
>)
    ensures
        res == signature_verdict(public_key@, message@, signature@),
{
    if !public_key_parses(public_key) {
        return Err(VaultError::invalid_format("witness public key"));
    }
    if !signature_verifies(public_key, message, signature) {
        return Err(VaultError::Authentication);
    }
    Ok(())
}

/// A request for a witness to acknowledge one immutable version.
#[derive(Clone, Copy, Debug, Eq)]
pub struct WitnessRequest {
    vault_id: VaultId,
    object_id: ObjectId,
    version_id: VersionId,
    commitment: [u8; 32],
}

/// The contents of a witness request.
pub ghost struct RequestView {
    pub vault_id: Seq<u8>,
    pub object_id: Seq<u8>,
    pub version_id: Seq<u8>,
    pub commitment: Seq<u8>,
}

impl View for WitnessRequest {
    type V = RequestView;

    closed spec fn view(&self) -> RequestView {
        RequestView {
            vault_id: self.vault_id@,
            object_id: self.object_id@,
            version_id: self.version_id@,
            commitment: self.commitment@,
        }
    }
}

impl PartialEq for WitnessRequest {
    fn eq(&self, other: &Self) -> (res: bool) {
        self.vault_id == other.vault_id && self.object_id == other.object_id && self.version_id
            == other.version_id && bytes_equal(&self.commitment, &other.commitment)
    }
}

impl vstd::std_specs::cmp::PartialEqSpecImpl for WitnessRequest {
    open spec fn obeys_eq_spec() -> bool {
        true
    }

    open spec fn eq_spec(&self, other: &Self) -> bool {
        self@ == other@
    }
}

impl WitnessRequest {
    /// Every request has fields of fixed width.
    pub proof fn lemma_widths(self)
        ensures
            self@.vault_id.len() == 16,
            self@.object_id.len() == 16,
            self@.version_id.len() == 16,
            self@.commitment.len() == 32,
    {
        broadcast use group_identifiers;

    }

    /// Creates a request with the commitment bound to encrypted manifest data.
    #[must_use]
    pub fn new(
        vault_id: VaultId,
        object_id: ObjectId,
        version_id: VersionId,
        manifest: &SealedRecord,
    ) -> (res: Self)
        ensures
            res@ == (RequestView {
                vault_id: vault_id@,
                object_id: object_id@,
                version_id: version_id@,
                commitment: commitment_of(vault_id@, object_id@, version_id@, manifest@),
            }),
    {
        WitnessRequest {
            vault_id,
            object_id,
            version_id,
            commitment: version_commitment(vault_id, object_id, version_id, manifest),
        }
    }

    /// Reconstructs a request from already validated fixed-width components.
    #[must_use]
    pub fn from_parts(
        vault_id: VaultId,
        object_id: ObjectId,
        version_id: VersionId,
        commitment: [u8; 32],
    ) -> (res: Self)
        ensures
            res@ == (RequestView {
                vault_id: vault_id@,
                object_id: object_id@,
                version_id: version_id@,
                commitment: commitment@,
            }),
    {
        WitnessRequest { vault_id, object_id, version_id, commitment }
    }

    /// Returns the vault bound into this request.
    #[must_use]
    pub fn vault_id(&self) -> (res: VaultId)
        ensures
            res@ == self@.vault_id,
    {
        self.vault_id
    }

    /// Returns the object bound into this request.
    #[must_use]
    pub fn object_id(&self) -> (res: ObjectId)
        ensures
            res@ == self@.object_id,
    {
        self.object_id
    }

    /// Returns the immutable version bound into this request.
    #[must_use]
    pub fn version_id(&self) -> (res: VersionId)
        ensures
            res@ == self@.version_id,
    {
        self.version_id
    }

    /// Returns the 256-bit encrypted-version commitment.
    #[must_use]
    pub fn commitment(&self) -> (res: &[u8; 32])
        ensures
            res@ == self@.commitment,
    {
        &self.commitment
    }
}

/// An Ed25519-signed acknowledgement of an immutable version.
#[derive(Clone, Copy, Debug, Eq)]
pub struct WitnessReceipt {
    vault_id: VaultId,
    object_id: ObjectId,
    version_id: VersionId,
    witness_epoch: u64,
    commitment: [u8; 32],
    public_key: [u8; 32],
    signature: [u8; 64],
}

/// The contents of a witness receipt.
pub ghost struct ReceiptView {
    pub vault_id: Seq<u8>,
    pub object_id: Seq<u8>,
    pub version_id: Seq<u8>,
    pub witness_epoch: u64,
    pub commitment: Seq<u8>,
    pub public_key: Seq<u8>,
    pub signature: Seq<u8>,
}

impl ReceiptView {
    /// The verdict on the receipt's own signature.
    pub open spec fn signature_verdict(self) -> Result<(), VaultError> {
        signature_verdict(
            self.public_key,
            receipt_message(
                self.vault_id,
                self.object_id,
                self.version_id,
                self.witness_epoch,
                self.commitment,
            ),
            self.signature,
        )
    }

    /// Whether the receipt names exactly what a request asks for.
    pub open spec fn binds(self, request: RequestView) -> bool {
        &&& self.vault_id == request.vault_id
        &&& self.object_id == request.object_id
        &&& self.version_id == request.version_id
        &&& self.commitment == request.commitment
    }

    /// The verdict on the receipt as the acknowledgement of a request.
    pub open spec fn request_verdict(self, request: RequestView) -> Result<(), VaultError> {
        if !self.binds(request) {
            Err(VaultError::Invariant("witness receipt binding"))
        } else {
            self.signature_verdict()
        }
    }

    /// The receipt that a witness signs for a request at an epoch.
    pub open spec fn issued(request: RequestView, epoch: u64, seed: Seq<u8>) -> ReceiptView {
        ReceiptView {
            vault_id: request.vault_id,
            object_id: request.object_id,
            version_id: request.version_id,
            witness_epoch: epoch,
            commitment: request.commitment,
            public_key: ed25519_public_key(seed),
            signature: ed25519_signature(
                seed,
                receipt_message(
                    request.vault_id,
                    request.object_id,
                    request.version_id,
                    epoch,
                    request.commitment,
                ),
            ),
        }
    }
}

impl View for WitnessReceipt {
    type V = ReceiptView;

    closed spec fn view(&self) -> ReceiptView {
        ReceiptView {
            vault_id: self.vault_id@,
            object_id: self.object_id@,
            version_id: self.version_id@,
            witness_epoch: self.witness_epoch,
            commitment: self.commitment@,
            public_key: self.public_key@,
            signature: self.signature@,
        }
    }
}

impl PartialEq for WitnessReceipt {
    fn eq(&self, other: &Self) -> (res: bool) {
        self.vault_id == other.vault_id && self.object_id == other.object_id && self.version_id
            == other.version_id && self.witness_epoch == other.witness_epoch && bytes_equal(
            &self.commitment,
            &other.commitment,
        ) && bytes_equal(&self.public_key, &other.public_key) && bytes_equal(
            &self.signature,
            &other.signature,
        )
    }
}

impl vstd::std_specs::cmp::PartialEqSpecImpl for WitnessReceipt {
    open spec fn obeys_eq_spec() -> bool {
        true
    }

    open spec fn eq_spec(&self, other: &Self) -> bool {
        self@ == other@
    }
}

impl WitnessReceipt {
    /// Every receipt has fields of fixed width.
    pub proof fn lemma_widths(self)
        ensures
            self@.vault_id.len() == 16,
            self@.object_id.len() == 16,
            self@.version_id.len() == 16,
            self@.commitment.len() == 32,
            self@.public_key.len() == 32,
            self@.signature.len() == 64,
    {
        broadcast use group_identifiers;

    }

    /// Constructs a receipt after verifying its Ed25519 signature.
    pub fn new(
        vault_id: VaultId,
        object_id: ObjectId,
        version_id: VersionId,
        witness_epoch: u64,
        commitment: [u8; 32],
        public_key: [u8; 32],
        signature: [u8; 64],
    ) -> (res: Result<Self, VaultError>)
        ensures
            ({
                let candidate = ReceiptView {
                    vault_id: vault_id@,
                    object_id: object_id@,
                    version_id: version_id@,
                    witness_epoch,
                    commitment: commitment@,
                    public_key: public_key@,
                    signature: signature@,
                };
                match (res, candidate.signature_verdict()) {
                    (Ok(receipt), Ok(_)) => receipt@ == candidate,
                    (Err(error), Err(expected)) => error == expected,
                    _ => false,
                }
            }),
    {
        let receipt = WitnessReceipt {
            vault_id,
            object_id,
            version_id,
            witness_epoch,
            commitment,
            public_key,
            signature,
        };
        match receipt.verify_signature() {
            Ok(_) => Ok(receipt),
            Err(error) => Err(error),
        }
    }

    /// Signs a receipt for a validated request using the witness's secret seed.
    #[must_use]
    pub fn issue(request: &WitnessRequest, witness_epoch: u64, signing_key: &[u8; 32]) -> (res:
        Self)
        ensures
            res@ == ReceiptView::issued(request@, witness_epoch, signing_key@),
            res@.request_verdict(request@) == Ok::<(), VaultError>(()),
    {
        let public_key = signing_public_key(signing_key);
        let message = receipt_signing_bytes(
            request.vault_id,
            request.object_id,
            request.version_id,
            witness_epoch,
            &request.commitment,
        );
        let signature = sign_message(signing_key, message.as_slice());
        WitnessReceipt {
            vault_id: request.vault_id,
            object_id: request.object_id,
            version_id: request.version_id,
            witness_epoch,
            commitment: request.commitment,
            public_key,
            signature,
        }
    }

    /// Returns the vault identifier bound to this receipt.
    #[must_use]
    pub fn vault_id(&self) -> (res: VaultId)
        ensures
            res@ == self@.vault_id,
    {
        self.vault_id
    }

    /// Returns the object identifier bound to this receipt.
    #[must_use]
    pub fn object_id(&self) -> (res: ObjectId)
        ensures
            res@ == self@.object_id,
    {
        self.object_id
    }

    /// Returns the immutable version identifier bound to this receipt.
    #[must_use]
    pub fn version_id(&self) -> (res: VersionId)
        ensures
            res@ == self@.version_id,
    {
        self.version_id
    }

    /// Returns the witness' monotonically increasing acknowledgement epoch.
    #[must_use]
    pub fn witness_epoch(&self) -> (res: u64)
        ensures
            res == self@.witness_epoch,
    {
        self.witness_epoch
    }

    /// Returns the encrypted-version commitment.
    #[must_use]
    pub fn commitment(&self) -> (res: &[u8; 32])
        ensures
            res@ == self@.commitment,
    {
        &self.commitment
    }

    /// Returns the witness Ed25519 public key.
    #[must_use]
    pub fn public_key(&self) -> (res: &[u8; 32])
        ensures
            res@ == self@.public_key,
    {
        &self.public_key
    }

    /// Returns the Ed25519 signature over this receipt's canonical bytes.
    #[must_use]
    pub fn signature(&self) -> (res: &[u8; 64])
        ensures
            res@ == self@.signature,
    {
        &self.signature
    }

    /// Verifies this receipt's Ed25519 signature without consulting storage.
    pub fn verify_signature(&self) -> (res: Result<(), VaultError>)
        ensures
            res == self@.signature_verdict(),
    {
        let message = self.signing_bytes();
        verify_signature(&self.public_key, message.as_slice(), &self.signature)
    }

    /// Verifies that this receipt acknowledges exactly `request`.
    pub fn verify_request(&self, request: &WitnessRequest) -> (res: Result<(), VaultError>)
        ensures
            res == self@.request_verdict(request@),
    {
        if self.vault_id != request.vault_id || self.object_id != request.object_id
            || self.version_id != request.version_id || !bytes_equal(
            &self.commitment,
            &request.commitment,
        ) {
            return Err(VaultError::Invariant("witness receipt binding"));
        }
        self.verify_signature()
    }

    fn signing_bytes(&self) -> (res: Vec<u8>)
        ensures
            res@ == receipt_message(
                self@.vault_id,
                self@.object_id,
                self@.version_id,
                self@.witness_epoch,
                self@.commitment,
            ),
    {
        receipt_signing_bytes(
            self.vault_id,
            self.object_id,
            self.version_id,
            self.witness_epoch,
            &self.commitment,
        )
    }
}

/// A challenge-bound signed view of one witness object head.
#[derive(Clone, Copy, Debug, Eq)]
pub struct WitnessHead {
    vault_id: VaultId,
    object_id: ObjectId,
    present: bool,
    version_id: Option<VersionId>,
    witness_epoch: u64,
    commitment: Option<[u8; 32]>,
    challenge: [u8; 32],
    public_key: [u8; 32],
    signature: [u8; 64],
}

/// The contents of a witness head.
pub ghost struct HeadView {
    pub vault_id: Seq<u8>,
    pub object_id: Seq<u8>,
    pub present: bool,
    pub version_id: Option<Seq<u8>>,
    pub witness_epoch: u64,
    pub commitment: Option<Seq<u8>>,
    pub challenge: Seq<u8>,
    pub public_key: Seq<u8>,
    pub signature: Seq<u8>,
}

/// The bytes of an optional version identifier.
pub open spec fn version_bytes(version_id: Option<VersionId>) -> Option<Seq<u8>> {
    match version_id {
        Some(version_id) => Some(version_id@),
        None => None,
    }
}

/// The bytes of an optional commitment.
pub open spec fn commitment_bytes(commitment: Option<[u8; 32]>) -> Option<Seq<u8>> {
    match commitment {
        Some(commitment) => Some(commitment@),
        None => None,
    }
}

impl HeadView {
    /// Whether the presence flag agrees with both optional fields.
    pub open spec fn presence_agrees(self) -> bool {
        &&& self.version_id is Some <==> self.present
        &&& self.commitment is Some <==> self.present
    }

    /// The verdict on the head's own signature.
    pub open spec fn signature_verdict(self) -> Result<(), VaultError> {
        signature_verdict(
            self.public_key,
            head_message(
                self.vault_id,
                self.object_id,
                self.present,
                self.version_id,
                self.witness_epoch,
                self.commitment,
                self.challenge,
            ),
            self.signature,
        )
    }

    /// The verdict on the whole head.
    pub open spec fn verdict(self) -> Result<(), VaultError> {
        if !self.presence_agrees() {
            Err(VaultError::InvalidFormat("witness head presence fields"))
        } else if !self.present && self.witness_epoch != 0 {
            Err(VaultError::InvalidFormat("absent witness head epoch"))
        } else {
            self.signature_verdict()
        }
    }

    /// The head that a witness signs for an object's current receipt and a challenge.
    pub open spec fn issued(
        vault_id: Seq<u8>,
        object_id: Seq<u8>,
        receipt: Option<ReceiptView>,
        challenge: Seq<u8>,
        seed: Seq<u8>,
    ) -> HeadView {
        let version_id = match receipt {
            Some(receipt) => Some(receipt.version_id),
            None => None,
        };
        let witness_epoch = match receipt {
            Some(receipt) => receipt.witness_epoch,
            None => 0,
        };
        let commitment = match receipt {
            Some(receipt) => Some(receipt.commitment),
            None => None,
        };
        HeadView {
            vault_id,
            object_id,
            present: receipt is Some,
            version_id,
            witness_epoch,
            commitment,
            challenge,
            public_key: ed25519_public_key(seed),
            signature: ed25519_signature(
                seed,
                head_message(
                    vault_id,
                    object_id,
                    receipt is Some,
                    version_id,
                    witness_epoch,
                    commitment,
                    challenge,
                ),
            ),
        }
    }

    /// Whether the head was asked for by exactly this query.
    pub open spec fn answers(
        self,
        vault_id: Seq<u8>,
        object_id: Seq<u8>,
        challenge: Seq<u8>,
    ) -> bool {
        &&& self.vault_id == vault_id
        &&& self.object_id == object_id
        &&& self.challenge == challenge
    }

    /// Whether the head confirms exactly a local receipt, or the absence of one.
    pub open spec fn confirms(self, receipt: Option<ReceiptView>) -> bool {
        match receipt {
            Some(receipt) => {
                &&& self.present
                &&& self.version_id == Some(receipt.version_id)
                &&& self.witness_epoch == receipt.witness_epoch
                &&& self.commitment == Some(receipt.commitment)
                &&& self.public_key == receipt.public_key
            },
            None => !self.present,
        }
    }
}

impl View for WitnessHead {
    type V = HeadView;

    closed spec fn view(&self) -> HeadView {
        HeadView {
            vault_id: self.vault_id@,
            object_id: self.object_id@,
            present: self.present,
            version_id: version_bytes(self.version_id),
            witness_epoch: self.witness_epoch,
            commitment: commitment_bytes(self.commitment),
            challenge: self.challenge@,
            public_key: self.public_key@,
            signature: self.signature@,
        }
    }
}

fn same_optional_version(left: &Option<VersionId>, right: &Option<VersionId>) -> (res: bool)
    ensures
        res == (version_bytes(*left) == version_bytes(*right)),
{
    match (left, right) {
        (Some(left), Some(right)) => *left == *right,
        (None, None) => true,
        _ => false,
    }
}

fn same_optional_commitment(left: &Option<[u8; 32]>, right: &Option<[u8; 32]>) -> (res: bool)
    ensures
        res == (commitment_bytes(*left) == commitment_bytes(*right)),
{
    match (left, right) {
        (Some(left), Some(right)) => bytes_equal(left, right),
        (None, None) => true,
        _ => false,
    }
}

impl PartialEq for WitnessHead {
    fn eq(&self, other: &Self) -> (res: bool) {
        self.vault_id == other.vault_id && self.object_id == other.object_id && self.present
            == other.present && same_optional_version(&self.version_id, &other.version_id)
            && self.witness_epoch == other.witness_epoch && same_optional_commitment(
            &self.commitment,
            &other.commitment,
        ) && bytes_equal(&self.challenge, &other.challenge) && bytes_equal(
            &self.public_key,
            &other.public_key,
        ) && bytes_equal(&self.signature, &other.signature)
    }
}

impl vstd::std_specs::cmp::PartialEqSpecImpl for WitnessHead {
    open spec fn obeys_eq_spec() -> bool {
        true
    }

    open spec fn eq_spec(&self, other: &Self) -> bool {
        self@ == other@
    }
}

impl WitnessHead {
    /// Every head has fields of fixed width.
    pub proof fn lemma_widths(self)
        ensures
            self@.vault_id.len() == 16,
            self@.object_id.len() == 16,
            self@.version_id matches Some(version_id) ==> version_id.len() == 16,
            self@.commitment matches Some(commitment) ==> commitment.len() == 32,
            self@.challenge.len() == 32,
            self@.public_key.len() == 32,
            self@.signature.len() == 64,
    {
        broadcast use group_identifiers;

    }

    /// Constructs and verifies one witness head.
    pub fn new(
        vault_id: VaultId,
        object_id: ObjectId,
        present: bool,
        version_id: Option<VersionId>,
        witness_epoch: u64,
        commitment: Option<[u8; 32]>,
        challenge: [u8; 32],
        public_key: [u8; 32],
        signature: [u8; 64],
    ) -> (res: Result<Self, VaultError>)
        ensures
            ({
                let candidate = HeadView {
                    vault_id: vault_id@,
                    object_id: object_id@,
                    present,
                    version_id: version_bytes(version_id),
                    witness_epoch,
                    commitment: commitment_bytes(commitment),
                    challenge: challenge@,
                    public_key: public_key@,
                    signature: signature@,
                };
                match (res, candidate.verdict()) {
                    (Ok(head), Ok(_)) => head@ == candidate,
                    (Err(error), Err(expected)) => error == expected,
                    _ => false,
                }
            }),
    {
        if present != version_id.is_some() || present != commitment.is_some() {
            return Err(VaultError::invalid_format("witness head presence fields"));
        }
        if !present && witness_epoch != 0 {
            return Err(VaultError::invalid_format("absent witness head epoch"));
        }
        let head = WitnessHead {
            vault_id,
            object_id,
            present,
            version_id,
            witness_epoch,
            commitment,
            challenge,
            public_key,
            signature,
        };
        match head.verify_signature() {
            Ok(_) => Ok(head),
            Err(error) => Err(error),
        }
    }

    /// Signs a witness head for the supplied caller challenge.
    #[must_use]
    pub fn issue(
        vault_id: VaultId,
        object_id: ObjectId,
        receipt: Option<&WitnessReceipt>,
        challenge: [u8; 32],
        signing_key: &[u8; 32],
    ) -> (res: Self)
        ensures
            res@ == HeadView::issued(
                vault_id@,
                object_id@,
                receipt_view(receipt),
                challenge@,
                signing_key@,
            ),
            res@.verdict() == Ok::<(), VaultError>(()),
            res@.answers(vault_id@, object_id@, challenge@),
    {
        let (version_id, witness_epoch, commitment): (Option<VersionId>, u64, Option<[u8; 32]>) =
            match receipt {
            Some(receipt) => (
                Some(receipt.version_id),
                receipt.witness_epoch,
                Some(receipt.commitment),
            ),
            None => (None, 0, None),
        };
        let present = receipt.is_some();
        let public_key = signing_public_key(signing_key);
        let message = head_signing_bytes(
            vault_id,
            object_id,
            present,
            &version_id,
            witness_epoch,
            &commitment,
            &challenge,
        );
        let signature = sign_message(signing_key, message.as_slice());
        WitnessHead {
            vault_id,
            object_id,
            present,
            version_id,
            witness_epoch,
            commitment,
            challenge,
            public_key,
            signature,
        }
    }

    /// Returns whether the witness has a recorded head for this object.
    #[must_use]
    pub fn present(&self) -> (res: bool)
        ensures
            res == self@.present,
    {
        self.present
    }

    /// Returns the bound vault identifier.
    #[must_use]
    pub fn vault_id(&self) -> (res: VaultId)
        ensures
            res@ == self@.vault_id,
    {
        self.vault_id
    }

    /// Returns the bound object identifier.
    #[must_use]
    pub fn object_id(&self) -> (res: ObjectId)
        ensures
            res@ == self@.object_id,
    {
        self.object_id
    }

    /// Returns the version identifier when a head is present.
    #[must_use]
    pub fn version_id(&self) -> (res: Option<VersionId>)
        ensures
            version_bytes(res) == self@.version_id,
    {
        self.version_id
    }

    /// Returns the durable witness epoch for this object, or zero when absent.
    #[must_use]
    pub fn witness_epoch(&self) -> (res: u64)
        ensures
            res == self@.witness_epoch,
    {
        self.witness_epoch
    }

    /// Returns the commitment when a head is present.
    #[must_use]
    pub fn commitment(&self) -> (res: Option<&[u8; 32]>)
        ensures
            match res {
                Some(commitment) => self@.commitment == Some(commitment@),
                None => self@.commitment is None,
            },
    {
        self.commitment.as_ref()
    }

    /// Returns the challenge the caller must compare with its request.
    #[must_use]
    pub fn challenge(&self) -> (res: &[u8; 32])
        ensures
            res@ == self@.challenge,
    {
        &self.challenge
    }

    /// Returns the witness public key.
    #[must_use]
    pub fn public_key(&self) -> (res: &[u8; 32])
        ensures
            res@ == self@.public_key,
    {
        &self.public_key
    }

    /// Returns the signature over canonical head bytes.
    #[must_use]
    pub fn signature(&self) -> (res: &[u8; 64])
        ensures
            res@ == self@.signature,
    {
        &self.signature
    }

    /// Verifies the Ed25519 signature over the full canonical head.
    pub fn verify_signature(&self) -> (res: Result<(), VaultError>)
        ensures
            res == self@.signature_verdict(),
    {
        let message = self.signing_bytes();
        verify_signature(&self.public_key, message.as_slice(), &self.signature)
    }

    /// Returns whether this head was signed for exactly this vault, object and challenge.
    #[must_use]
    pub fn answers(&self, vault_id: VaultId, object_id: ObjectId, challenge: &[u8; 32]) -> (res:
        bool)
        ensures
            res == self@.answers(vault_id@, object_id@, challenge@),
    {
        self.vault_id == vault_id && self.object_id == object_id && bytes_equal(
            &self.challenge,
            challenge,
        )
    }

    /// Returns whether this head confirms exactly a local receipt, or the absence of one.
    #[must_use]
    pub fn confirms(&self, receipt: Option<&WitnessReceipt>) -> (res: bool)
        ensures
            res == self@.confirms(receipt_view(receipt)),
    {
        match receipt {
            Some(receipt) => {
                let local_version = Some(receipt.version_id);
                let local_commitment = Some(receipt.commitment);
                self.present && same_optional_version(&self.version_id, &local_version)
                    && self.witness_epoch == receipt.witness_epoch && same_optional_commitment(
                    &self.commitment,
                    &local_commitment,
                ) && bytes_equal(&self.public_key, &receipt.public_key)
            },
            None => !self.present,
        }
    }

    fn signing_bytes(&self) -> (res: Vec<u8>)
        ensures
            res@ == head_message(
                self@.vault_id,
                self@.object_id,
                self@.present,
                self@.version_id,
                self@.witness_epoch,
                self@.commitment,
                self@.challenge,
            ),
    {
        head_signing_bytes(
            self.vault_id,
            self.object_id,
            self.present,
            &self.version_id,
            self.witness_epoch,
            &self.commitment,
            &self.challenge,
        )
    }
}

/// The contents of an optional receipt.
pub open spec fn receipt_view(receipt: Option<&WitnessReceipt>) -> Option<ReceiptView> {
    match receipt {
        Some(receipt) => Some(receipt@),
        None => None,
    }
}

fn version_commitment(
    vault_id: VaultId,
    object_id: ObjectId,
    version_id: VersionId,
    manifest: &SealedRecord,
) -> (res: [u8; 32])
    ensures
        res@ == commitment_of(vault_id@, object_id@, version_id@, manifest@),
{
    let mut header: Vec<u8> = Vec::with_capacity(96);
    header.extend_from_slice("VLT/1 witness commitment v1".as_bytes());
    header.extend_from_slice(vault_id.as_bytes());
    header.extend_from_slice(object_id.as_bytes());
    header.extend_from_slice(version_id.as_bytes());
    header.extend_from_slice(&manifest.nonce);
    push_be(&mut header, manifest.ciphertext.len() as u64, 8);
    let mut state = sha256_start();
    sha256_absorb(&mut state, header.as_slice());
    sha256_absorb(&mut state, manifest.ciphertext.as_slice());
    assert(absorbed(state) =~= label("VLT/1 witness commitment v1") + vault_id@ + object_id@
        + version_id@ + manifest.nonce@ + be_bytes(manifest.ciphertext@.len(), 8)
        + manifest.ciphertext@);
    sha256_finish(state)
}

fn receipt_signing_bytes(
    vault_id: VaultId,
    object_id: ObjectId,
    version_id: VersionId,
    witness_epoch: u64,
    commitment: &[u8; 32],
) -> (res: Vec<u8>)
    ensures
        res@ == receipt_message(
            vault_id@,
            object_id@,
            version_id@,
            witness_epoch,
            commitment@,
        ),
{
    let mut message: Vec<u8> = Vec::with_capacity(112);
    message.extend_from_slice("VLT/1 witness receipt v1".as_bytes());
    message.extend_from_slice(vault_id.as_bytes());
    message.extend_from_slice(object_id.as_bytes());
    message.extend_from_slice(version_id.as_bytes());
    push_be(&mut message, witness_epoch, 8);
    message.extend_from_slice(commitment);
    assert(message@ =~= receipt_message(
        vault_id@,
        object_id@,
        version_id@,
        witness_epoch,
        commitment@,
    ));
    message
}

fn head_signing_bytes(
    vault_id: VaultId,
    object_id: ObjectId,
    present: bool,
    version_id: &Option<VersionId>,
    witness_epoch: u64,
    commitment: &Option<[u8; 32]>,
    challenge: &[u8; 32],
) -> (res: Vec<u8>)
    ensures
        res@ == head_message(
            vault_id@,
            object_id@,
            present,
            version_bytes(*version_id),
            witness_epoch,
            commitment_bytes(*commitment),
            challenge@,
        ),
{
    let version: [u8; 16] = match version_id {
        Some(version_id) => *version_id.as_bytes(),
        None => [0u8; 16],
    };
    let committed: [u8; 32] = match commitment {
        Some(commitment) => *commitment,
        None => [0u8; 32],
    };
    let mut message: Vec<u8> = Vec::with_capacity(144);
    message.extend_from_slice("VLT/1 witness head v1".as_bytes());
    message.extend_from_slice(vault_id.as_bytes());
    message.extend_from_slice(object_id.as_bytes());
    message.push(
        if present {
            1
        } else {
            0
        },
    );
    message.extend_from_slice(&version);
    push_be(&mut message, witness_epoch, 8);
    message.extend_from_slice(&committed);
    message.extend_from_slice(challenge);
    proof {
        if version_id is None {
            assert(version@ =~= zeros(16));
        }
        if commitment is None {
            assert(committed@ =~= zeros(32));
        }
        assert(message@ =~= head_message(
            vault_id@,
            object_id@,
            present,
            version_bytes(*version_id),
            witness_epoch,
            commitment_bytes(*commitment),
            challenge@,
        ));
    }
    message
}

/// Returns a fresh 256-bit random challenge for a witness head query.
#[must_use]
pub fn random_witness_challenge() -> (res: [u8; 32])
    ensures
        res@.len() == 32,
{
    random_array()
}

proof fn lemma_witness_labels()
    ensures
        label("VLT/1 witness receipt v1").len() == 24,
        label("VLT/1 witness head v1").len() == 21,
{
    reveal_strlit("VLT/1 witness receipt v1");
    reveal_strlit("VLT/1 witness head v1");
    is_ascii_chars_encode_utf8("VLT/1 witness receipt v1"@);
    is_ascii_chars_encode_utf8("VLT/1 witness head v1"@);
}

/// A signed receipt message determines everything the receipt binds.
pub proof fn receipt_message_is_injective(
    receipt: WitnessReceipt,
    other: WitnessReceipt,
)
    requires
        receipt_message(
            receipt@.vault_id,
            receipt@.object_id,
            receipt@.version_id,
            receipt@.witness_epoch,
            receipt@.commitment,
        ) == receipt_message(
            other@.vault_id,
            other@.object_id,
            other@.version_id,
            other@.witness_epoch,
            other@.commitment,
        ),
    ensures
        receipt@.vault_id == other@.vault_id,
        receipt@.object_id == other@.object_id,
        receipt@.version_id == other@.version_id,
        receipt@.witness_epoch == other@.witness_epoch,
        receipt@.commitment == other@.commitment,
{
    lemma_receipt_message_parts(receipt);
    lemma_receipt_message_parts(other);
    lemma_pow256_values();
    be_value_of_be_bytes(receipt@.witness_epoch as nat, 8);
    be_value_of_be_bytes(other@.witness_epoch as nat, 8);
}

proof fn lemma_receipt_message_parts(receipt: WitnessReceipt)
    ensures
        ({
            let message = receipt_message(
                receipt@.vault_id,
                receipt@.object_id,
                receipt@.version_id,
                receipt@.witness_epoch,
                receipt@.commitment,
            );
            &&& message.len() == 112
            &&& message.subrange(24, 40) == receipt@.vault_id
            &&& message.subrange(40, 56) == receipt@.object_id
            &&& message.subrange(56, 72) == receipt@.version_id
            &&& message.subrange(72, 80) == be_bytes(receipt@.witness_epoch as nat, 8)
            &&& message.subrange(80, 112) == receipt@.commitment
        }),
{
    receipt.lemma_widths();
    lemma_witness_labels();
    lemma_be_bytes_len(receipt@.witness_epoch as nat, 8);
    let message = receipt_message(
        receipt@.vault_id,
        receipt@.object_id,
        receipt@.version_id,
        receipt@.witness_epoch,
        receipt@.commitment,
    );
    assert(message.subrange(24, 40) =~= receipt@.vault_id);
    assert(message.subrange(40, 56) =~= receipt@.object_id);
    assert(message.subrange(56, 72) =~= receipt@.version_id);
    assert(message.subrange(72, 80) =~= be_bytes(receipt@.witness_epoch as nat, 8));
    assert(message.subrange(80, 112) =~= receipt@.commitment);
}

/// A signature over a receipt is never a signature over a head: the signed messages differ.
pub proof fn receipt_and_head_messages_differ(receipt: WitnessReceipt, head: WitnessHead)
    ensures
        receipt_message(
            receipt@.vault_id,
            receipt@.object_id,
            receipt@.version_id,
            receipt@.witness_epoch,
            receipt@.commitment,
        ) != head_message(
            head@.vault_id,
            head@.object_id,
            head@.present,
            head@.version_id,
            head@.witness_epoch,
            head@.commitment,
            head@.challenge,
        ),
{
    lemma_receipt_message_parts(receipt);
    lemma_head_message_parts(head);
}

proof fn lemma_head_message_parts(head: WitnessHead)
    ensures
        ({
            let message = head_message(
                head@.vault_id,
                head@.object_id,
                head@.present,
                head@.version_id,
                head@.witness_epoch,
                head@.commitment,
                head@.challenge,
            );
            &&& message.len() == 142
            &&& message.subrange(21, 37) == head@.vault_id
            &&& message.subrange(37, 53) == head@.object_id
            &&& message[53] == if head@.present {
                1u8
            } else {
                0u8
            }
            &&& head@.version_id matches Some(version_id) ==> message.subrange(54, 70) == version_id
            &&& message.subrange(70, 78) == be_bytes(head@.witness_epoch as nat, 8)
            &&& head@.commitment matches Some(commitment) ==> message.subrange(78, 110)
                == commitment
            &&& message.subrange(110, 142) == head@.challenge
        }),
{
    broadcast use group_identifiers;

    lemma_witness_labels();
    lemma_be_bytes_len(head@.witness_epoch as nat, 8);
    let message = head_message(
        head@.vault_id,
        head@.object_id,
        head@.present,
        head@.version_id,
        head@.witness_epoch,
        head@.commitment,
        head@.challenge,
    );
    assert(message.len() == 142);
    assert(message.subrange(21, 37) =~= head@.vault_id);
    assert(message.subrange(37, 53) =~= head@.object_id);
    if head@.version_id is Some {
        assert(message.subrange(54, 70) =~= head@.version_id->0);
    }
    assert(message.subrange(70, 78) =~= be_bytes(head@.witness_epoch as nat, 8));
    if head@.commitment is Some {
        assert(message.subrange(78, 110) =~= head@.commitment->0);
    }
    assert(message.subrange(110, 142) =~= head@.challenge);
}

/// A signed head message determines everything the head binds, the challenge included.
pub proof fn head_message_is_injective(head: WitnessHead, other: WitnessHead)
    requires
        head@.presence_agrees(),
        other@.presence_agrees(),
        head_message(
            head@.vault_id,
            head@.object_id,
            head@.present,
            head@.version_id,
            head@.witness_epoch,
            head@.commitment,
            head@.challenge,
        ) == head_message(
            other@.vault_id,
            other@.object_id,
            other@.present,
            other@.version_id,
            other@.witness_epoch,
            other@.commitment,
            other@.challenge,
        ),
    ensures
        head@.vault_id == other@.vault_id,
        head@.object_id == other@.object_id,
        head@.present == other@.present,
        head@.version_id == other@.version_id,
        head@.witness_epoch == other@.witness_epoch,
        head@.commitment == other@.commitment,
        head@.challenge == other@.challenge,
{
    lemma_head_message_parts(head);
    lemma_head_message_parts(other);
    lemma_pow256_values();
    be_value_of_be_bytes(head@.witness_epoch as nat, 8);
    be_value_of_be_bytes(other@.witness_epoch as nat, 8);
}

/// A head signed for one challenge is refused for any other challenge.
pub proof fn head_answers_one_challenge(head: HeadView, challenge: Seq<u8>, other: Seq<u8>)
    requires
        head.answers(head.vault_id, head.object_id, challenge),
        challenge != other,
    ensures
        !head.answers(head.vault_id, head.object_id, other),
{
}

/// A head confirms at most one state: no two receipts with different contents, and never
/// both a receipt and its absence.
pub proof fn head_confirms_one_state(head: HeadView, receipt: ReceiptView, other: ReceiptView)
    requires
        head.confirms(Some(receipt)),
    ensures
        !head.confirms(None),
        head.confirms(Some(other)) ==> {
            &&& other.version_id == receipt.version_id
            &&& other.witness_epoch == receipt.witness_epoch
            &&& other.commitment == receipt.commitment
            &&& other.public_key == receipt.public_key
        },
{
}

/// A rollback is noticed: once a witness has acknowledged a later epoch, the head it signs
/// confirms neither an earlier receipt nor the absence of one, whatever the challenge.
pub proof fn rollback_is_not_confirmed(
    vault_id: Seq<u8>,
    object_id: Seq<u8>,
    current: ReceiptView,
    earlier: ReceiptView,
    challenge: Seq<u8>,
    seed: Seq<u8>,
)
    requires
        earlier.witness_epoch < current.witness_epoch,
    ensures
        ({
            let head = HeadView::issued(vault_id, object_id, Some(current), challenge, seed);
            !head.confirms(Some(earlier)) && !head.confirms(None)
        }),
{
}

/// A receipt acknowledges a request exactly where it names the request's vault, object,
/// version and commitment and its key signed, byte for byte, the receipt label followed by
/// these, with its epoch in eight bytes before the commitment.
pub proof fn accepted_receipts_are_signed_for_the_request(
    receipt: ReceiptView,
    request: RequestView,
)
    ensures
        receipt.request_verdict(request) is Ok <==> {
            &&& receipt.vault_id == request.vault_id
            &&& receipt.object_id == request.object_id
            &&& receipt.version_id == request.version_id
            &&& receipt.commitment == request.commitment
            &&& ed25519_key_parses(receipt.public_key)
            &&& ed25519_verifies(
                receipt.public_key,
                encode_utf8("VLT/1 witness receipt v1"@) + request.vault_id + request.object_id
                    + request.version_id + be_bytes(receipt.witness_epoch as nat, 8)
                    + request.commitment,
                receipt.signature,
            )
        },
        receipt.request_verdict(request) is Ok ==> receipt.signature_verdict() is Ok,
{
}

/// A head is valid exactly where its optional fields are there as its presence says, an
/// absent one has epoch 0, and its key signed, byte for byte, the head label followed by its
/// fields, absent ones as zero bytes, and the challenge last.
pub proof fn valid_heads_are_signed_for_their_challenge(head: HeadView)
    ensures
        head.verdict() is Ok <==> {
            &&& head.version_id is Some == head.present
            &&& head.commitment is Some == head.present
            &&& !head.present ==> head.witness_epoch == 0
            &&& ed25519_key_parses(head.public_key)
            &&& ed25519_verifies(
                head.public_key,
                encode_utf8("VLT/1 witness head v1"@) + head.vault_id + head.object_id + (
                if head.present {
                    seq![1u8] + head.version_id->0 + be_bytes(head.witness_epoch as nat, 8)
                        + head.commitment->0
                } else {
                    seq![0u8] + Seq::new(16, |i: int| 0u8) + be_bytes(0, 8) + Seq::new(
                        32,
                        |i: int| 0u8,
                    )
                }) + head.challenge,
                head.signature,
            )
        },
{
    if head.presence_agrees() && (head.present || head.witness_epoch == 0) {
        let label = encode_utf8("VLT/1 witness head v1"@);
        let tail = if head.present {
            seq![1u8] + head.version_id->0 + be_bytes(head.witness_epoch as nat, 8)
                + head.commitment->0
        } else {
            seq![0u8] + Seq::new(16, |i: int| 0u8) + be_bytes(0, 8) + Seq::new(32, |i: int| 0u8)
        };
        assert(head_message(
            head.vault_id,
            head.object_id,
            head.present,
            head.version_id,
            head.witness_epoch,
            head.commitment,
            head.challenge,
        ) =~= label + head.vault_id + head.object_id + tail + head.challenge);
    }
}

/// What a witness signs for an object answers the query it was signed for and confirms
/// exactly what the witness holds: the receipt it last gave, or the absence of any.
pub proof fn signed_heads_confirm_what_is_held(
    vault_id: Seq<u8>,
    object_id: Seq<u8>,
    held: Option<ReceiptView>,
    challenge: Seq<u8>,
    seed: Seq<u8>,
)
    requires
        held matches Some(receipt) ==> receipt.public_key == ed25519_public_key(seed),
    ensures
        ({
            let head = HeadView::issued(vault_id, object_id, held, challenge, seed);
            &&& head.answers(vault_id, object_id, challenge)
            &&& head.confirms(held)
            &&& head.present == (held is Some)
            &&& head.public_key == ed25519_public_key(seed)
        }),
{
}

/// A receipt that a witness signs names what was asked and the epoch it was given at, under
/// the witness's own key.
pub proof fn signed_receipts_name_what_was_asked(request: RequestView, epoch: u64, seed: Seq<u8>)
    ensures
        ({
            let receipt = ReceiptView::issued(request, epoch, seed);
            &&& receipt.vault_id == request.vault_id
            &&& receipt.object_id == request.object_id
            &&& receipt.version_id == request.version_id
            &&& receipt.commitment == request.commitment
            &&& receipt.witness_epoch == epoch
            &&& receipt.public_key == ed25519_public_key(seed)
            &&& receipt.signature == ed25519_signature(
                seed,
                encode_utf8("VLT/1 witness receipt v1"@) + request.vault_id + request.object_id
                    + request.version_id + be_bytes(epoch as nat, 8) + request.commitment,
            )
        }),
{
}

/// A head answers a query exactly where vault, object and challenge are the ones asked for.
pub proof fn answers_are_for_the_query(
    head: HeadView,
    vault_id: Seq<u8>,
    object_id: Seq<u8>,
    challenge: Seq<u8>,
)
    ensures
        head.answers(vault_id, object_id, challenge) <==> (head.vault_id == vault_id
            && head.object_id == object_id && head.challenge == challenge),
{
}

/// A head confirms a receipt exactly where it presents the receipt's version, epoch,
/// commitment and key, and confirms that there is none exactly where it presents nothing.
pub proof fn heads_confirm_field_by_field(head: HeadView, receipt: ReceiptView)
    ensures
        head.confirms(Some(receipt)) <==> {
            &&& head.present
            &&& head.version_id == Some(receipt.version_id)
            &&& head.witness_epoch == receipt.witness_epoch
            &&& head.commitment == Some(receipt.commitment)
            &&& head.public_key == receipt.public_key
        },
        head.confirms(None) <==> !head.present,
{
}

/// A commitment is the digest of its label, the identifiers and the whole sealed manifest.
pub proof fn commitments_cover_the_sealed_manifest(
    vault_id: Seq<u8>,
    object_id: Seq<u8>,
    version_id: Seq<u8>,
    manifest: SealedView,
)
    ensures
        commitment_of(vault_id, object_id, version_id, manifest) == sha256(
            encode_utf8("VLT/1 witness commitment v1"@) + vault_id + object_id + version_id
                + manifest.nonce + be_bytes(manifest.ciphertext.len(), 8) + manifest.ciphertext,
        ),
{
}

/// An optional receipt stands for itself.
pub proof fn optional_receipts_stand_for_themselves(receipt: WitnessReceipt)
    ensures
        receipt_view(Some(&receipt)) == Some(receipt@),
        receipt_view(None) is None,
{
}

/// What is wrong with a receipt is told apart: one for something else breaks its binding, one
/// with no usable key is malformed, and one with another signature is not authentic.
pub proof fn refused_receipts_name_their_fault(receipt: ReceiptView, request: RequestView)
    ensures
        receipt.request_verdict(request) matches Err(error) ==> match error {
            VaultError::Invariant(_) => receipt.vault_id != request.vault_id || receipt.object_id
                != request.object_id || receipt.version_id != request.version_id
                || receipt.commitment != request.commitment,
            VaultError::InvalidFormat(_) => !ed25519_key_parses(receipt.public_key),
            VaultError::Authentication => ed25519_key_parses(receipt.public_key),
            _ => false,
        },
        !(receipt.vault_id == request.vault_id && receipt.object_id == request.object_id
            && receipt.version_id == request.version_id && receipt.commitment
            == request.commitment) ==> receipt.request_verdict(request)->Err_0 is Invariant,
{
}

/// Optional fields of a head stand for their bytes.
pub proof fn optional_fields_stand_for_their_bytes(version_id: VersionId, commitment: [u8; 32])
    ensures
        version_bytes(Some(version_id)) == Some(version_id@),
        version_bytes(None) is None,
        commitment_bytes(Some(commitment)) == Some(commitment@),
        commitment_bytes(None) is None,
{
}

/// Requests, receipts and heads are equal exactly where every field is.
pub proof fn evidence_is_compared_whole(
    request: WitnessRequest,
    other_request: WitnessRequest,
    receipt: WitnessReceipt,
    other_receipt: WitnessReceipt,
    head: WitnessHead,
    other_head: WitnessHead,
)
    ensures
        request.eq_spec(&other_request) <==> request@ == other_request@,
        receipt.eq_spec(&other_receipt) <==> receipt@ == other_receipt@,
        head.eq_spec(&other_head) <==> head@ == other_head@,
{
}

} // verus!
