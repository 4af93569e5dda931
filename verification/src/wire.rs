//! Messages exchanged with a freshness witness: hexadecimal fields and their
//! strict parsing into fixed-width values.
use crate::bytes::{hex_bytes, hex_encode, hex_round_trip, hex_text, is_lower_hex_text, lower_hex_decode};
use crate::error::VaultError;
use crate::format::{ObjectId, VaultId, VersionId};
use crate::witness::{HeadView, ReceiptView, RequestView, WitnessHead, WitnessReceipt, WitnessRequest};
use vstd::prelude::*;

verus! {

/// Maximum accepted JSON body size for either witness endpoint.
pub const MAX_WIRE_BODY: u64 = 16_384;

/// Request of `POST /v1/issue`.
#[derive(Debug)]
pub struct IssueRequest {
    /// Lowercase hexadecimal vault ID.
    pub vault_id: String,
    /// Lowercase hexadecimal object ID.
    pub object_id: String,
    /// Lowercase hexadecimal immutable version ID.
    pub version_id: String,
    /// Lowercase hexadecimal 256-bit encrypted-version commitment.
    pub commitment: String,
    /// Previously verified witness epoch for this object, or zero if absent.
    pub expected_epoch: u64,
}

/// Response of `POST /v1/issue`.
#[derive(Debug)]
pub struct IssueResponse {
    /// Lowercase hexadecimal vault ID.
    pub vault_id: String,
    /// Lowercase hexadecimal object ID.
    pub object_id: String,
    /// Lowercase hexadecimal immutable version ID.
    pub version_id: String,
    /// Durable witness epoch allocated to this receipt.
    pub witness_epoch: u64,
    /// Lowercase hexadecimal commitment.
    pub commitment: String,
    /// Lowercase hexadecimal Ed25519 verification key.
    pub public_key: String,
    /// Lowercase hexadecimal Ed25519 signature.
    pub signature: String,
}

/// Request of `POST /v1/head`.
#[derive(Debug)]
pub struct HeadRequest {
    /// Lowercase hexadecimal vault ID.
    pub vault_id: String,
    /// Lowercase hexadecimal object ID.
    pub object_id: String,
    /// Fresh lowercase hexadecimal 256-bit caller challenge.
    pub challenge: String,
}

/// Response of `POST /v1/head`.
#[derive(Debug)]
pub struct HeadResponse {
    /// Lowercase hexadecimal vault ID.
    pub vault_id: String,
    /// Lowercase hexadecimal object ID.
    pub object_id: String,
    /// Whether a durable witness head exists.
    pub present: bool,
    /// Lowercase hexadecimal version ID when `present`.
    pub version_id: Option<String>,
    /// Durable witness epoch, or zero when absent.
    pub witness_epoch: u64,
    /// Lowercase hexadecimal commitment when `present`.
    pub commitment: Option<String>,
    /// Exact caller challenge bound into the signature.
    pub challenge: String,
    /// Lowercase hexadecimal Ed25519 verification key.
    pub public_key: String,
    /// Lowercase hexadecimal Ed25519 signature.
    pub signature: String,
}

/// An issue request whose fields have been parsed.
pub struct ParsedIssue {
    /// What the witness is asked to acknowledge.
    pub request: WitnessRequest,
    /// The epoch that the caller takes to be current.
    pub expected_epoch: u64,
}

/// A head request whose fields have been parsed.
pub struct ParsedHead {
    /// The vault asked about.
    pub vault_id: VaultId,
    /// The object asked about.
    pub object_id: ObjectId,
    /// The challenge to sign.
    pub challenge: [u8; 32],
}

/// A fixed-width field: lowercase hexadecimal for exactly `count` bytes.
pub open spec fn fixed_field(text: Seq<char>, count: nat, error: &'static str) -> Result<
    Seq<u8>,
    VaultError,
> {
    if is_lower_hex_text(text, count) {
        Ok(hex_bytes(text))
    } else {
        Err(VaultError::InvalidFormat(error))
    }
}

/// Parses a fixed-width field.
pub fn parse_fixed<const N: usize>(value: &str, error: &'static str) -> (res: Result<
    [u8; N],
    VaultError,
>)
    ensures
        match (res, fixed_field(value@, N as nat, error)) {
            (Ok(bytes), Ok(expected)) => bytes@ == expected,
            (Err(error), Err(expected)) => error == expected,
            _ => false,
        },
{
    match lower_hex_decode(value) {
        Some(bytes) => Ok(bytes),
        None => Err(VaultError::invalid_format(error)),
    }
}

fn parse_vault_id(value: &str) -> (res: Result<VaultId, VaultError>)
    ensures
        match (res, fixed_field(value@, 16, "witness vault ID")) {
            (Ok(identifier), Ok(expected)) => identifier@ == expected,
            (Err(error), Err(expected)) => error == expected,
            _ => false,
        },
{
    let bytes: [u8; 16] = parse_fixed(value, "witness vault ID")?;
    VaultId::from_slice(&bytes)
}

fn parse_object_id(value: &str) -> (res: Result<ObjectId, VaultError>)
    ensures
        match (res, fixed_field(value@, 16, "witness object ID")) {
            (Ok(identifier), Ok(expected)) => identifier@ == expected,
            (Err(error), Err(expected)) => error == expected,
            _ => false,
        },
{
    let bytes: [u8; 16] = parse_fixed(value, "witness object ID")?;
    ObjectId::from_slice(&bytes)
}

fn parse_version_id(value: &str) -> (res: Result<VersionId, VaultError>)
    ensures
        match (res, fixed_field(value@, 16, "witness version ID")) {
            (Ok(identifier), Ok(expected)) => identifier@ == expected,
            (Err(error), Err(expected)) => error == expected,
            _ => false,
        },
{
    let bytes: [u8; 16] = parse_fixed(value, "witness version ID")?;
    VersionId::from_slice(&bytes)
}

/// What an issue request asks for, with its first malformed field where it has one.
pub open spec fn issue_of(request: IssueRequest) -> Result<RequestView, VaultError> {
    match fixed_field(request.vault_id@, 16, "witness vault ID") {
        Err(error) => Err(error),
        Ok(vault_id) => match fixed_field(request.object_id@, 16, "witness object ID") {
            Err(error) => Err(error),
            Ok(object_id) => match fixed_field(request.version_id@, 16, "witness version ID") {
                Err(error) => Err(error),
                Ok(version_id) => match fixed_field(
                    request.commitment@,
                    32,
                    "witness commitment",
                ) {
                    Err(error) => Err(error),
                    Ok(commitment) => Ok(
                        RequestView { vault_id, object_id, version_id, commitment },
                    ),
                },
            },
        },
    }
}

/// Parses an issue request.
pub fn parse_issue(request: &IssueRequest) -> (res: Result<ParsedIssue, VaultError>)
    ensures
        match (res, issue_of(*request)) {
            (Ok(parsed), Ok(expected)) => {
                &&& parsed.request@ == expected
                &&& parsed.expected_epoch == request.expected_epoch
            },
            (Err(error), Err(expected)) => error == expected,
            _ => false,
        },
{
    let vault_id = parse_vault_id(request.vault_id.as_str())?;
    let object_id = parse_object_id(request.object_id.as_str())?;
    let version_id = parse_version_id(request.version_id.as_str())?;
    let commitment: [u8; 32] = parse_fixed(request.commitment.as_str(), "witness commitment")?;
    Ok(
        ParsedIssue {
            request: WitnessRequest::from_parts(vault_id, object_id, version_id, commitment),
            expected_epoch: request.expected_epoch,
        },
    )
}

/// What a head request asks for: vault, object and challenge.
pub open spec fn head_query_of(request: HeadRequest) -> Result<
    (Seq<u8>, Seq<u8>, Seq<u8>),
    VaultError,
> {
    match fixed_field(request.vault_id@, 16, "witness vault ID") {
        Err(error) => Err(error),
        Ok(vault_id) => match fixed_field(request.object_id@, 16, "witness object ID") {
            Err(error) => Err(error),
            Ok(object_id) => match fixed_field(request.challenge@, 32, "witness challenge") {
                Err(error) => Err(error),
                Ok(challenge) => Ok((vault_id, object_id, challenge)),
            },
        },
    }
}

/// Parses a head request.
pub fn parse_head(request: &HeadRequest) -> (res: Result<ParsedHead, VaultError>)
    ensures
        match (res, head_query_of(*request)) {
            (Ok(parsed), Ok(expected)) => {
                &&& parsed.vault_id@ == expected.0
                &&& parsed.object_id@ == expected.1
                &&& parsed.challenge@ == expected.2
            },
            (Err(error), Err(expected)) => error == expected,
            _ => false,
        },
{
    let vault_id = parse_vault_id(request.vault_id.as_str())?;
    let object_id = parse_object_id(request.object_id.as_str())?;
    let challenge: [u8; 32] = parse_fixed(request.challenge.as_str(), "witness challenge")?;
    Ok(ParsedHead { vault_id, object_id, challenge })
}

impl IssueRequest {
    /// Writes a request and the epoch its caller expects.
    #[must_use]
    pub fn from_request(request: &WitnessRequest, expected_epoch: u64) -> (res: Self)
        ensures
            res.vault_id@ == hex_text(request@.vault_id),
            res.object_id@ == hex_text(request@.object_id),
            res.version_id@ == hex_text(request@.version_id),
            res.commitment@ == hex_text(request@.commitment),
            res.expected_epoch == expected_epoch,
            issue_of(res) == Ok::<_, VaultError>(request@),
    {
        proof {
            request.lemma_widths();
            hex_round_trip(request@.vault_id);
            hex_round_trip(request@.object_id);
            hex_round_trip(request@.version_id);
            hex_round_trip(request@.commitment);
        }
        IssueRequest {
            vault_id: request.vault_id().to_hex(),
            object_id: request.object_id().to_hex(),
            version_id: request.version_id().to_hex(),
            commitment: hex_encode(request.commitment()),
            expected_epoch,
        }
    }
}

impl HeadRequest {
    /// Writes a head query.
    #[must_use]
    pub fn from_query(vault_id: VaultId, object_id: ObjectId, challenge: &[u8; 32]) -> (res: Self)
        ensures
            res.vault_id@ == hex_text(vault_id@),
            res.object_id@ == hex_text(object_id@),
            res.challenge@ == hex_text(challenge@),
            head_query_of(res) == Ok::<_, VaultError>((vault_id@, object_id@, challenge@)),
    {
        proof {
            broadcast use crate::format::group_identifiers;

            hex_round_trip(vault_id@);
            hex_round_trip(object_id@);
            hex_round_trip(challenge@);
        }
        HeadRequest {
            vault_id: vault_id.to_hex(),
            object_id: object_id.to_hex(),
            challenge: hex_encode(challenge),
        }
    }
}

/// The receipt fields that an issue response carries, before any signature check.
pub open spec fn response_fields(response: IssueResponse) -> Result<ReceiptView, VaultError> {
    match fixed_field(response.vault_id@, 16, "witness vault ID") {
        Err(error) => Err(error),
        Ok(vault_id) => match fixed_field(response.object_id@, 16, "witness object ID") {
            Err(error) => Err(error),
            Ok(object_id) => match fixed_field(response.version_id@, 16, "witness version ID") {
                Err(error) => Err(error),
                Ok(version_id) => match fixed_field(
                    response.commitment@,
                    32,
                    "witness commitment",
                ) {
                    Err(error) => Err(error),
                    Ok(commitment) => match fixed_field(
                        response.public_key@,
                        32,
                        "witness public key",
                    ) {
                        Err(error) => Err(error),
                        Ok(public_key) => match fixed_field(
                            response.signature@,
                            64,
                            "witness signature",
                        ) {
                            Err(error) => Err(error),
                            Ok(signature) => Ok(
                                ReceiptView {
                                    vault_id,
                                    object_id,
                                    version_id,
                                    witness_epoch: response.witness_epoch,
                                    commitment,
                                    public_key,
                                    signature,
                                },
                            ),
                        },
                    },
                },
            },
        },
    }
}

/// The verified receipt of an issue response.
pub open spec fn receipt_of(response: IssueResponse) -> Result<ReceiptView, VaultError> {
    match response_fields(response) {
        Err(error) => Err(error),
        Ok(receipt) => match receipt.signature_verdict() {
            Err(error) => Err(error),
            Ok(_) => Ok(receipt),
        },
    }
}

impl IssueResponse {
    /// Writes a receipt.
    #[must_use]
    pub fn from_receipt(receipt: &WitnessReceipt) -> (res: Self)
        ensures
            res.vault_id@ == hex_text(receipt@.vault_id),
            res.object_id@ == hex_text(receipt@.object_id),
            res.version_id@ == hex_text(receipt@.version_id),
            res.witness_epoch == receipt@.witness_epoch,
            res.commitment@ == hex_text(receipt@.commitment),
            res.public_key@ == hex_text(receipt@.public_key),
            res.signature@ == hex_text(receipt@.signature),
            response_fields(res) == Ok::<_, VaultError>(receipt@),
    {
        proof {
            receipt.lemma_widths();
            hex_round_trip(receipt@.vault_id);
            hex_round_trip(receipt@.object_id);
            hex_round_trip(receipt@.version_id);
            hex_round_trip(receipt@.commitment);
            hex_round_trip(receipt@.public_key);
            hex_round_trip(receipt@.signature);
        }
        IssueResponse {
            vault_id: receipt.vault_id().to_hex(),
            object_id: receipt.object_id().to_hex(),
            version_id: receipt.version_id().to_hex(),
            witness_epoch: receipt.witness_epoch(),
            commitment: hex_encode(receipt.commitment()),
            public_key: hex_encode(receipt.public_key()),
            signature: hex_encode(receipt.signature()),
        }
    }

    /// Parses and verifies the receipt that a witness returned.
    pub fn into_receipt(self) -> (res: Result<WitnessReceipt, VaultError>)
        ensures
            match (res, receipt_of(self)) {
                (Ok(receipt), Ok(expected)) => receipt@ == expected,
                (Err(error), Err(expected)) => error == expected,
                _ => false,
            },
    {
        let vault_id = parse_vault_id(self.vault_id.as_str())?;
        let object_id = parse_object_id(self.object_id.as_str())?;
        let version_id = parse_version_id(self.version_id.as_str())?;
        let commitment: [u8; 32] = parse_fixed(self.commitment.as_str(), "witness commitment")?;
        let public_key: [u8; 32] = parse_fixed(self.public_key.as_str(), "witness public key")?;
        let signature: [u8; 64] = parse_fixed(self.signature.as_str(), "witness signature")?;
        WitnessReceipt::new(
            vault_id,
            object_id,
            version_id,
            self.witness_epoch,
            commitment,
            public_key,
            signature,
        )
    }
}

/// An optional fixed-width field.
pub open spec fn optional_field(text: Option<String>, count: nat, error: &'static str) -> Result<
    Option<Seq<u8>>,
    VaultError,
> {
    match text {
        None => Ok(None),
        Some(text) => match fixed_field(text@, count, error) {
            Err(error) => Err(error),
            Ok(bytes) => Ok(Some(bytes)),
        },
    }
}

/// The head fields that a head response carries, before any check between them.
pub open spec fn head_fields(response: HeadResponse) -> Result<HeadView, VaultError> {
    match optional_field(response.version_id, 16, "witness version ID") {
        Err(error) => Err(error),
        Ok(version_id) => match optional_field(
            response.commitment,
            32,
            "witness head commitment",
        ) {
            Err(error) => Err(error),
            Ok(commitment) => match fixed_field(response.vault_id@, 16, "witness vault ID") {
                Err(error) => Err(error),
                Ok(vault_id) => match fixed_field(response.object_id@, 16, "witness object ID") {
                    Err(error) => Err(error),
                    Ok(object_id) => head_proof_fields(
                        response,
                        vault_id,
                        object_id,
                        version_id,
                        commitment,
                    ),
                },
            },
        },
    }
}

/// The challenge, key and signature of a head response, beside its other fields.
pub open spec fn head_proof_fields(
    response: HeadResponse,
    vault_id: Seq<u8>,
    object_id: Seq<u8>,
    version_id: Option<Seq<u8>>,
    commitment: Option<Seq<u8>>,
) -> Result<HeadView, VaultError> {
    match fixed_field(response.challenge@, 32, "witness head challenge") {
        Err(error) => Err(error),
        Ok(challenge) => match fixed_field(response.public_key@, 32, "witness public key") {
            Err(error) => Err(error),
            Ok(public_key) => match fixed_field(
                response.signature@,
                64,
                "witness head signature",
            ) {
                Err(error) => Err(error),
                Ok(signature) => Ok(
                    HeadView {
                        vault_id,
                        object_id,
                        present: response.present,
                        version_id,
                        witness_epoch: response.witness_epoch,
                        commitment,
                        challenge,
                        public_key,
                        signature,
                    },
                ),
            },
        },
    }
}

/// The verified head of a head response.
pub open spec fn head_of(response: HeadResponse) -> Result<HeadView, VaultError> {
    match head_fields(response) {
        Err(error) => Err(error),
        Ok(head) => match head.verdict() {
            Err(error) => Err(error),
            Ok(_) => Ok(head),
        },
    }
}

/// Whether an optional text is the hexadecimal form of an optional byte string.
pub open spec fn optional_hex(text: Option<String>, bytes: Option<Seq<u8>>) -> bool {
    match (text, bytes) {
        (Some(text), Some(bytes)) => text@ == hex_text(bytes),
        (None, None) => true,
        _ => false,
    }
}

impl HeadResponse {
    /// Writes a head.
    #[must_use]
    pub fn from_head(head: &WitnessHead) -> (res: Self)
        ensures
            res.vault_id@ == hex_text(head@.vault_id),
            res.object_id@ == hex_text(head@.object_id),
            res.present == head@.present,
            optional_hex(res.version_id, head@.version_id),
            res.witness_epoch == head@.witness_epoch,
            optional_hex(res.commitment, head@.commitment),
            res.challenge@ == hex_text(head@.challenge),
            res.public_key@ == hex_text(head@.public_key),
            res.signature@ == hex_text(head@.signature),
            head_fields(res) == Ok::<_, VaultError>(head@),
    {
        proof {
            head.lemma_widths();
            hex_round_trip(head@.vault_id);
            hex_round_trip(head@.object_id);
            hex_round_trip(head@.challenge);
            hex_round_trip(head@.public_key);
            hex_round_trip(head@.signature);
            if head@.version_id is Some {
                hex_round_trip(head@.version_id->0);
            }
            if head@.commitment is Some {
                hex_round_trip(head@.commitment->0);
            }
        }
        let version_id = match head.version_id() {
            Some(version_id) => Some(version_id.to_hex()),
            None => None,
        };
        let commitment = match head.commitment() {
            Some(commitment) => Some(hex_encode(commitment)),
            None => None,
        };
        HeadResponse {
            vault_id: head.vault_id().to_hex(),
            object_id: head.object_id().to_hex(),
            present: head.present(),
            version_id,
            witness_epoch: head.witness_epoch(),
            commitment,
            challenge: hex_encode(head.challenge()),
            public_key: hex_encode(head.public_key()),
            signature: hex_encode(head.signature()),
        }
    }

    /// Parses and verifies the head that a witness returned.
    pub fn into_head(self) -> (res: Result<WitnessHead, VaultError>)
        ensures
            match (res, head_of(self)) {
                (Ok(head), Ok(expected)) => head@ == expected,
                (Err(error), Err(expected)) => error == expected,
                _ => false,
            },
    {
        let version_id = match &self.version_id {
            Some(text) => Some(parse_version_id(text.as_str())?),
            None => None,
        };
        let commitment: Option<[u8; 32]> = match &self.commitment {
            Some(text) => Some(parse_fixed(text.as_str(), "witness head commitment")?),
            None => None,
        };
        let vault_id = parse_vault_id(self.vault_id.as_str())?;
        let object_id = parse_object_id(self.object_id.as_str())?;
        let challenge: [u8; 32] = parse_fixed(self.challenge.as_str(), "witness head challenge")?;
        let public_key: [u8; 32] = parse_fixed(self.public_key.as_str(), "witness public key")?;
        let signature: [u8; 64] = parse_fixed(self.signature.as_str(), "witness head signature")?;
        WitnessHead::new(
            vault_id,
            object_id,
            self.present,
            version_id,
            self.witness_epoch,
            commitment,
            challenge,
            public_key,
            signature,
        )
    }
}

/// A receipt that verifies survives the wire: what the witness writes is what the vault reads.
pub proof fn receipt_survives_the_wire(response: IssueResponse, receipt: ReceiptView)
    requires
        response_fields(response) == Ok::<_, VaultError>(receipt),
        receipt.signature_verdict() is Ok,
    ensures
        receipt_of(response) == Ok::<_, VaultError>(receipt),
{
}

/// A head that verifies survives the wire.
pub proof fn head_survives_the_wire(response: HeadResponse, head: HeadView)
    requires
        head_fields(response) == Ok::<_, VaultError>(head),
        head.verdict() is Ok,
    ensures
        head_of(response) == Ok::<_, VaultError>(head),
{
}

/// A fixed-width field has one spelling: it stands for a byte string exactly where it is the
/// lowercase hexadecimal text of that many bytes.
pub proof fn fields_have_one_spelling(
    text: Seq<char>,
    count: nat,
    error: &'static str,
    bytes: Seq<u8>,
)
    ensures
        fixed_field(text, count, error) == Ok::<_, VaultError>(bytes) <==> bytes.len() == count
            && text == hex_text(bytes),
        fixed_field(text, count, error) matches Err(found) ==> found == VaultError::InvalidFormat(
            error,
        ),
{
    hex_round_trip(bytes);
    if is_lower_hex_text(text, count) {
        crate::bytes::lower_hex_is_canonical(text, count);
    }
}

/// An issue request is understood exactly where its fields are the hexadecimal texts of
/// identifiers of 16 bytes and a commitment of 32 bytes, and then asks for exactly these.
pub proof fn issue_requests_say_what_they_ask(request: IssueRequest, asked: RequestView)
    ensures
        issue_of(request) == Ok::<_, VaultError>(asked) <==> {
            &&& asked.vault_id.len() == 16 && request.vault_id@ == hex_text(asked.vault_id)
            &&& asked.object_id.len() == 16 && request.object_id@ == hex_text(asked.object_id)
            &&& asked.version_id.len() == 16 && request.version_id@ == hex_text(asked.version_id)
            &&& asked.commitment.len() == 32 && request.commitment@ == hex_text(asked.commitment)
        },
{
    fields_have_one_spelling(request.vault_id@, 16, "witness vault ID", asked.vault_id);
    fields_have_one_spelling(request.object_id@, 16, "witness object ID", asked.object_id);
    fields_have_one_spelling(request.version_id@, 16, "witness version ID", asked.version_id);
    fields_have_one_spelling(request.commitment@, 32, "witness commitment", asked.commitment);
}

/// A head request is understood exactly where its fields are the hexadecimal texts of
/// identifiers of 16 bytes and a challenge of 32 bytes, and then asks for exactly these.
pub proof fn head_requests_say_what_they_ask(
    request: HeadRequest,
    vault_id: Seq<u8>,
    object_id: Seq<u8>,
    challenge: Seq<u8>,
)
    ensures
        head_query_of(request) == Ok::<_, VaultError>((vault_id, object_id, challenge)) <==> {
            &&& vault_id.len() == 16 && request.vault_id@ == hex_text(vault_id)
            &&& object_id.len() == 16 && request.object_id@ == hex_text(object_id)
            &&& challenge.len() == 32 && request.challenge@ == hex_text(challenge)
        },
{
    fields_have_one_spelling(request.vault_id@, 16, "witness vault ID", vault_id);
    fields_have_one_spelling(request.object_id@, 16, "witness object ID", object_id);
    fields_have_one_spelling(request.challenge@, 32, "witness challenge", challenge);
}

/// A receipt arrives exactly where every field is the hexadecimal text of its bytes, and the
/// epoch as it was sent.
pub proof fn receipts_arrive_as_sent(response: IssueResponse, receipt: ReceiptView)
    ensures
        response_fields(response) == Ok::<_, VaultError>(receipt) <==> {
            &&& receipt.vault_id.len() == 16 && response.vault_id@ == hex_text(receipt.vault_id)
            &&& receipt.object_id.len() == 16 && response.object_id@ == hex_text(receipt.object_id)
            &&& receipt.version_id.len() == 16 && response.version_id@ == hex_text(
                receipt.version_id,
            )
            &&& receipt.witness_epoch == response.witness_epoch
            &&& receipt.commitment.len() == 32 && response.commitment@ == hex_text(
                receipt.commitment,
            )
            &&& receipt.public_key.len() == 32 && response.public_key@ == hex_text(
                receipt.public_key,
            )
            &&& receipt.signature.len() == 64 && response.signature@ == hex_text(receipt.signature)
        },
{
    fields_have_one_spelling(response.vault_id@, 16, "witness vault ID", receipt.vault_id);
    fields_have_one_spelling(response.object_id@, 16, "witness object ID", receipt.object_id);
    fields_have_one_spelling(response.version_id@, 16, "witness version ID", receipt.version_id);
    fields_have_one_spelling(response.commitment@, 32, "witness commitment", receipt.commitment);
    fields_have_one_spelling(response.public_key@, 32, "witness public key", receipt.public_key);
    fields_have_one_spelling(response.signature@, 64, "witness signature", receipt.signature);
}

/// A head arrives exactly where every field is the hexadecimal text of its bytes, optional
/// fields are there where they were sent, and presence and epoch are as they were sent.
pub proof fn heads_arrive_as_sent(response: HeadResponse, head: HeadView)
    ensures
        head_fields(response) == Ok::<_, VaultError>(head) <==> {
            &&& head.vault_id.len() == 16 && response.vault_id@ == hex_text(head.vault_id)
            &&& head.object_id.len() == 16 && response.object_id@ == hex_text(head.object_id)
            &&& head.present == response.present
            &&& head.version_id is Some <==> response.version_id is Some
            &&& head.version_id matches Some(version_id) ==> version_id.len() == 16
                && response.version_id->0@ == hex_text(version_id)
            &&& head.witness_epoch == response.witness_epoch
            &&& head.commitment is Some <==> response.commitment is Some
            &&& head.commitment matches Some(commitment) ==> commitment.len() == 32
                && response.commitment->0@ == hex_text(commitment)
            &&& head.challenge.len() == 32 && response.challenge@ == hex_text(head.challenge)
            &&& head.public_key.len() == 32 && response.public_key@ == hex_text(head.public_key)
            &&& head.signature.len() == 64 && response.signature@ == hex_text(head.signature)
        },
{
    fields_have_one_spelling(response.vault_id@, 16, "witness vault ID", head.vault_id);
    fields_have_one_spelling(response.object_id@, 16, "witness object ID", head.object_id);
    fields_have_one_spelling(response.challenge@, 32, "witness head challenge", head.challenge);
    fields_have_one_spelling(response.public_key@, 32, "witness public key", head.public_key);
    fields_have_one_spelling(response.signature@, 64, "witness head signature", head.signature);
    if response.version_id is Some && head.version_id is Some {
        fields_have_one_spelling(
            response.version_id->0@,
            16,
            "witness version ID",
            head.version_id->0,
        );
    }
    if response.commitment is Some && head.commitment is Some {
        fields_have_one_spelling(
            response.commitment->0@,
            32,
            "witness head commitment",
            head.commitment->0,
        );
    }
}

} // verus!
