//! The witness side: conditional advancement of one object head, signed receipts
//! and heads, and the HTTP rules around them. Durable rows come from outside.
use crate::bytes::{fixed_bytes, same_text};
use crate::error::VaultError;
use crate::format::{ObjectId, VaultId, VersionId};
use crate::primitives::{constant_time_equal, ed25519_public_key, lossy_text, signing_public_key, text_from_bytes};
use crate::provider::{decide_issue, issue_rule, IssueDecision};
use crate::wire::{head_fields, head_query_of, issue_of, parse_head, parse_issue, response_fields, HeadRequest, HeadResponse, IssueRequest, IssueResponse, MAX_WIRE_BODY};
use crate::witness::{HeadView, ReceiptView, RequestView, WitnessHead, WitnessReceipt};
use vstd::prelude::*;
use vstd::utf8::{decode_utf8, encode_utf8, valid_utf8};

verus! {

/// One durable object head as it is stored.
#[derive(Debug)]
pub struct HeadRow {
    /// Acknowledged version identifier.
    pub version_id: Vec<u8>,
    /// Epoch of the acknowledgement.
    pub witness_epoch: u64,
    /// Acknowledged commitment.
    pub commitment: Vec<u8>,
    /// Signature over the acknowledgement.
    pub signature: Vec<u8>,
}

/// What an issue request changes in durable state: both rows in one transaction.
#[derive(Clone, Copy, Debug)]
pub struct HeadAdvance {
    /// The receipt that becomes the object's head.
    pub receipt: WitnessReceipt,
    /// The vault's next epoch from now on.
    pub next_epoch: u64,
}

/// The answer to an issue request and the change that must be durable before it is sent.
#[derive(Debug)]
pub struct IssueOutcome {
    /// The receipt to return.
    pub response: IssueResponse,
    /// The state change, or nothing for a repeated request.
    pub advance: Option<HeadAdvance>,
}

/// The receipt that a durable head stands for, before its signature is checked.
pub open spec fn row_fields(
    vault_id: Seq<u8>,
    object_id: Seq<u8>,
    row: HeadRow,
    public_key: Seq<u8>,
) -> Result<ReceiptView, VaultError> {
    if row.version_id@.len() != 16 {
        Err(VaultError::InvalidFormat("invalid identifier length"))
    } else if row.commitment@.len() != 32 || row.signature@.len() != 64 {
        Err(VaultError::InvalidFormat("witness fixed-width field"))
    } else {
        Ok(
            ReceiptView {
                vault_id,
                object_id,
                version_id: row.version_id@,
                witness_epoch: row.witness_epoch,
                commitment: row.commitment@,
                public_key,
                signature: row.signature@,
            },
        )
    }
}

/// The verified receipt that a durable head stands for.
pub open spec fn stored_receipt(
    vault_id: Seq<u8>,
    object_id: Seq<u8>,
    row: Option<HeadRow>,
    public_key: Seq<u8>,
) -> Result<Option<ReceiptView>, VaultError> {
    match row {
        None => Ok(None),
        Some(row) => match row_fields(vault_id, object_id, row, public_key) {
            Err(error) => Err(error),
            Ok(receipt) => match receipt.signature_verdict() {
                Err(error) => Err(error),
                Ok(_) => Ok(Some(receipt)),
            },
        },
    }
}

/// Loads and verifies a durable head.
pub fn load_receipt(
    vault_id: VaultId,
    object_id: ObjectId,
    row: &Option<HeadRow>,
    public_key: [u8; 32],
) -> (res: Result<Option<WitnessReceipt>, VaultError>)
    ensures
        match (res, stored_receipt(vault_id@, object_id@, *row, public_key@)) {
            (Ok(Some(receipt)), Ok(Some(expected))) => receipt@ == expected,
            (Ok(None), Ok(None)) => true,
            (Err(error), Err(expected)) => error == expected,
            _ => false,
        },
{
    let row = match row {
        Some(row) => row,
        None => return Ok(None),
    };
    let version_id = VersionId::from_slice(row.version_id.as_slice())?;
    let commitment: [u8; 32] = match fixed_bytes(row.commitment.as_slice()) {
        Some(commitment) => commitment,
        None => return Err(VaultError::invalid_format("witness fixed-width field")),
    };
    let signature: [u8; 64] = match fixed_bytes(row.signature.as_slice()) {
        Some(signature) => signature,
        None => return Err(VaultError::invalid_format("witness fixed-width field")),
    };
    match WitnessReceipt::new(
        vault_id,
        object_id,
        version_id,
        row.witness_epoch,
        commitment,
        public_key,
        signature,
    ) {
        Ok(receipt) => Ok(Some(receipt)),
        Err(error) => Err(error),
    }
}

/// The first epoch of a vault, or its stored next epoch.
pub open spec fn epoch_from(stored: Option<u64>) -> u64 {
    match stored {
        Some(next_epoch) => next_epoch,
        None => 1,
    }
}

/// What an issue request comes to: a receipt, and whether state advances for it.
pub open spec fn issue_verdict(
    seed: Seq<u8>,
    request: IssueRequest,
    row: Option<HeadRow>,
    next_epoch: Option<u64>,
) -> Result<(ReceiptView, Option<u64>), VaultError> {
    match issue_of(request) {
        Err(error) => Err(error),
        Ok(asked) => match stored_receipt(
            asked.vault_id,
            asked.object_id,
            row,
            ed25519_public_key(seed),
        ) {
            Err(error) => Err(error),
            Ok(current) => match issue_rule(
                current,
                epoch_from(next_epoch),
                asked,
                request.expected_epoch,
            ) {
                IssueDecision::Replay => Ok((current->0, None)),
                IssueDecision::Advance { epoch, next_epoch } => Ok(
                    (ReceiptView::issued(asked, epoch, seed), Some(next_epoch)),
                ),
                IssueDecision::Conflict => Err(VaultError::WitnessConflict),
                IssueDecision::Exhausted => Err(
                    VaultError::Invariant("witness epoch exhausted"),
                ),
            },
        },
    }
}

/// What a head request comes to.
pub open spec fn head_wire_verdict(
    seed: Seq<u8>,
    request: HeadRequest,
    row: Option<HeadRow>,
) -> Result<HeadView, VaultError> {
    match head_query_of(request) {
        Err(error) => Err(error),
        Ok((vault_id, object_id, challenge)) => match stored_receipt(
            vault_id,
            object_id,
            row,
            ed25519_public_key(seed),
        ) {
            Err(error) => Err(error),
            Ok(current) => Ok(HeadView::issued(vault_id, object_id, current, challenge, seed)),
        },
    }
}

/// The signing capability of an independently operated witness.
pub struct WitnessService {
    signing_key: [u8; 32],
}

impl WitnessService {
    /// The secret seed under which this witness signs.
    pub closed spec fn seed(&self) -> Seq<u8> {
        self.signing_key@
    }

    /// Takes the signing seed of a witness.
    #[must_use]
    pub fn new(signing_key: [u8; 32]) -> (res: Self)
        ensures
            res.seed() == signing_key@,
    {
        WitnessService { signing_key }
    }

    /// Returns the public signing key provisioned for this witness.
    #[must_use]
    pub fn public_key(&self) -> (res: [u8; 32])
        ensures
            res@ == ed25519_public_key(self.seed()),
    {
        signing_public_key(&self.signing_key)
    }

    /// Decides and conditionally signs an issue request against the durable rows of its
    /// object and vault.
    ///
    /// Repeating an already advanced identical request returns its original
    /// receipt. A different stale request is a conflict without any change.
    pub fn issue_wire(
        &self,
        request: &IssueRequest,
        row: &Option<HeadRow>,
        next_epoch: Option<u64>,
    ) -> (res: Result<IssueOutcome, VaultError>)
        ensures
            match (res, issue_verdict(self.seed(), *request, *row, next_epoch)) {
                (Ok(outcome), Ok((receipt, following))) => {
                    &&& response_fields(outcome.response) == Ok::<_, VaultError>(receipt)
                    &&& match (outcome.advance, following) {
                        (Some(advance), Some(following)) => advance.receipt@ == receipt
                            && advance.next_epoch == following,
                        (None, None) => true,
                        _ => false,
                    }
                    &&& receipt.signature_verdict() is Ok
                },
                (Err(error), Err(expected)) => error == expected,
                _ => false,
            },
    {
        let parsed = parse_issue(request)?;
        let current = load_receipt(
            parsed.request.vault_id(),
            parsed.request.object_id(),
            row,
            self.public_key(),
        )?;
        let epoch: u64 = match next_epoch {
            Some(next_epoch) => next_epoch,
            None => 1,
        };
        match decide_issue(current.as_ref(), epoch, &parsed.request, parsed.expected_epoch) {
            IssueDecision::Replay => match &current {
                Some(receipt) => Ok(
                    IssueOutcome { response: IssueResponse::from_receipt(receipt), advance: None },
                ),
                None => Err(VaultError::WitnessConflict),
            },
            IssueDecision::Advance { epoch, next_epoch } => {
                let receipt = WitnessReceipt::issue(&parsed.request, epoch, &self.signing_key);
                Ok(
                    IssueOutcome {
                        response: IssueResponse::from_receipt(&receipt),
                        advance: Some(HeadAdvance { receipt, next_epoch }),
                    },
                )
            },
            IssueDecision::Conflict => Err(VaultError::WitnessConflict),
            IssueDecision::Exhausted => Err(VaultError::Invariant("witness epoch exhausted")),
        }
    }

    /// Signs the current head of an object for the caller's challenge.
    pub fn head_wire(&self, request: &HeadRequest, row: &Option<HeadRow>) -> (res: Result<
        HeadResponse,
        VaultError,
    >)
        ensures
            match (res, head_wire_verdict(self.seed(), *request, *row)) {
                (Ok(response), Ok(head)) => {
                    &&& head_fields(response) == Ok::<_, VaultError>(head)
                    &&& head.verdict() is Ok
                },
                (Err(error), Err(expected)) => error == expected,
                _ => false,
            },
    {
        let parsed = parse_head(request)?;
        let current = load_receipt(parsed.vault_id, parsed.object_id, row, self.public_key())?;
        let head = WitnessHead::issue(
            parsed.vault_id,
            parsed.object_id,
            current.as_ref(),
            parsed.challenge,
            &self.signing_key,
        );
        Ok(HeadResponse::from_head(&head))
    }

    /// Signs the current head that accompanies a refused stale request. The caller of an
    /// issue request has sent no challenge, so the challenge field is all zero.
    pub fn conflict_head(&self, request: &IssueRequest, row: &Option<HeadRow>) -> (res: Result<
        HeadResponse,
        VaultError,
    >)
        ensures
            match issue_of(*request) {
                Err(expected) => res == Err::<HeadResponse, _>(expected),
                Ok(asked) => match (
                    res,
                    stored_receipt(
                        asked.vault_id,
                        asked.object_id,
                        *row,
                        ed25519_public_key(self.seed()),
                    ),
                ) {
                    (Ok(response), Ok(current)) => {
                        let head = HeadView::issued(
                            asked.vault_id,
                            asked.object_id,
                            current,
                            crate::witness::zeros(32),
                            self.seed(),
                        );
                        &&& head_fields(response) == Ok::<_, VaultError>(head)
                        &&& head.verdict() is Ok
                        &&& head.challenge == Seq::new(32, |i: int| 0u8)
                    },
                    (Err(error), Err(expected)) => error == expected,
                    _ => false,
                },
            },
    {
        let parsed = parse_issue(request)?;
        let vault_id = parsed.request.vault_id();
        let object_id = parsed.request.object_id();
        let current = load_receipt(vault_id, object_id, row, self.public_key())?;
        let challenge: [u8; 32] = [0u8; 32];
        assert(challenge@ =~= crate::witness::zeros(32));
        let head = WitnessHead::issue(
            vault_id,
            object_id,
            current.as_ref(),
            challenge,
            &self.signing_key,
        );
        Ok(HeadResponse::from_head(&head))
    }
}

/// The row in which a receipt is kept as its object's head.
pub open spec fn is_row_of(row: HeadRow, receipt: ReceiptView) -> bool {
    &&& row.version_id@ == receipt.version_id
    &&& row.witness_epoch == receipt.witness_epoch
    &&& row.commitment@ == receipt.commitment
    &&& row.signature@ == receipt.signature
}

/// Storing an issued receipt as a head and loading it again gives the same receipt.
pub proof fn stored_head_loads_back(receipt: ReceiptView, row: HeadRow)
    requires
        is_row_of(row, receipt),
        receipt.version_id.len() == 16,
        receipt.commitment.len() == 32,
        receipt.signature.len() == 64,
        receipt.signature_verdict() is Ok,
    ensures
        stored_receipt(receipt.vault_id, receipt.object_id, Some(row), receipt.public_key) == Ok::<
            _,
            VaultError,
        >(Some(receipt)),
{
}

/// A request that advanced a head is answered with the same receipt when it is repeated
/// after the advance became durable, and state does not move again.
pub proof fn repeated_issue_returns_the_same_receipt(
    seed: Seq<u8>,
    request: IssueRequest,
    row: Option<HeadRow>,
    next_epoch: Option<u64>,
    advanced: HeadRow,
    later_next_epoch: Option<u64>,
)
    requires
        epoch_from(next_epoch) > 0,
        row matches Some(row) ==> row.witness_epoch < epoch_from(next_epoch),
        issue_verdict(seed, request, row, next_epoch) matches Ok((receipt, Some(following)))
            && is_row_of(advanced, receipt) && receipt.signature.len() == 64
            && receipt.signature_verdict() is Ok,
    ensures
        issue_verdict(seed, request, Some(advanced), later_next_epoch) == Ok::<_, VaultError>(
            ((issue_verdict(seed, request, row, next_epoch)->Ok_0).0, None::<u64>),
        ),
{
    let asked = issue_of(request)->Ok_0;
    let receipt = (issue_verdict(seed, request, row, next_epoch)->Ok_0).0;
    assert(asked.version_id.len() == 16 && asked.commitment.len() == 32);
    stored_head_loads_back(receipt, advanced);
}

/// After an advance, a different request that expects the earlier epoch is a conflict.
pub proof fn stale_issue_conflicts(
    seed: Seq<u8>,
    request: IssueRequest,
    row: Option<HeadRow>,
    next_epoch: Option<u64>,
    advanced: HeadRow,
    later_next_epoch: Option<u64>,
    other: IssueRequest,
)
    requires
        epoch_from(next_epoch) > 0,
        row matches Some(row) ==> row.witness_epoch < epoch_from(next_epoch),
        issue_verdict(seed, request, row, next_epoch) matches Ok((receipt, Some(following)))
            && is_row_of(advanced, receipt) && receipt.signature.len() == 64
            && receipt.signature_verdict() is Ok,
        issue_of(other) matches Ok(asked) && asked.vault_id == (issue_of(request)->Ok_0).vault_id
            && asked.object_id == (issue_of(request)->Ok_0).object_id && (asked.version_id != (
        issue_of(request)->Ok_0).version_id || asked.commitment != (issue_of(
            request,
        )->Ok_0).commitment),
        other.expected_epoch == request.expected_epoch,
    ensures
        issue_verdict(seed, other, Some(advanced), later_next_epoch) == Err::<
            (ReceiptView, Option<u64>),
            _,
        >(VaultError::WitnessConflict),
{
    let asked = issue_of(request)->Ok_0;
    let receipt = (issue_verdict(seed, request, row, next_epoch)->Ok_0).0;
    assert(asked.version_id.len() == 16 && asked.commitment.len() == 32);
    stored_head_loads_back(receipt, advanced);
}

/// Epochs of a vault only grow: an advance signs the vault's next epoch, which is above the
/// epoch it expected, and leaves a still greater one for the following receipt.
pub proof fn advance_keeps_epochs_ahead(
    seed: Seq<u8>,
    request: IssueRequest,
    row: Option<HeadRow>,
    next_epoch: Option<u64>,
)
    requires
        row matches Some(row) ==> row.witness_epoch < epoch_from(next_epoch),
        epoch_from(next_epoch) > 0,
    ensures
        issue_verdict(seed, request, row, next_epoch) matches Ok((receipt, Some(following))) ==> {
            &&& receipt.witness_epoch == epoch_from(next_epoch)
            &&& request.expected_epoch < receipt.witness_epoch < following
        },
{
}

/// Where an HTTP request of a witness goes.
#[derive(Clone, Copy, Debug, PartialEq, Eq, Structural)]
pub enum WitnessRoute {
    /// Liveness check.
    Health,
    /// Conditional acknowledgement.
    Issue,
    /// Signed object head.
    Head,
    /// Nothing is served here.
    NotFound,
}

/// The route of a method and a path.
pub open spec fn route_of(method: Seq<char>, url: Seq<char>) -> WitnessRoute {
    if method == "GET"@ && url == "/healthz"@ {
        WitnessRoute::Health
    } else if method == "POST"@ && url == "/v1/issue"@ {
        WitnessRoute::Issue
    } else if method == "POST"@ && url == "/v1/head"@ {
        WitnessRoute::Head
    } else {
        WitnessRoute::NotFound
    }
}

/// Finds the route of a method and a path.
pub fn route(method: &str, url: &str) -> (res: WitnessRoute)
    ensures
        res == route_of(method@, url@),
{
    if same_text(method, "GET") && same_text(url, "/healthz") {
        WitnessRoute::Health
    } else if same_text(method, "POST") && same_text(url, "/v1/issue") {
        WitnessRoute::Issue
    } else if same_text(method, "POST") && same_text(url, "/v1/head") {
        WitnessRoute::Head
    } else {
        WitnessRoute::NotFound
    }
}

/// Returns the HTTP status of a refused request.
pub fn error_status(error: &VaultError) -> (res: u16)
    ensures
        res == if *error == VaultError::WitnessConflict {
            409u16
        } else {
            400u16
        },
{
    match error {
        VaultError::WitnessConflict => 409,
        _ => 400,
    }
}

/// Returns whether a request body is within the size limit.
pub fn body_allowed(bytes: u64) -> (res: bool)
    ensures
        res == (bytes <= MAX_WIRE_BODY),
        res == (bytes <= 16_384),
{
    bytes <= MAX_WIRE_BODY
}

/// The header value that a bearer token requires.
pub open spec fn bearer_header(token: Seq<u8>) -> Seq<u8> {
    encode_utf8("Bearer "@ + lossy_text(token))
}

/// Returns whether an `Authorization` header, where there is one, carries the token.
pub fn authorized(header: Option<&[u8]>, token: &[u8]) -> (res: bool)
    ensures
        match header {
            Some(value) => res == (value@ == bearer_header(token@)),
            None => !res,
        },
        header matches Some(value) ==> res == (value@ == encode_utf8(
            "Bearer "@ + lossy_text(token@),
        )),
        header matches Some(value) ==> valid_utf8(token@) ==> res == (value@ == encode_utf8(
            "Bearer "@ + decode_utf8(token@),
        )),
{
    let mut expected = "Bearer ".to_owned();
    expected.append(text_from_bytes(token).as_str());
    match header {
        Some(value) => constant_time_equal(value, expected.as_str().as_bytes()),
        None => false,
    }
}

/// A witness service acknowledges what it is asked with the current epoch: a well-formed
/// request that expects the epoch of the stored head, or 0 where none is stored, gets a
/// receipt for exactly what it asks at the vault's next epoch, which is 1 for a new vault,
/// and the following epoch is one more.
pub proof fn current_requests_get_a_receipt(
    seed: Seq<u8>,
    request: IssueRequest,
    asked: RequestView,
    row: Option<HeadRow>,
    current: Option<ReceiptView>,
    next_epoch: Option<u64>,
)
    requires
        issue_of(request) == Ok::<_, VaultError>(asked),
        stored_receipt(asked.vault_id, asked.object_id, row, ed25519_public_key(seed)) == Ok::<
            _,
            VaultError,
        >(current),
        current matches Some(receipt) ==> receipt.witness_epoch == request.expected_epoch,
        current is None ==> request.expected_epoch == 0,
        next_epoch matches Some(next) ==> next < 0xffff_ffff_ffff_ffff,
    ensures
        ({
            let epoch: u64 = match next_epoch {
                Some(next) => next,
                None => 1,
            };
            issue_verdict(seed, request, row, next_epoch) == Ok::<_, VaultError>(
                (ReceiptView::issued(asked, epoch, seed), Some((epoch + 1) as u64)),
            )
        }),
{
}

/// Whatever a witness service answers, it signs only for what was asked, advances only a
/// request that expects the stored head's epoch, and otherwise repeats the stored receipt or
/// reports a conflict.
pub proof fn service_never_advances_a_stale_request(
    seed: Seq<u8>,
    request: IssueRequest,
    asked: RequestView,
    row: Option<HeadRow>,
    current: Option<ReceiptView>,
    next_epoch: Option<u64>,
)
    requires
        issue_of(request) == Ok::<_, VaultError>(asked),
        stored_receipt(asked.vault_id, asked.object_id, row, ed25519_public_key(seed)) == Ok::<
            _,
            VaultError,
        >(current),
        current matches Some(receipt) ==> receipt.witness_epoch != request.expected_epoch,
        current is None ==> request.expected_epoch != 0,
    ensures
        match issue_verdict(seed, request, row, next_epoch) {
            Ok((receipt, following)) => {
                &&& following is None
                &&& current == Some(receipt)
                &&& receipt.version_id == asked.version_id && receipt.commitment
                    == asked.commitment
                &&& receipt.witness_epoch > request.expected_epoch
            },
            Err(error) => error == VaultError::WitnessConflict,
        },
{
}

/// A head request is answered with what the service holds for the object, signed for the
/// caller's own challenge.
pub proof fn head_requests_get_the_held_head(
    seed: Seq<u8>,
    request: HeadRequest,
    vault_id: Seq<u8>,
    object_id: Seq<u8>,
    challenge: Seq<u8>,
    row: Option<HeadRow>,
    current: Option<ReceiptView>,
)
    requires
        head_query_of(request) == Ok::<_, VaultError>((vault_id, object_id, challenge)),
        stored_receipt(vault_id, object_id, row, ed25519_public_key(seed)) == Ok::<_, VaultError>(
            current,
        ),
    ensures
        head_wire_verdict(seed, request, row) matches Ok(head) && head.answers(
            vault_id,
            object_id,
            challenge,
        ) && head.confirms(current) && head.public_key == ed25519_public_key(seed),
{
}

/// A stored head is trusted only where it carries the service's own valid signature over
/// exactly the stored fields.
pub proof fn stored_heads_are_signed(
    vault_id: Seq<u8>,
    object_id: Seq<u8>,
    row: HeadRow,
    public_key: Seq<u8>,
)
    ensures
        stored_receipt(vault_id, object_id, Some(row), public_key) matches Ok(held) ==> (held
            matches Some(receipt) && receipt.vault_id == vault_id && receipt.object_id == object_id
            && receipt.version_id == row.version_id@ && receipt.witness_epoch == row.witness_epoch
            && receipt.commitment == row.commitment@ && receipt.public_key == public_key
            && receipt.signature == row.signature@ && receipt.signature_verdict() is Ok),
        stored_receipt(vault_id, object_id, None, public_key) == Ok::<_, VaultError>(
            None::<ReceiptView>,
        ),
{
}

/// The service has exactly three addresses, each under one method.
pub proof fn routes_are_exact(method: Seq<char>, url: Seq<char>)
    ensures
        route_of(method, url) is Issue <==> method == "POST"@ && url == "/v1/issue"@,
        route_of(method, url) is Head <==> method == "POST"@ && url == "/v1/head"@,
        route_of(method, url) is Health <==> method == "GET"@ && url == "/healthz"@,
{
    reveal_strlit("GET");
    reveal_strlit("POST");
    reveal_strlit("/healthz");
    reveal_strlit("/v1/issue");
    reveal_strlit("/v1/head");
    assert("GET"@.len() != "POST"@.len());
    assert("/v1/issue"@.len() != "/v1/head"@.len());
}

} // verus!
