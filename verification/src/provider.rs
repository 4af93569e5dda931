//! Freshness witnesses: the interface a vault asks, the rule every witness
//! follows when it advances a head, and an in-process witness for development.
use crate::error::VaultError;
use crate::format::{ObjectId, VaultId};
use crate::primitives::{ed25519_public_key, random_array, signing_public_key};
use crate::witness::{receipt_view, random_witness_challenge, HeadView, ReceiptView, RequestView, WitnessHead, WitnessReceipt, WitnessRequest};
use vstd::prelude::*;

verus! {

/// Issues and reads receipts from an independently operated freshness witness.
///
/// Implementations must preserve a conditional monotonic epoch per object and
/// keep their Ed25519 signing key outside the vault's local trust boundary.
pub trait WitnessProvider {
    /// Conditionally obtains one signed receipt for `request`.
    ///
    /// `expected_epoch` is the witness epoch of the caller's previously
    /// authenticated object head, or zero when the object has never been
    /// witnessed. A stale expected epoch must not advance witness state.
    fn issue_receipt(&mut self, request: &WitnessRequest, expected_epoch: u64) -> Result<
        WitnessReceipt,
        VaultError,
    >;

    /// Obtains a challenge-bound signed head for one witnessed object.
    fn object_head(
        &mut self,
        vault_id: VaultId,
        object_id: ObjectId,
        challenge: [u8; 32],
    ) -> Result<WitnessHead, VaultError>;
}

/// What a witness does with an issue request.
#[derive(Clone, Copy, Debug, PartialEq, Eq, Structural)]
pub enum IssueDecision {
    /// The request was already acknowledged: the current receipt is returned unchanged.
    Replay,
    /// The head advances: a receipt is signed at this epoch.
    Advance {
        /// Epoch of the new receipt.
        epoch: u64,
        /// Epoch that the following receipt will get.
        next_epoch: u64,
    },
    /// The expected epoch is not the current one: nothing changes.
    Conflict,
    /// No further epoch is left: nothing changes.
    Exhausted,
}

/// The conditional rule by which a witness acknowledges versions.
pub open spec fn issue_rule(
    current: Option<ReceiptView>,
    next_epoch: u64,
    request: RequestView,
    expected_epoch: u64,
) -> IssueDecision {
    let current_epoch = match current {
        Some(receipt) => receipt.witness_epoch,
        None => 0,
    };
    if current is Some && current->0.version_id == request.version_id && current->0.commitment
        == request.commitment && current_epoch > expected_epoch {
        IssueDecision::Replay
    } else if current_epoch != expected_epoch {
        IssueDecision::Conflict
    } else if next_epoch == u64::MAX {
        IssueDecision::Exhausted
    } else {
        IssueDecision::Advance { epoch: next_epoch, next_epoch: (next_epoch + 1) as u64 }
    }
}

/// Decides what a witness does with an issue request.
pub fn decide_issue(
    current: Option<&WitnessReceipt>,
    next_epoch: u64,
    request: &WitnessRequest,
    expected_epoch: u64,
) -> (res: IssueDecision)
    ensures
        res == issue_rule(receipt_view(current), next_epoch, request@, expected_epoch),
{
    let current_epoch: u64 = match current {
        Some(receipt) => {
            if receipt.version_id() == request.version_id() && crate::bytes::bytes_equal(
                receipt.commitment(),
                request.commitment(),
            ) && receipt.witness_epoch() > expected_epoch {
                return IssueDecision::Replay;
            }
            receipt.witness_epoch()
        },
        None => 0,
    };
    if current_epoch != expected_epoch {
        return IssueDecision::Conflict;
    }
    if next_epoch == u64::MAX {
        return IssueDecision::Exhausted;
    }
    IssueDecision::Advance { epoch: next_epoch, next_epoch: next_epoch + 1 }
}

/// Repeating an acknowledged request is answered with the original receipt, whatever the
/// witness's next epoch has become.
pub proof fn reissue_is_idempotent(
    current: Option<ReceiptView>,
    next_epoch: u64,
    request: RequestView,
    expected_epoch: u64,
    seed: Seq<u8>,
    later_next_epoch: u64,
)
    requires
        current matches Some(receipt) ==> receipt.witness_epoch < next_epoch,
        0 < next_epoch,
        issue_rule(current, next_epoch, request, expected_epoch) is Advance,
    ensures
        issue_rule(
            Some(ReceiptView::issued(request, next_epoch, seed)),
            later_next_epoch,
            request,
            expected_epoch,
        ) == IssueDecision::Replay,
{
}

/// Once a head has advanced, a different request that still expects the earlier epoch is a
/// conflict.
pub proof fn stale_request_conflicts(
    current: Option<ReceiptView>,
    next_epoch: u64,
    request: RequestView,
    expected_epoch: u64,
    seed: Seq<u8>,
    other: RequestView,
    later_next_epoch: u64,
)
    requires
        current matches Some(receipt) ==> receipt.witness_epoch < next_epoch,
        0 < next_epoch,
        issue_rule(current, next_epoch, request, expected_epoch) is Advance,
        other.version_id != request.version_id || other.commitment != request.commitment,
    ensures
        issue_rule(
            Some(ReceiptView::issued(request, next_epoch, seed)),
            later_next_epoch,
            other,
            expected_epoch,
        ) == IssueDecision::Conflict,
{
}

/// Every acknowledged epoch is above the head's earlier epoch and above the epoch the
/// caller expected, and stays below the epoch that the next receipt will get.
pub proof fn epochs_increase(
    current: Option<ReceiptView>,
    next_epoch: u64,
    request: RequestView,
    expected_epoch: u64,
)
    requires
        current matches Some(receipt) ==> receipt.witness_epoch < next_epoch,
        0 < next_epoch,
    ensures
        issue_rule(current, next_epoch, request, expected_epoch) matches IssueDecision::Advance {
            epoch,
            next_epoch: following,
        } ==> {
            &&& current matches Some(receipt) ==> receipt.witness_epoch < epoch
            &&& expected_epoch < epoch
            &&& epoch < following
        },
{
}

/// Whether a witness, asked for the head of an object under a challenge, gave a reply.
pub open spec fn head_asked<P: WitnessProvider>(
    asked: &mut P,
    vault_id: Seq<u8>,
    object_id: Seq<u8>,
    challenge: Seq<u8>,
    reply: Result<WitnessHead, VaultError>,
) -> bool {
    exists|vault: VaultId, object: ObjectId, given: [u8; 32]|
        {
            &&& #[trigger] call_ensures(P::object_head, (asked, vault, object, given), reply)
            &&& vault@ == vault_id
            &&& object@ == object_id
            &&& given@ == challenge
        }
}

/// Whether a witness, asked to acknowledge a request at an expected epoch, gave a reply.
pub open spec fn receipt_asked<P: WitnessProvider>(
    asked: &mut P,
    request: RequestView,
    expected_epoch: u64,
    reply: Result<WitnessReceipt, VaultError>,
) -> bool {
    exists|given: &WitnessRequest|
        {
            &&& #[trigger] call_ensures(P::issue_receipt, (asked, given, expected_epoch), reply)
            &&& given@ == request
        }
}

/// What is made of a witness's reply to a head query: its failure unchanged, its head where
/// that answers exactly the query, or a conflict.
pub open spec fn head_reply_verdict(
    reply: Result<WitnessHead, VaultError>,
    vault_id: Seq<u8>,
    object_id: Seq<u8>,
    challenge: Seq<u8>,
) -> Result<WitnessHead, VaultError> {
    match reply {
        Err(error) => Err(error),
        Ok(head) => if head@.answers(vault_id, object_id, challenge) {
            Ok(head)
        } else {
            Err(VaultError::WitnessConflict)
        },
    }
}

/// Asks a witness for an object's head under a fresh random challenge and refuses an
/// answer to any other question. The witness is asked once, about exactly this vault and
/// object, and its reply to that one challenge decides the result.
pub fn fetch_fresh_head<P: WitnessProvider>(
    provider: &mut P,
    vault_id: VaultId,
    object_id: ObjectId,
) -> (res: Result<WitnessHead, VaultError>)
    ensures
        exists|asked: &mut P, challenge: Seq<u8>, reply: Result<WitnessHead, VaultError>|
            {
                &&& #[trigger] head_asked(asked, vault_id@, object_id@, challenge, reply)
                &&& *asked == *old(provider)
                &&& *final(asked) == *final(provider)
                &&& res == head_reply_verdict(reply, vault_id@, object_id@, challenge)
            },
        res matches Ok(head) ==> head@.vault_id == vault_id@ && head@.object_id == object_id@,
{
    let challenge = random_witness_challenge();
    let reply = provider.object_head(vault_id, object_id, challenge);
    proof {
        let asked = choose|asked: &mut P|
            {
                &&& #[trigger] call_ensures(
                    P::object_head,
                    (asked, vault_id, object_id, challenge),
                    reply,
                )
                &&& *asked == *old(provider)
                &&& *final(asked) == *provider
            };
        assert(head_asked(asked, vault_id@, object_id@, challenge@, reply));
    }
    match reply {
        Ok(head) => accept_head(head, vault_id, object_id, &challenge),
        Err(error) => Err(error),
    }
}

/// Accepts a head only as the answer to exactly one query.
pub fn accept_head(
    head: WitnessHead,
    vault_id: VaultId,
    object_id: ObjectId,
    challenge: &[u8; 32],
) -> (res: Result<WitnessHead, VaultError>)
    ensures
        match res {
            Ok(accepted) => accepted == head && head@.answers(vault_id@, object_id@, challenge@),
            Err(error) => {
                &&& !head@.answers(vault_id@, object_id@, challenge@)
                &&& error == VaultError::WitnessConflict
            },
        },
{
    if !head.answers(vault_id, object_id, challenge) {
        return Err(VaultError::WitnessConflict);
    }
    Ok(head)
}

/// What is made of a witness's reply to an issue request: its failure unchanged, its
/// receipt where that acknowledges exactly the request, or the first check that fails.
pub open spec fn receipt_reply_verdict(
    reply: Result<WitnessReceipt, VaultError>,
    request: RequestView,
) -> Result<WitnessReceipt, VaultError> {
    match reply {
        Err(error) => Err(error),
        Ok(receipt) => match receipt@.request_verdict(request) {
            Err(error) => Err(error),
            Ok(_) => Ok(receipt),
        },
    }
}

/// Asks a witness to acknowledge a version and refuses a receipt for anything else. The
/// witness is asked once, with exactly this request and epoch, and its reply decides the
/// result.
pub fn acknowledge<P: WitnessProvider>(
    provider: &mut P,
    request: &WitnessRequest,
    expected_epoch: u64,
) -> (res: Result<WitnessReceipt, VaultError>)
    ensures
        exists|asked: &mut P, reply: Result<WitnessReceipt, VaultError>|
            {
                &&& #[trigger] receipt_asked(asked, request@, expected_epoch, reply)
                &&& *asked == *old(provider)
                &&& *final(asked) == *final(provider)
                &&& res == receipt_reply_verdict(reply, request@)
            },
        res matches Ok(receipt) ==> receipt@.request_verdict(request@) == Ok::<(), VaultError>(()),
{
    let reply = provider.issue_receipt(request, expected_epoch);
    proof {
        let asked = choose|asked: &mut P|
            {
                &&& #[trigger] call_ensures(
                    P::issue_receipt,
                    (asked, request, expected_epoch),
                    reply,
                )
                &&& *asked == *old(provider)
                &&& *final(asked) == *provider
            };
        assert(receipt_asked(asked, request@, expected_epoch, reply));
    }
    match reply {
        Ok(receipt) => accept_receipt(receipt, request),
        Err(error) => Err(error),
    }
}

/// Accepts a receipt only as the acknowledgement of exactly one request.
pub fn accept_receipt(receipt: WitnessReceipt, request: &WitnessRequest) -> (res: Result<
    WitnessReceipt,
    VaultError,
>)
    ensures
        match (res, receipt@.request_verdict(request@)) {
            (Ok(accepted), Ok(_)) => accepted == receipt,
            (Err(error), Err(expected)) => error == expected,
            _ => false,
        },
{
    match receipt.verify_request(request) {
        Ok(_) => Ok(receipt),
        Err(error) => Err(error),
    }
}

/// Deterministic in-process witness for tests and development only.
///
/// This provider is not an external freshness witness and therefore offers no
/// rollback protection against a local attacker who can alter the vault.
pub struct InMemoryTestProvider {
    signing_key: [u8; 32],
    next_epoch: u64,
    heads: Vec<WitnessReceipt>,
}

/// The state of an in-process witness.
pub ghost struct ProviderView {
    pub seed: Seq<u8>,
    pub next_epoch: u64,
    pub heads: Seq<ReceiptView>,
}

/// Whether a receipt belongs to an object's head.
pub open spec fn is_head_of(receipt: ReceiptView, vault_id: Seq<u8>, object_id: Seq<u8>) -> bool {
    receipt.vault_id == vault_id && receipt.object_id == object_id
}

impl ProviderView {
    /// At most one head an object, every head below the next epoch and signed by the seed.
    pub open spec fn well_formed(self) -> bool {
        &&& 0 < self.next_epoch
        &&& forall|i: int|
            0 <= i < self.heads.len() ==> {
                &&& 0 < (#[trigger] self.heads[i]).witness_epoch < self.next_epoch
                &&& self.heads[i].public_key == ed25519_public_key(self.seed)
                &&& self.heads[i].signature_verdict() is Ok
            }
        &&& forall|i: int, j: int|
            #![trigger self.heads[i], self.heads[j]]
            0 <= i < j < self.heads.len() ==> !is_head_of(
                self.heads[i],
                self.heads[j].vault_id,
                self.heads[j].object_id,
            )
    }

    /// The current head of an object: the first that belongs to it.
    pub open spec fn current(self, vault_id: Seq<u8>, object_id: Seq<u8>) -> Option<ReceiptView> {
        if exists|i: int| #![trigger self.heads[i]] self.first_head(i, vault_id, object_id) {
            Some(
                self.heads[choose|i: int|
                    #![trigger self.heads[i]]
                    self.first_head(i, vault_id, object_id)],
            )
        } else {
            None
        }
    }

    /// Whether the head at a position is the first that belongs to an object.
    pub open spec fn first_head(self, i: int, vault_id: Seq<u8>, object_id: Seq<u8>) -> bool {
        &&& 0 <= i < self.heads.len()
        &&& is_head_of(self.heads[i], vault_id, object_id)
        &&& forall|j: int|
            0 <= j < i ==> !is_head_of(#[trigger] self.heads[j], vault_id, object_id)
    }
}

impl View for InMemoryTestProvider {
    type V = ProviderView;

    closed spec fn view(&self) -> ProviderView {
        ProviderView {
            seed: self.signing_key@,
            next_epoch: self.next_epoch,
            heads: Seq::new(self.heads@.len(), |i: int| self.heads@[i]@),
        }
    }
}

impl InMemoryTestProvider {
    /// Creates a development provider with a freshly generated Ed25519 seed.
    #[must_use]
    pub fn random() -> (res: Self)
        ensures
            res@.well_formed(),
            res@.next_epoch == 1,
            res@.heads == Seq::<ReceiptView>::empty(),
    {
        Self::from_seed(random_array())
    }

    /// Creates a development provider from a fixed signing seed.
    #[must_use]
    pub fn from_seed(seed: [u8; 32]) -> (res: Self)
        ensures
            res@.well_formed(),
            res@ == (ProviderView { seed: seed@, next_epoch: 1, heads: Seq::empty() }),
    {
        let res = InMemoryTestProvider { signing_key: seed, next_epoch: 1, heads: Vec::new() };
        assert(res@.heads =~= Seq::<ReceiptView>::empty());
        res
    }

    /// Returns the public key under which this provider signs.
    #[must_use]
    pub fn public_key(&self) -> (res: [u8; 32])
        ensures
            res@ == ed25519_public_key(self@.seed),
    {
        signing_public_key(&self.signing_key)
    }

    fn current_position(&self, vault_id: VaultId, object_id: ObjectId) -> (res: Option<usize>)
        ensures
            match res {
                Some(position) => {
                    &&& position < self.heads@.len()
                    &&& self@.first_head(position as int, vault_id@, object_id@)
                    &&& self@.current(vault_id@, object_id@) == Some(self.heads@[position as int]@)
                },
                None => {
                    &&& self@.current(vault_id@, object_id@) is None
                    &&& forall|i: int|
                        0 <= i < self@.heads.len() ==> !is_head_of(
                            #[trigger] self@.heads[i],
                            vault_id@,
                            object_id@,
                        )
                },
            },
    {
        let mut position: usize = 0;
        while position < self.heads.len()
            invariant
                position <= self.heads@.len(),
                forall|i: int|
                    0 <= i < position ==> !is_head_of(
                        #[trigger] self@.heads[i],
                        vault_id@,
                        object_id@,
                    ),
            decreases self.heads@.len() - position,
        {
            assert(self@.heads[position as int] == self.heads@[position as int]@);
            if self.heads[position].vault_id() == vault_id && self.heads[position].object_id()
                == object_id {
                proof {
                    assert(self@.first_head(position as int, vault_id@, object_id@));
                    let chosen = choose|i: int|
                        #![trigger self@.heads[i]]
                        self@.first_head(i, vault_id@, object_id@);
                    assert(self@.first_head(chosen, vault_id@, object_id@));
                    if chosen < position {
                        assert(!is_head_of(self@.heads[chosen], vault_id@, object_id@));
                    } else if position < chosen {
                        assert(!is_head_of(self@.heads[position as int], vault_id@, object_id@));
                    }
                    assert(chosen == position);
                }
                return Some(position);
            }
            position += 1;
        }
        None
    }
}

impl WitnessProvider for InMemoryTestProvider {
    fn issue_receipt(&mut self, request: &WitnessRequest, expected_epoch: u64) -> (res: Result<
        WitnessReceipt,
        VaultError,
    >)
        ensures
            final(self)@.seed == old(self)@.seed,
            old(self)@.well_formed() ==> final(self)@.well_formed(),
            ({
                let current = old(self)@.current(request@.vault_id, request@.object_id);
                match issue_rule(current, old(self)@.next_epoch, request@, expected_epoch) {
                    IssueDecision::Replay => {
                        &&& final(self)@ == old(self)@
                        &&& res is Ok
                        &&& res->Ok_0@ == current->0
                    },
                    IssueDecision::Advance { epoch, next_epoch } => {
                        &&& final(self)@.next_epoch == next_epoch
                        &&& res is Ok
                        &&& res->Ok_0@ == ReceiptView::issued(request@, epoch, old(self)@.seed)
                        &&& final(self)@.current(request@.vault_id, request@.object_id) == Some(
                            res->Ok_0@,
                        )
                        &&& forall|vault_id: Seq<u8>, object_id: Seq<u8>|
                            vault_id != request@.vault_id || object_id != request@.object_id
                                ==> #[trigger] final(self)@.current(vault_id, object_id) == old(
                                self,
                            )@.current(vault_id, object_id)
                    },
                    IssueDecision::Conflict => {
                        &&& final(self)@ == old(self)@
                        &&& res == Err::<WitnessReceipt, _>(VaultError::WitnessConflict)
                    },
                    IssueDecision::Exhausted => {
                        &&& final(self)@ == old(self)@
                        &&& res == Err::<WitnessReceipt, _>(
                            VaultError::Invariant("witness epoch exhausted"),
                        )
                    },
                }
            }),
    {
        let position = self.current_position(request.vault_id(), request.object_id());
        let decision = match position {
            Some(position) => decide_issue(
                Some(&self.heads[position]),
                self.next_epoch,
                request,
                expected_epoch,
            ),
            None => decide_issue(None, self.next_epoch, request, expected_epoch),
        };
        match decision {
            IssueDecision::Replay => match position {
                Some(position) => Ok(self.heads[position]),
                None => Err(VaultError::WitnessConflict),
            },
            IssueDecision::Advance { epoch, next_epoch } => {
                let ghost before = self@;
                let receipt = WitnessReceipt::issue(request, epoch, &self.signing_key);
                self.next_epoch = next_epoch;
                match position {
                    Some(position) => {
                        self.heads[position] = receipt;
                        proof {
                            assert(self@.heads =~= before.heads.update(position as int, receipt@));
                            lemma_replaced_head(before, self@, position as int, receipt@);
                        }
                    },
                    None => {
                        self.heads.push(receipt);
                        proof {
                            assert(self@.heads =~= before.heads.push(receipt@));
                            lemma_added_head(before, self@, receipt@);
                        }
                    },
                }
                Ok(receipt)
            },
            IssueDecision::Conflict => Err(VaultError::WitnessConflict),
            IssueDecision::Exhausted => Err(VaultError::Invariant("witness epoch exhausted")),
        }
    }

    fn object_head(
        &mut self,
        vault_id: VaultId,
        object_id: ObjectId,
        challenge: [u8; 32],
    ) -> (res: Result<WitnessHead, VaultError>)
        ensures
            final(self)@ == old(self)@,
            res is Ok,
            res->Ok_0@ == HeadView::issued(
                vault_id@,
                object_id@,
                old(self)@.current(vault_id@, object_id@),
                challenge@,
                old(self)@.seed,
            ),
            res->Ok_0@.verdict() == Ok::<(), VaultError>(()),
    {
        let head = match self.current_position(vault_id, object_id) {
            Some(position) => WitnessHead::issue(
                vault_id,
                object_id,
                Some(&self.heads[position]),
                challenge,
                &self.signing_key,
            ),
            None => WitnessHead::issue(vault_id, object_id, None, challenge, &self.signing_key),
        };
        Ok(head)
    }
}

/// The first head of an object is the object's current head.
proof fn lemma_current_is_first(state: ProviderView, i: int, vault_id: Seq<u8>, object_id: Seq<u8>)
    requires
        state.first_head(i, vault_id, object_id),
    ensures
        state.current(vault_id, object_id) == Some(state.heads[i]),
{
    let chosen = choose|k: int|
        #![trigger state.heads[k]]
        state.first_head(k, vault_id, object_id);
    assert(state.first_head(chosen, vault_id, object_id));
    if chosen < i {
        assert(!is_head_of(state.heads[chosen], vault_id, object_id));
    } else if i < chosen {
        assert(!is_head_of(state.heads[i], vault_id, object_id));
    }
}

/// Two states whose heads for one object stand at the same positions agree on its head.
proof fn lemma_same_current(
    before: ProviderView,
    after: ProviderView,
    vault_id: Seq<u8>,
    object_id: Seq<u8>,
)
    requires
        before.heads.len() <= after.heads.len(),
        forall|i: int|
            0 <= i < before.heads.len() ==> {
                ||| #[trigger] after.heads[i] == before.heads[i]
                ||| !is_head_of(after.heads[i], vault_id, object_id) && !is_head_of(
                    before.heads[i],
                    vault_id,
                    object_id,
                )
            },
        forall|i: int|
            before.heads.len() <= i < after.heads.len() ==> !is_head_of(
                #[trigger] after.heads[i],
                vault_id,
                object_id,
            ),
    ensures
        before.current(vault_id, object_id) == after.current(vault_id, object_id),
{
    if exists|i: int| #![trigger before.heads[i]] before.first_head(i, vault_id, object_id) {
        let i = choose|i: int|
            #![trigger before.heads[i]]
            before.first_head(i, vault_id, object_id);
        assert(after.heads[i] == before.heads[i]);
        assert forall|j: int| 0 <= j < i implies !is_head_of(
            #[trigger] after.heads[j],
            vault_id,
            object_id,
        ) by {
            assert(!is_head_of(before.heads[j], vault_id, object_id));
        }
        assert(after.first_head(i, vault_id, object_id));
        lemma_current_is_first(before, i, vault_id, object_id);
        lemma_current_is_first(after, i, vault_id, object_id);
    } else if exists|i: int| #![trigger after.heads[i]] after.first_head(i, vault_id, object_id) {
        let i = choose|i: int|
            #![trigger after.heads[i]]
            after.first_head(i, vault_id, object_id);
        assert(i < before.heads.len());
        assert(after.heads[i] == before.heads[i]);
        assert forall|j: int| 0 <= j < i implies !is_head_of(
            #[trigger] before.heads[j],
            vault_id,
            object_id,
        ) by {
            assert(!is_head_of(after.heads[j], vault_id, object_id));
        }
        assert(before.first_head(i, vault_id, object_id));
    }
}

proof fn lemma_replaced_head(
    before: ProviderView,
    after: ProviderView,
    position: int,
    receipt: ReceiptView,
)
    requires
        before.first_head(position, receipt.vault_id, receipt.object_id),
        after.heads == before.heads.update(position, receipt),
        after.seed == before.seed,
        receipt.witness_epoch == before.next_epoch,
        before.next_epoch < after.next_epoch,
        receipt.public_key == ed25519_public_key(before.seed),
        receipt.signature_verdict() is Ok,
    ensures
        before.well_formed() ==> after.well_formed(),
        after.current(receipt.vault_id, receipt.object_id) == Some(receipt),
        forall|vault_id: Seq<u8>, object_id: Seq<u8>|
            vault_id != receipt.vault_id || object_id != receipt.object_id
                ==> #[trigger] after.current(vault_id, object_id) == before.current(
                vault_id,
                object_id,
            ),
{
    assert(after.first_head(position, receipt.vault_id, receipt.object_id)) by {
        assert forall|j: int| 0 <= j < position implies !is_head_of(
            #[trigger] after.heads[j],
            receipt.vault_id,
            receipt.object_id,
        ) by {
            assert(after.heads[j] == before.heads[j]);
        }
    }
    lemma_current_is_first(after, position, receipt.vault_id, receipt.object_id);
    assert forall|vault_id: Seq<u8>, object_id: Seq<u8>|
        vault_id != receipt.vault_id || object_id != receipt.object_id implies #[trigger] after.current(
        vault_id,
        object_id,
    ) == before.current(vault_id, object_id) by {
        lemma_same_current(before, after, vault_id, object_id);
    }
    if before.well_formed() {
        assert forall|i: int| 0 <= i < after.heads.len() implies {
            &&& 0 < (#[trigger] after.heads[i]).witness_epoch < after.next_epoch
            &&& after.heads[i].public_key == ed25519_public_key(after.seed)
            &&& after.heads[i].signature_verdict() is Ok
        } by {
            if i != position {
                assert(after.heads[i] == before.heads[i]);
            }
        }
        assert forall|i: int, j: int|
            #![trigger after.heads[i], after.heads[j]]
            0 <= i < j < after.heads.len() implies !is_head_of(
            after.heads[i],
            after.heads[j].vault_id,
            after.heads[j].object_id,
        ) by {
            assert(!is_head_of(
                before.heads[i],
                before.heads[j].vault_id,
                before.heads[j].object_id,
            ));
        }
    }
}

proof fn lemma_added_head(before: ProviderView, after: ProviderView, receipt: ReceiptView)
    requires
        forall|i: int|
            0 <= i < before.heads.len() ==> !is_head_of(
                #[trigger] before.heads[i],
                receipt.vault_id,
                receipt.object_id,
            ),
        after.heads == before.heads.push(receipt),
        after.seed == before.seed,
        receipt.witness_epoch == before.next_epoch,
        before.next_epoch < after.next_epoch,
        receipt.public_key == ed25519_public_key(before.seed),
        receipt.signature_verdict() is Ok,
    ensures
        before.well_formed() ==> after.well_formed(),
        after.current(receipt.vault_id, receipt.object_id) == Some(receipt),
        forall|vault_id: Seq<u8>, object_id: Seq<u8>|
            vault_id != receipt.vault_id || object_id != receipt.object_id
                ==> #[trigger] after.current(vault_id, object_id) == before.current(
                vault_id,
                object_id,
            ),
{
    let last = before.heads.len() as int;
    assert(after.first_head(last, receipt.vault_id, receipt.object_id)) by {
        assert forall|j: int| 0 <= j < last implies !is_head_of(
            #[trigger] after.heads[j],
            receipt.vault_id,
            receipt.object_id,
        ) by {
            assert(after.heads[j] == before.heads[j]);
        }
    }
    lemma_current_is_first(after, last, receipt.vault_id, receipt.object_id);
    assert forall|vault_id: Seq<u8>, object_id: Seq<u8>|
        vault_id != receipt.vault_id || object_id != receipt.object_id implies #[trigger] after.current(
        vault_id,
        object_id,
    ) == before.current(vault_id, object_id) by {
        lemma_same_current(before, after, vault_id, object_id);
    }
    if before.well_formed() {
        assert forall|i: int| 0 <= i < after.heads.len() implies {
            &&& 0 < (#[trigger] after.heads[i]).witness_epoch < after.next_epoch
            &&& after.heads[i].public_key == ed25519_public_key(after.seed)
            &&& after.heads[i].signature_verdict() is Ok
        } by {
            if i != last {
                assert(after.heads[i] == before.heads[i]);
            }
        }
        assert forall|i: int, j: int|
            #![trigger after.heads[i], after.heads[j]]
            0 <= i < j < after.heads.len() implies !is_head_of(
            after.heads[i],
            after.heads[j].vault_id,
            after.heads[j].object_id,
        ) by {
            if j < last {
                assert(!is_head_of(
                    before.heads[i],
                    before.heads[j].vault_id,
                    before.heads[j].object_id,
                ));
            }
        }
    }
}

/// What an in-process witness holds for an object is a receipt for exactly this vault and
/// object, and it holds nothing only where it never gave one.
pub proof fn held_heads_belong_to_their_object(
    state: ProviderView,
    vault_id: Seq<u8>,
    object_id: Seq<u8>,
)
    ensures
        match state.current(vault_id, object_id) {
            Some(receipt) => {
                &&& receipt.vault_id == vault_id
                &&& receipt.object_id == object_id
                &&& state.heads.contains(receipt)
            },
            None => forall|i: int|
                0 <= i < state.heads.len() ==> (#[trigger] state.heads[i]).vault_id != vault_id
                    || state.heads[i].object_id != object_id,
        },
{
    if state.current(vault_id, object_id) is None {
        assert forall|i: int| 0 <= i < state.heads.len() implies (
        #[trigger] state.heads[i]).vault_id != vault_id || state.heads[i].object_id
            != object_id by {
            if is_head_of(state.heads[i], vault_id, object_id) {
                lemma_some_head_is_first(state, i, vault_id, object_id);
            }
        }
    } else {
        let i = choose|i: int|
            #![trigger state.heads[i]]
            state.first_head(i, vault_id, object_id);
        assert(state.first_head(i, vault_id, object_id));
    }
}

proof fn lemma_some_head_is_first(
    state: ProviderView,
    i: int,
    vault_id: Seq<u8>,
    object_id: Seq<u8>,
)
    requires
        0 <= i < state.heads.len(),
        is_head_of(state.heads[i], vault_id, object_id),
    ensures
        state.current(vault_id, object_id) is Some,
    decreases i,
{
    if exists|j: int| 0 <= j < i && is_head_of(#[trigger] state.heads[j], vault_id, object_id) {
        let j = choose|j: int|
            0 <= j < i && is_head_of(#[trigger] state.heads[j], vault_id, object_id);
        lemma_some_head_is_first(state, j, vault_id, object_id);
    } else {
        assert(state.first_head(i, vault_id, object_id));
    }
}

/// A reply of a witness is taken exactly where it is the answer to what was asked: a head
/// that answers the query, and a receipt that acknowledges the request. A witness's own error
/// is passed on.
pub proof fn replies_are_taken_for_what_was_asked(
    head: Result<WitnessHead, VaultError>,
    vault_id: Seq<u8>,
    object_id: Seq<u8>,
    challenge: Seq<u8>,
    receipt: Result<WitnessReceipt, VaultError>,
    request: RequestView,
)
    ensures
        head matches Err(error) ==> head_reply_verdict(head, vault_id, object_id, challenge)
            == Err::<WitnessHead, _>(error),
        head matches Ok(given) ==> head_reply_verdict(head, vault_id, object_id, challenge) == if {
            &&& given@.vault_id == vault_id
            &&& given@.object_id == object_id
            &&& given@.challenge == challenge
        } {
            Ok::<WitnessHead, VaultError>(given)
        } else {
            Err(VaultError::WitnessConflict)
        },
        receipt matches Err(error) ==> receipt_reply_verdict(receipt, request) == Err::<
            WitnessReceipt,
            _,
        >(error),
        receipt matches Ok(given) ==> match given@.request_verdict(request) {
            Ok(_) => receipt_reply_verdict(receipt, request) == Ok::<_, VaultError>(given),
            Err(error) => receipt_reply_verdict(receipt, request) == Err::<WitnessReceipt, _>(
                error,
            ),
        },
{
}

} // verus!
