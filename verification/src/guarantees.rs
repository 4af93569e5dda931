//! What the library guarantees of whole operations, stated over what goes in and
//! what comes out: which inputs are accepted, what a later call gives back, and
//! which bytes are encrypted, signed and derived from.
use crate::bytes::{be_bytes, hex_bytes, hex_round_trip, hex_text, lower_hex_is_canonical};
use crate::cde::manifest_decoding;
use crate::crypto::{chunk_context, chunks_transcript, opened, EnvelopeView, KdfParams};
use crate::daemon::{answered, dispatched, failed, open_failure, outcome_view, replies, resource_verdict, vault_failure, Action, DaemonConfig, DaemonView};
use crate::error::VaultError;
use crate::format::{ChunkView, ManifestView, ObjectId, VaultId};
use crate::https_provider::provider_settings;
use crate::primitives::{aead_plaintext, argon2id_output, base64_value, ed25519_verifies, hkdf_sha256, sha256};
use crate::protocol::{ErrorCode, Request, ResponseView, Success, SuccessView};
use crate::provider::{head_asked, issue_rule, receipt_asked, IssueDecision, WitnessProvider};
use crate::reader::{accepted_chunks_are_complete_and_in_order, assembled, chunk_plaintext, chunks_of_rows, metadata_verdict, refused_reads_are_reasons_to_lock, ReadContext};
use crate::storage::{chunk_of_row, envelope_of_row, receipt_of_row, version_of_row, Database, EnvelopeRow, IntegrityReport, StoredObject, TransactionView, VersionView};
use crate::vault::{acknowledged_on_reply, get_verdict, holds, publishes, put_verdict, rotation_verdict, staged_on_reply, stored_value, swept, unlock_verdict, witnessed_receipt, witnessed_verdict, AcknowledgedPublication, ActiveObject, StagedPublication, VaultView};
use crate::witness::{ReceiptView, RequestView, WitnessHead, WitnessReceipt, WitnessRequest};
use crate::writer::version_holds;
use vstd::prelude::*;
use vstd::utf8::encode_utf8;

verus! {

/// What authenticated decryption makes of a Root Key envelope under the Argon2id output of
/// some bytes.
pub open spec fn envelope_opened_with(secret: Seq<u8>, envelope: EnvelopeView) -> Option<Seq<u8>> {
    aead_plaintext(
        argon2id_output(
            secret,
            envelope.salt,
            envelope.params.memory_kib,
            envelope.params.iterations,
            envelope.params.lanes,
        ),
        envelope.record.nonce,
        encode_utf8("VLT1/ROOT\0"@) + envelope.vault_id,
        envelope.record.ciphertext,
    )
}

/// Whether costs are within what Argon2 runs with.
pub open spec fn costs_run(params: KdfParams) -> bool {
    &&& params.memory_kib >= 8
    &&& params.memory_kib >= 8 * params.lanes
    &&& params.iterations >= 1
    &&& 1 <= params.lanes <= 0xff_ffff
}

/// A passphrase counts with all of its characters: it unlocks exactly where its whole UTF-8
/// text, stretched by Argon2id with the envelope's salt and costs, decrypts the envelope to a
/// key of 32 bytes, and that key is then the Root Key. Every other non-empty passphrase
/// fails to unlock.
pub proof fn unlocking_takes_the_whole_passphrase(passphrase: Seq<char>, envelope: EnvelopeView)
    requires
        passphrase.len() > 0,
        encode_utf8(passphrase).len() <= 0xffff_ffff,
        costs_run(envelope.params),
    ensures
        ({
            let decrypted = envelope_opened_with(encode_utf8(passphrase), envelope);
            unlock_verdict(passphrase, envelope) == if decrypted is Some && decrypted->0.len()
                == 32 {
                Ok::<Seq<u8>, VaultError>(decrypted->0)
            } else {
                Err(VaultError::UnlockFailed)
            }
        }),
{
}

/// No two passphrases are stretched from the same bytes.
pub proof fn passphrases_are_stretched_apart(passphrase: Seq<char>, other: Seq<char>)
    ensures
        encode_utf8(passphrase) == encode_utf8(other) <==> passphrase == other,
{
    vstd::utf8::encode_utf8_decode_utf8(passphrase);
    vstd::utf8::encode_utf8_decode_utf8(other);
}

/// An empty passphrase never unlocks, nor does one above the stretching function's limit or
/// an envelope whose costs it cannot run with.
pub proof fn unusable_passphrases_never_unlock(passphrase: Seq<char>, envelope: EnvelopeView)
    requires
        passphrase.len() == 0 || encode_utf8(passphrase).len() > 0xffff_ffff || !costs_run(
            envelope.params,
        ),
    ensures
        unlock_verdict(passphrase, envelope) is Err,
        passphrase.len() == 0 ==> unlock_verdict(passphrase, envelope)->Err_0 is InvalidInput,
{
}

/// A whole write is accepted exactly where the vault is unlocked, the chunk size is from 1 to
/// 2^32 - 1 and the plaintext fits into 2^24 chunks. Every refusal of an unlocked vault is one
/// of the input.
pub proof fn writes_are_accepted_up_to_the_chunk_cap(
    vault: VaultView,
    length: int,
    chunk_size: int,
)
    requires
        0 <= length,
        0 <= chunk_size,
    ensures
        put_verdict(vault, length, chunk_size) is Ok <==> {
            &&& vault.root_key is Some
            &&& 1 <= chunk_size <= 0xffff_ffff
            &&& length <= 16_777_216 * chunk_size
        },
        vault.root_key is None ==> put_verdict(vault, length, chunk_size) == Err::<(), _>(
            VaultError::Locked,
        ),
        vault.root_key is Some && put_verdict(vault, length, chunk_size) is Err ==> put_verdict(
            vault,
            length,
            chunk_size,
        )->Err_0 is InvalidInput,
{
    assert(16_777_216 * chunk_size <= 0xffff_ffff * chunk_size) by (nonlinear_arith)
        requires
            0 <= chunk_size,
    ;
}

/// A failure that leaves stored data, its format or its freshness in doubt takes the Root Key
/// away, and every other failure leaves the vault as it was. Nothing else changes in either
/// case.
pub proof fn doubtful_failures_lock(vault: VaultView, error: VaultError)
    ensures
        ({
            let doubtful = match error {
                VaultError::Locked => false,
                VaultError::UnlockFailed => false,
                VaultError::NotFound => false,
                VaultError::InvalidInput(_) => false,
                _ => true,
            };
            &&& vault.after_error(error).envelope == vault.envelope
            &&& doubtful ==> vault.after_error(error).root_key is None
            &&& !doubtful ==> vault.after_error(error).root_key == vault.root_key
            &&& vault.after(Err::<(), _>(error)) == vault.after_error(error)
            &&& vault.after(Ok::<(), VaultError>(())) == vault
        }),
{
}

/// A rotation is carried out exactly where the current passphrase opens the envelope and the
/// replacement is not empty and within the stretching function's limit. It wraps the Root Key
/// that the current passphrase opened.
pub proof fn rotation_rewraps_the_opened_key(
    current: Seq<char>,
    replacement: Seq<char>,
    envelope: EnvelopeView,
)
    requires
        current.len() > 0,
    ensures
        rotation_verdict(current, replacement, envelope) is Ok <==> {
            &&& unlock_verdict(current, envelope) is Ok
            &&& replacement.len() > 0
            &&& encode_utf8(replacement).len() <= 0xffff_ffff
        },
        rotation_verdict(current, replacement, envelope) is Ok ==> rotation_verdict(
            current,
            replacement,
            envelope,
        ) == unlock_verdict(current, envelope),
{
}

/// Rotation through the daemon shuts nobody out: where a request to rotate is carried out and
/// its envelope is stored, unlocking with exactly the requested replacement succeeds, gives
/// back the Root Key that the current passphrase opened, and every object reads as it did.
pub proof fn rotated_daemon_unlocks_with_the_replacement(
    before: DaemonView,
    rotate: Request,
    rotating: DaemonView,
    action: Action,
    stored: DaemonView,
    unlock: Request,
    after: DaemonView,
    reaction: Action,
    object_id: Seq<u8>,
    object: Option<StoredObject>,
)
    requires
        dispatched(before, rotate, rotating, action),
        action matches Action::StoreEnvelope { envelope } && stored == rotating.with_vault(
            VaultView { envelope: envelope@, root_key: None },
        ),
        rotate matches Request::RotatePassphrase { replacement_passphrase, .. } && (unlock
            matches Request::Unlock { passphrase } && passphrase@ == replacement_passphrase@),
        dispatched(stored, unlock, after, reaction),
    ensures
        after.vault.root_key is Some,
        after.vault.envelope.vault_id == before.vault.envelope.vault_id,
        rotate matches Request::RotatePassphrase { current_passphrase, .. } && (
        current_passphrase@.len() > 0 ==> unlock_verdict(
            current_passphrase@,
            before.vault.envelope,
        ) == Ok::<_, VaultError>(after.vault.root_key->0)),
        before.vault.root_key == after.vault.root_key ==> get_verdict(
            after.vault,
            object_id,
            object,
        ) == get_verdict(before.vault, object_id, object),
        if before.witness is Some {
            reaction is Reconcile
        } else {
            replies(reaction, ResponseView::Success { result: SuccessView::Empty })
        },
{
}

/// A request to rotate from the passphrase that unlocks to any usable replacement is carried
/// out, and one from any other passphrase is answered with an error.
pub proof fn rotation_requests_are_judged_by_the_current_passphrase(
    before: DaemonView,
    request: Request,
    after: DaemonView,
    action: Action,
)
    requires
        dispatched(before, request, after, action),
        request matches Request::RotatePassphrase { current_passphrase, replacement_passphrase }
            && current_passphrase@.len() > 0 && replacement_passphrase@.len() > 0 && encode_utf8(
            replacement_passphrase@,
        ).len() <= 0xffff_ffff,
    ensures
        request matches Request::RotatePassphrase { current_passphrase, .. } && (action
            is StoreEnvelope <==> unlock_verdict(current_passphrase@, before.vault.envelope) is Ok),
        action !is StoreEnvelope ==> (action matches Action::Reply { response } && response@
            is Error),
        action !is StoreEnvelope ==> after.vault.root_key is None || after == before,
        action matches Action::StoreEnvelope { envelope } ==> after == before && envelope@.vault_id
            == before.vault.envelope.vault_id,
{
}

/// An unlock request unlocks exactly where its own passphrase opens the envelope, and leaves
/// the daemon locked otherwise.
pub proof fn unlock_requests_are_judged_by_their_passphrase(
    before: DaemonView,
    request: Request,
    after: DaemonView,
    action: Action,
)
    requires
        dispatched(before, request, after, action),
        request is Unlock,
    ensures
        request matches Request::Unlock { passphrase } && match unlock_verdict(
            passphrase@,
            before.vault.envelope,
        ) {
            Ok(root_key) => after.vault.root_key == Some(root_key) && if before.witness is Some {
                action is Reconcile
            } else {
                replies(action, ResponseView::Success { result: SuccessView::Empty })
            },
            Err(error) => after.vault.root_key is None && replies(
                action,
                ResponseView::Error { error: vault_failure(error) },
            ),
        },
        after.vault.envelope == before.vault.envelope,
        after == before.with_vault(after.vault),
{
}

/// A lock request locks whatever the state was, and changes nothing else.
pub proof fn lock_requests_lock(
    before: DaemonView,
    request: Request,
    after: DaemonView,
    action: Action,
)
    requires
        dispatched(before, request, after, action),
        request is Lock,
    ensures
        after == before.with_vault(
            VaultView { envelope: before.vault.envelope, root_key: None },
        ),
        replies(action, ResponseView::Success { result: SuccessView::Empty }),
{
}

/// What a client puts is what is published: a request that names an object by its hexadecimal
/// text and carries the base64 text of a plaintext leads to a write of exactly that plaintext
/// to exactly that object.
pub proof fn put_requests_carry_their_plaintext_unchanged(
    before: DaemonView,
    request: Request,
    after: DaemonView,
    action: Action,
    object: Seq<u8>,
    sent: Seq<u8>,
)
    requires
        object.len() == 16,
        request matches Request::Put { object_id, plaintext_b64 } && object_id@ == hex_text(object)
            && base64_value(plaintext_b64@) == Some(sent),
        dispatched(before, request, after, action),
    ensures
        after == before,
        action matches Action::Put { object_id, plaintext, witnessed } && object_id@ == object
            && plaintext@ == sent && witnessed == (before.witness is Some),
{
    hex_round_trip(object);
}

/// A read request that names an object by its hexadecimal text leads to a read of exactly
/// that object.
pub proof fn get_requests_name_their_object(
    before: DaemonView,
    request: Request,
    after: DaemonView,
    action: Action,
    object: Seq<u8>,
)
    requires
        object.len() == 16,
        request matches Request::Get { object_id } && object_id@ == hex_text(object),
        dispatched(before, request, after, action),
    ensures
        after == before,
        action matches Action::Get { object_id, witnessed } && object_id@ == object && witnessed
            == (before.witness is Some),
{
    hex_round_trip(object);
}

/// A request whose identifier is not the hexadecimal text of any sixteen bytes, or whose
/// plaintext is not base64, reaches no object: it is answered as invalid input.
pub proof fn malformed_requests_reach_no_object(
    before: DaemonView,
    request: Request,
    after: DaemonView,
    action: Action,
)
    requires
        dispatched(before, request, after, action),
        match request {
            Request::Put { object_id, plaintext_b64 } => base64_value(plaintext_b64@) is None
                || forall|object: Seq<u8>|
                object.len() == 16 ==> object_id@ != #[trigger] hex_text(object),
            Request::Get { object_id } => forall|object: Seq<u8>|
                object.len() == 16 ==> object_id@ != #[trigger] hex_text(object),
            _ => false,
        },
    ensures
        after == before,
        action matches Action::Reply { response } && (response@ matches ResponseView::Error {
            error,
        } && error.code == ErrorCode::InvalidInput),
{
    let text = match request {
        Request::Put { object_id, plaintext_b64 } => object_id@,
        Request::Get { object_id } => object_id@,
        _ => Seq::empty(),
    };
    if crate::bytes::is_lower_hex_text(text, 16) {
        lower_hex_is_canonical(text, 16);
        assert(text == hex_text(hex_bytes(text)));
    }
}

/// A file comes back through the daemon as it was sent: where the write that a put request
/// leads to is published and admitted, and the read that a get request of the same object
/// leads to is served from what the database then holds, the bytes read are the bytes sent.
pub proof fn files_come_back_through_the_daemon(
    before: DaemonView,
    put: Request,
    putting: DaemonView,
    write: Action,
    version_id: Seq<u8>,
    chunk_size: int,
    transaction: TransactionView,
    database: Database,
    get: Request,
    getting: DaemonView,
    read: Action,
    stored: StoredObject,
    object: Seq<u8>,
    sent: Seq<u8>,
)
    requires
        object.len() == 16,
        put matches Request::Put { object_id, plaintext_b64 } && object_id@ == hex_text(object)
            && base64_value(plaintext_b64@) == Some(sent),
        dispatched(before, put, putting, write),
        write matches Action::Put { object_id, plaintext, .. } ==> publishes(
            putting.vault,
            object_id@,
            version_id,
            chunk_size,
            plaintext@,
            transaction,
        ),
        database.consistent(),
        database.admits(transaction),
        get matches Request::Get { object_id } && object_id@ == hex_text(object),
        dispatched(putting, get, getting, read),
        read matches Action::Get { object_id, .. } ==> holds(
            database.after(transaction),
            object_id@,
            stored,
        ),
    ensures
        read matches Action::Get { object_id, .. } && get_verdict(
            getting.vault,
            object_id@,
            Some(stored),
        ) == Ok::<_, VaultError>(sent),
{
    put_requests_carry_their_plaintext_unchanged(before, put, putting, write, object, sent);
    get_requests_name_their_object(putting, get, getting, read, object);
    crate::vault::published_plaintext_is_read_back(
        putting.vault,
        object,
        version_id,
        chunk_size,
        sent,
        transaction,
        database,
        stored,
    );
}

/// Requests for a sweep or a checkpoint are carried out on every unlocked vault and refused
/// on every locked one, a backup goes to exactly the path it names, and a shutdown happens
/// exactly where policy allows it.
pub proof fn maintenance_requests_are_carried_out(
    before: DaemonView,
    request: Request,
    after: DaemonView,
    action: Action,
)
    requires
        dispatched(before, request, after, action),
    ensures
        request is Verify && before.vault.root_key is Some ==> (action matches Action::Verify {
            witnessed,
        } && witnessed == (before.witness is Some)),
        request is Checkpoint && before.vault.root_key is Some ==> action is Checkpoint,
        (request is Verify || request is Checkpoint) && before.vault.root_key is None ==> replies(
            action,
            answered(Err(VaultError::Locked)),
        ),
        request matches Request::Backup { destination } ==> (action matches Action::Backup {
            destination: path,
        } && path@ == destination@),
        request is Shutdown ==> after.shutdown == (before.shutdown || before.allow_shutdown),
        request is Shutdown && before.allow_shutdown ==> replies(
            action,
            ResponseView::Success { result: SuccessView::Empty },
        ),
        request is Shutdown && !before.allow_shutdown ==> (action matches Action::Reply {
            response,
        } && (response@ matches ResponseView::Error { error } && error.code == ErrorCode::Policy)),
        request !is Shutdown ==> after.shutdown == before.shutdown,
        request is Status ==> after == before && (action matches Action::Reply { response } && (
        response@ matches ResponseView::Success { result } && (result matches SuccessView::Status {
            vault_id,
            lifecycle,
            verified_active_objects,
            ..
        } && vault_id == hex_text(before.vault.envelope.vault_id) && (lifecycle == "unlocked"@
            <==> before.vault.root_key is Some) && (lifecycle == "locked"@
            <==> before.vault.root_key is None) && verified_active_objects
            == before.verified_active_objects))),
{
    reveal_strlit("unlocked");
    reveal_strlit("locked");
    assert("unlocked"@.len() != "locked"@.len());
}

/// A client learns from the category of a failure what kind it was: locked, absent, its own
/// input, storage and each side of the witness have their own category, and all failures of
/// verification share one.
pub proof fn failures_are_categorized(error: VaultError)
    ensures
        vault_failure(error).code == match error {
            VaultError::Locked => ErrorCode::Locked,
            VaultError::NotFound => ErrorCode::NotFound,
            VaultError::InvalidInput(_) => ErrorCode::InvalidInput,
            VaultError::Storage => ErrorCode::Storage,
            VaultError::WitnessUnavailable => ErrorCode::WitnessUnavailable,
            VaultError::WitnessConflict => ErrorCode::WitnessConflict,
            _ => ErrorCode::Verification,
        },
{
}

/// A witness goes on: a request that expects the epoch of the current head, or 0 where there
/// is none, is acknowledged at the next epoch, and the one after it follows, as long as the
/// next epoch is below 2^64 - 1.
pub proof fn current_requests_are_acknowledged(
    current: Option<ReceiptView>,
    next_epoch: u64,
    request: RequestView,
    expected_epoch: u64,
)
    requires
        current matches Some(receipt) ==> receipt.witness_epoch == expected_epoch,
        current is None ==> expected_epoch == 0,
    ensures
        next_epoch < 0xffff_ffff_ffff_ffff ==> issue_rule(
            current,
            next_epoch,
            request,
            expected_epoch,
        ) == (IssueDecision::Advance { epoch: next_epoch, next_epoch: (next_epoch + 1) as u64 }),
        next_epoch == 0xffff_ffff_ffff_ffff ==> issue_rule(
            current,
            next_epoch,
            request,
            expected_epoch,
        ) is Exhausted,
{
}

/// A request that expects another epoch than the current head's never advances it: it gets
/// the current receipt again where that receipt came later and is for the same version and
/// commitment, and a conflict otherwise.
pub proof fn other_requests_never_advance(
    current: Option<ReceiptView>,
    next_epoch: u64,
    request: RequestView,
    expected_epoch: u64,
)
    requires
        current matches Some(receipt) ==> receipt.witness_epoch != expected_epoch,
        current is None ==> expected_epoch != 0,
    ensures
        issue_rule(current, next_epoch, request, expected_epoch) == match current {
            Some(receipt) if receipt.version_id == request.version_id && receipt.commitment
                == request.commitment && receipt.witness_epoch > expected_epoch => {
                IssueDecision::Replay
            },
            _ => IssueDecision::Conflict,
        },
{
}

/// The length of the plaintext in the chunk at an index: the chunk size, and what is left
/// for the last chunk.
pub open spec fn piece_length(total: int, size: int, count: int, index: int) -> int {
    if index + 1 < count {
        size
    } else {
        total - index * size
    }
}

proof fn lemma_assembled_pieces(context: ReadContext, chunks: Seq<ChunkView>, length: int)
    requires
        chunks.len() == context.manifest.chunk_count,
        forall|i: int| 0 <= i < chunks.len() ==> (#[trigger] chunks[i]).index == i,
        0 <= length <= chunks.len(),
        assembled(context, chunks.subrange(0, length)) is Ok,
    ensures
        ({
            let front = assembled(context, chunks.subrange(0, length))->Ok_0;
            let size = context.manifest.chunk_size as int;
            let total = context.manifest.plaintext_len as int;
            let count = chunks.len() as int;
            &&& length < count ==> front.len() == length * size
            &&& length == count && 0 < count ==> front.len() == total
            &&& forall|i: int|
                #![trigger chunks[i]]
                0 <= i < length ==> {
                    let held = piece_length(total, size, count, i);
                    &&& 0 <= i * size
                    &&& 0 <= held <= 0xffff_ffff
                    &&& i * size + held <= front.len()
                    &&& opened(
                        context.data_key,
                        chunk_context(
                            context.vault_id,
                            context.object_id,
                            context.version_id,
                            i as u32,
                            held as u32,
                        ),
                        chunks[i].record,
                    ) == Some(front.subrange(i * size, i * size + held))
                }
        }),
    decreases length,
{
    let size = context.manifest.chunk_size as int;
    let total = context.manifest.plaintext_len as int;
    let count = chunks.len() as int;
    if length > 0 {
        let index = length - 1;
        let whole = chunks.subrange(0, length);
        assert(whole.drop_last() =~= chunks.subrange(0, index));
        assert(whole.last() == chunks[index]);
        lemma_assembled_pieces(context, chunks, index);
        let front = assembled(context, chunks.subrange(0, index))->Ok_0;
        let part = chunk_plaintext(context, chunks[index])->Ok_0;
        let joined = assembled(context, whole)->Ok_0;
        assert(joined == front + part);
        assert(context.manifest.chunk_size * (context.manifest.chunk_count - 1) == (count - 1)
            * size) by (nonlinear_arith)
            requires
                context.manifest.chunk_count == count,
                context.manifest.chunk_size == size,
        ;
        assert(length * size == index * size + size) by (nonlinear_arith)
            requires
                index == length - 1,
        ;
        assert(front.len() == index * size);
        assert forall|i: int|
            #![trigger chunks[i]]
            0 <= i < length implies {
            let held = piece_length(total, size, count, i);
            &&& 0 <= i * size
            &&& 0 <= held <= 0xffff_ffff
            &&& i * size + held <= joined.len()
            &&& opened(
                context.data_key,
                chunk_context(
                    context.vault_id,
                    context.object_id,
                    context.version_id,
                    i as u32,
                    held as u32,
                ),
                chunks[i].record,
            ) == Some(joined.subrange(i * size, i * size + held))
        } by {
            let held = piece_length(total, size, count, i);
            assert(0 <= i * size) by (nonlinear_arith)
                requires
                    0 <= i,
                    0 <= size,
            ;
            if i < index {
                assert(joined.subrange(i * size, i * size + held) =~= front.subrange(
                    i * size,
                    i * size + held,
                ));
            } else {
                assert(joined.subrange(i * size, i * size + held) =~= part);
            }
        }
    }
}

/// What is read is authentic down to its last byte. Where an object reads, the vault is
/// unlocked, the version is the object's own, its wrapped key and its manifest decrypt under
/// keys derived from the Root Key and bound to vault, object and version, the manifest agrees
/// with the stored row and with the digest of all chunks, every part of the plaintext is what
/// its own chunk decrypts to in its own context, and a stored receipt is signed for exactly
/// this version.
pub proof fn reads_are_authentic(
    vault: VaultView,
    object_id: Seq<u8>,
    stored: StoredObject,
    plaintext: Seq<u8>,
)
    requires
        get_verdict(vault, object_id, Some(stored)) == Ok::<_, VaultError>(plaintext),
    ensures
        vault.root_key is Some,
        stored.version.object_id@ == object_id,
        stored.version.plaintext_len == plaintext.len(),
        stored.version.chunk_size > 0,
        stored.version.chunk_count == stored.chunks@.len(),
        stored.version.chunk_count <= 16_777_216,
        ({
            let row = stored.version;
            let bound = vault.envelope.vault_id + object_id + row.version_id@;
            let data_key = aead_plaintext(
                hkdf_sha256(vault.envelope.vault_id, vault.root_key->0, encode_utf8("VLT1/KEK"@)),
                row.wrapped_dek_nonce@,
                encode_utf8("VLT1/WRAPPED-DEK\0"@) + bound,
                row.wrapped_dek_ciphertext@,
            );
            let manifest_bytes = aead_plaintext(
                hkdf_sha256(row.version_id@, data_key->0, encode_utf8("VLT1/MANIFEST"@)),
                row.manifest_nonce@,
                encode_utf8("VLT1/MANIFEST\0"@) + bound,
                row.manifest_ciphertext@,
            );
            &&& data_key is Some && data_key->0.len() == 32
            &&& manifest_bytes is Some
            &&& manifest_decoding(manifest_bytes->0) == Ok::<_, VaultError>(
                ManifestView {
                    format_version: 1,
                    object_id,
                    version_id: row.version_id@,
                    plaintext_len: row.plaintext_len,
                    chunk_size: row.chunk_size,
                    chunk_count: row.chunk_count,
                    chunk_digest: sha256(
                        encode_utf8("VLT1/CHUNK-DIGEST\0"@) + chunks_transcript(
                            chunks_of_rows(stored.chunks@),
                        ),
                    ),
                },
            )
            &&& forall|i: int|
                #![trigger stored.chunks@[i]]
                0 <= i < stored.chunks@.len() ==> {
                    let size = row.chunk_size as int;
                    let held = piece_length(
                        plaintext.len() as int,
                        size,
                        stored.chunks@.len() as int,
                        i,
                    );
                    &&& stored.chunks@[i].index == i
                    &&& 0 <= i * size <= i * size + held <= plaintext.len()
                    &&& aead_plaintext(
                        data_key->0,
                        stored.chunks@[i].nonce@,
                        encode_utf8("VLT1/CHUNK\0"@) + bound + be_bytes(i as nat, 4) + be_bytes(
                            held as nat,
                            4,
                        ),
                        stored.chunks@[i].ciphertext@,
                    ) == Some(plaintext.subrange(i * size, i * size + held))
                }
            &&& stored.receipt matches Some(receipt) ==> {
                &&& receipt.vault_id@ == vault.envelope.vault_id
                &&& receipt.object_id@ == object_id
                &&& receipt.version_id@ == row.version_id@
                &&& receipt.commitment@ == sha256(
                    encode_utf8("VLT/1 witness commitment v1"@) + bound + row.manifest_nonce@
                        + be_bytes(row.manifest_ciphertext@.len(), 8) + row.manifest_ciphertext@,
                )
                &&& ed25519_verifies(
                    receipt.public_key@,
                    encode_utf8("VLT/1 witness receipt v1"@) + bound + be_bytes(
                        receipt.witness_epoch as nat,
                        8,
                    ) + receipt.commitment@,
                    receipt.signature@,
                )
            }
        }),
{
    let row = stored.version;
    let vault_id = vault.envelope.vault_id;
    let version_id = row.version_id@;
    let bound = vault_id + object_id + version_id;
    let root_key = vault.root_key->0;
    let context = metadata_verdict(root_key, vault_id, object_id, row, stored.receipt)->Ok_0;
    let chunks = chunks_of_rows(stored.chunks@);
    accepted_chunks_are_complete_and_in_order(root_key, vault_id, object_id, stored);
    assert(chunks.subrange(0, chunks.len() as int) =~= chunks);
    assert forall|i: int| 0 <= i < chunks.len() implies (#[trigger] chunks[i]).index == i by {
        assert(chunks[i] == chunk_of_row(stored.chunks@[i]));
    }
    lemma_assembled_pieces(context, chunks, chunks.len() as int);
    assert(encode_utf8("VLT1/WRAPPED-DEK\0"@) + vault_id + object_id + version_id =~= encode_utf8(
        "VLT1/WRAPPED-DEK\0"@,
    ) + bound);
    assert(encode_utf8("VLT1/MANIFEST\0"@) + vault_id + object_id + version_id =~= encode_utf8(
        "VLT1/MANIFEST\0"@,
    ) + bound);
    assert(context.manifest.chunk_digest == sha256(
        encode_utf8("VLT1/CHUNK-DIGEST\0"@) + chunks_transcript(chunks),
    ));
    assert forall|i: int|
        #![trigger stored.chunks@[i]]
        0 <= i < stored.chunks@.len() implies {
        let size = row.chunk_size as int;
        let held = piece_length(plaintext.len() as int, size, stored.chunks@.len() as int, i);
        &&& stored.chunks@[i].index == i
        &&& 0 <= i * size <= i * size + held <= plaintext.len()
        &&& aead_plaintext(
            context.data_key,
            stored.chunks@[i].nonce@,
            encode_utf8("VLT1/CHUNK\0"@) + bound + be_bytes(i as nat, 4) + be_bytes(held as nat, 4),
            stored.chunks@[i].ciphertext@,
        ) == Some(plaintext.subrange(i * size, i * size + held))
    } by {
        let size = row.chunk_size as int;
        let held = piece_length(plaintext.len() as int, size, stored.chunks@.len() as int, i);
        assert(chunks[i] == chunk_of_row(stored.chunks@[i]));
        assert(chunk_context(vault_id, object_id, version_id, i as u32, held as u32)
            =~= encode_utf8("VLT1/CHUNK\0"@) + bound + be_bytes(i as nat, 4) + be_bytes(
            held as nat,
            4,
        ));
    }
    match stored.receipt {
        Some(receipt) => {
            assert(encode_utf8("VLT/1 witness commitment v1"@) + vault_id + object_id + version_id
                + row.manifest_nonce@ + be_bytes(row.manifest_ciphertext@.len(), 8)
                + row.manifest_ciphertext@ =~= encode_utf8("VLT/1 witness commitment v1"@) + bound
                + row.manifest_nonce@ + be_bytes(row.manifest_ciphertext@.len(), 8)
                + row.manifest_ciphertext@);
            assert(encode_utf8("VLT/1 witness receipt v1"@) + vault_id + object_id + version_id
                + be_bytes(receipt.witness_epoch as nat, 8) + receipt.commitment@ =~= encode_utf8(
                "VLT/1 witness receipt v1"@,
            ) + bound + be_bytes(receipt.witness_epoch as nat, 8) + receipt.commitment@);
        },
        None => {},
    }
}

/// A locked vault reads nothing, and an object without stored rows is not found.
pub proof fn absent_objects_are_not_found(
    vault: VaultView,
    object_id: Seq<u8>,
    stored: Option<StoredObject>,
)
    ensures
        vault.root_key is None ==> get_verdict(vault, object_id, stored) == Err::<Seq<u8>, _>(
            VaultError::Locked,
        ),
        vault.root_key is Some && stored is None ==> get_verdict(vault, object_id, stored) == Err::<
            Seq<u8>,
            _,
        >(VaultError::NotFound),
{
}

/// A written version is cut evenly: as many chunks as its plaintext begins, each one chunk
/// size long but for the last, numbered in order, and none for an empty plaintext.
pub proof fn written_versions_are_cut_evenly(
    root_key: Seq<u8>,
    vault_id: Seq<u8>,
    version: VersionView,
    chunks: Seq<ChunkView>,
    plaintext: Seq<u8>,
)
    requires
        version_holds(root_key, vault_id, version, chunks, plaintext),
    ensures
        version.plaintext_len == plaintext.len(),
        version.chunk_count == chunks.len(),
        plaintext.len() == 0 <==> chunks.len() == 0,
        chunks.len() > 0 ==> (chunks.len() - 1) * version.chunk_size < plaintext.len()
            <= chunks.len() * version.chunk_size,
        forall|i: int|
            0 <= i < chunks.len() ==> {
                &&& (#[trigger] chunks[i]).index == i
                &&& chunks[i].record.nonce.len() == 12
                &&& chunks[i].record.ciphertext.len() == piece_length(
                    plaintext.len() as int,
                    version.chunk_size as int,
                    chunks.len() as int,
                    i,
                ) + 16
            },
{
    let size = version.chunk_size as int;
    let total = plaintext.len() as int;
    let count = chunks.len() as int;
    let data_key = crate::writer::data_key_of(root_key, vault_id, version)->0;
    assert forall|i: int| 0 <= i < count implies {
        &&& (#[trigger] chunks[i]).index == i
        &&& chunks[i].record.nonce.len() == 12
        &&& chunks[i].record.ciphertext.len() == piece_length(total, size, count, i) + 16
    } by {
        crate::writer::lemma_chunk_bounds(total, size, count, i);
        assert(crate::writer::chunk_holds(vault_id, version, data_key, plaintext, i, chunks[i]));
        assert((i + 1) * size == i * size + size) by (nonlinear_arith);
    }
}

/// A refused read locks the vault: whatever is wrong with a stored object, the Root Key does
/// not survive the attempt to read it.
pub proof fn refused_reads_lock_the_vault(
    vault: VaultView,
    object_id: Seq<u8>,
    stored: StoredObject,
)
    requires
        vault.root_key is Some,
        get_verdict(vault, object_id, Some(stored)) is Err,
    ensures
        vault.after(get_verdict(vault, object_id, Some(stored))).root_key is None,
{
    refused_reads_are_reasons_to_lock(
        vault.root_key->0,
        vault.envelope.vault_id,
        object_id,
        stored,
    );
}

/// What is handed to a read is what is read.
pub proof fn stored_objects_stand_for_themselves(stored: StoredObject)
    ensures
        stored_value(Some(&stored)) == Some(stored),
        stored_value(None) is None,
{
}

/// A write that the witness confirms is staged: where the witness answers the query with the
/// state that the vault holds, the plaintext is staged whole for its object against the epoch
/// of the receipt held, or against 0 where there is none, and acknowledgement is asked for
/// exactly this version and the digest of its sealed manifest.
pub proof fn confirmed_writes_are_staged(
    vault: VaultView,
    object_id: ObjectId,
    plaintext: Seq<u8>,
    local: Option<ReceiptView>,
    challenge: Seq<u8>,
    head: WitnessHead,
    res: Result<StagedPublication, VaultError>,
)
    requires
        staged_on_reply(vault, object_id, plaintext, local, challenge, Ok(head), res),
        head@.vault_id == vault.envelope.vault_id,
        head@.object_id == object_id@,
        head@.challenge == challenge,
        match local {
            Some(receipt) => {
                &&& head@.present
                &&& head@.version_id == Some(receipt.version_id)
                &&& head@.witness_epoch == receipt.witness_epoch
                &&& head@.commitment == Some(receipt.commitment)
                &&& head@.public_key == receipt.public_key
            },
            None => !head@.present,
        },
    ensures
        res is Ok,
        ({
            let staged = res->Ok_0;
            let epoch: u64 = match local {
                Some(receipt) => receipt.witness_epoch,
                None => 0,
            };
            &&& staged.object_id == object_id
            &&& staged.expected_epoch == epoch
            &&& staged.request@.vault_id == vault.envelope.vault_id
            &&& staged.request@.object_id == object_id@
            &&& staged.request@.version_id == staged.version_id@
            &&& staged.transaction@ is Stage
            &&& staged.transaction@->Stage_expected_epoch == epoch
            &&& staged.transaction@->Stage_version.object_id == object_id@
            &&& staged.transaction@->Stage_version.version_id == staged.version_id@
            &&& staged.transaction@->Stage_version.plaintext_len == plaintext.len()
            &&& staged.transaction@->Stage_chunks.len()
                == staged.transaction@->Stage_version.chunk_count
            &&& staged.request@.commitment == sha256(
                encode_utf8("VLT/1 witness commitment v1"@) + vault.envelope.vault_id + object_id@
                    + staged.version_id@ + staged.transaction@->Stage_version.manifest.nonce
                    + be_bytes(
                    staged.transaction@->Stage_version.manifest.ciphertext.len(),
                    8,
                ) + staged.transaction@->Stage_version.manifest.ciphertext,
            )
            &&& version_holds(
                vault.root_key->0,
                vault.envelope.vault_id,
                staged.transaction@->Stage_version,
                staged.transaction@->Stage_chunks,
                plaintext,
            )
        }),
{
}

/// A write that the witness does not confirm is never staged: a head for something else, or
/// one that shows another state than the vault holds, is a conflict, and a witness's own
/// error is passed on.
pub proof fn unconfirmed_writes_are_not_staged(
    vault: VaultView,
    object_id: ObjectId,
    plaintext: Seq<u8>,
    local: Option<ReceiptView>,
    challenge: Seq<u8>,
    reply: Result<WitnessHead, VaultError>,
    res: Result<StagedPublication, VaultError>,
)
    requires
        staged_on_reply(vault, object_id, plaintext, local, challenge, reply, res),
    ensures
        reply matches Err(error) ==> res == Err::<StagedPublication, _>(error),
        reply matches Ok(head) ==> (head@.vault_id != vault.envelope.vault_id || head@.object_id
            != object_id@ || head@.challenge != challenge || match local {
            Some(receipt) => !head@.present || head@.version_id != Some(receipt.version_id)
                || head@.witness_epoch != receipt.witness_epoch || head@.commitment != Some(
                receipt.commitment,
            ) || head@.public_key != receipt.public_key,
            None => head@.present,
        }) ==> res == Err::<StagedPublication, _>(VaultError::WitnessConflict),
{
}

/// An acknowledgement is accepted exactly where it is signed for what was asked, and is then
/// kept as it came.
pub proof fn acknowledgements_are_kept_as_they_came(
    request: RequestView,
    reply: Result<WitnessReceipt, VaultError>,
    res: Result<AcknowledgedPublication, VaultError>,
)
    requires
        acknowledged_on_reply(request, reply, res),
    ensures
        res is Ok <==> reply is Ok && reply->Ok_0@.request_verdict(request) is Ok,
        res matches Ok(acknowledged) ==> {
            &&& acknowledged.receipt == reply->Ok_0
            &&& acknowledged.object_id@ == request.object_id
            &&& acknowledged.version_id@ == request.version_id
        },
        reply matches Err(error) ==> res == Err::<AcknowledgedPublication, _>(error),
{
}

/// A sweep that the witness confirms throughout succeeds: where every object has a valid
/// receipt and reads, and every reply answers its query and confirms that receipt, the sweep
/// counts every object.
pub proof fn confirmed_sweeps_succeed<P: WitnessProvider>(
    vault: VaultView,
    objects: Seq<ActiveObject>,
    asked: Seq<&mut P>,
    states: Seq<P>,
    challenges: Seq<Seq<u8>>,
    replies: Seq<Result<WitnessHead, VaultError>>,
    outcome: Result<u64, VaultError>,
)
    requires
        vault.root_key is Some,
        swept(vault, objects, asked, states, challenges, replies, outcome),
        forall|i: int|
            0 <= i < objects.len() ==> {
                &&& version_of_row((#[trigger] objects[i]).stored.version) is Ok
                &&& objects[i].stored.receipt is Some
                &&& receipt_of_row(objects[i].stored.receipt->0) is Ok
                &&& get_verdict(vault, objects[i].object_id@, Some(objects[i].stored)) is Ok
            },
        forall|i: int|
            0 <= i < replies.len() && i < objects.len() ==> {
                let head = (#[trigger] replies[i])->Ok_0@;
                let receipt = receipt_of_row(objects[i].stored.receipt->0)->Ok_0;
                &&& replies[i] is Ok
                &&& head.vault_id == vault.envelope.vault_id
                &&& head.object_id == objects[i].object_id@
                &&& head.challenge == challenges[i]
                &&& head.present
                &&& head.version_id == Some(receipt.version_id)
                &&& head.witness_epoch == receipt.witness_epoch
                &&& head.commitment == Some(receipt.commitment)
                &&& head.public_key == receipt.public_key
            },
    ensures
        outcome matches Ok(count) && count == objects.len(),
{
    if outcome is Err {
        let count = asked.len() as int;
        if count < objects.len() {
            assert(witnessed_receipt(objects[count]) is Ok);
        }
        if count > 0 {
            assert(replies[count - 1] is Ok);
            assert(witnessed_receipt(objects[count - 1]) is Ok);
            assert(witnessed_verdict(
                vault,
                objects[count - 1],
                challenges[count - 1],
                replies[count - 1],
            ) is Ok);
        }
    }
}

/// A daemon opens exactly on a sound database with a readable envelope, with room for at
/// least one connection and some time for it, and with an acceptable witness or none.
pub proof fn daemons_open_on_sound_vaults(
    config: DaemonConfig,
    report: IntegrityReport,
    row: Option<EnvelopeRow>,
)
    ensures
        open_failure(config, report, row) is None <==> {
            &&& config.max_connections > 0
            &&& config.io_timeout_nanos > 0
            &&& report.integrity@ == "ok"@
            &&& !report.foreign_key_violation
            &&& report.dangling_active_versions == 0
            &&& report.dangling_pending_versions == 0
            &&& row is Some && envelope_of_row(row->0) is Ok
            &&& config.witness matches Some(policy) ==> provider_settings(
                policy.endpoint@,
                policy.bearer_token@,
                policy.public_key@,
                None,
                false,
            ) is Ok
        },
        resource_verdict(config.max_connections, config.io_timeout_nanos) is Ok
            <==> config.max_connections > 0 && config.io_timeout_nanos > 0,
{
}

/// A client sees of every outcome what it was: the result itself, or the category and the
/// text of the failure.
pub proof fn outcomes_are_answered_as_they_are(
    result: Success,
    error: VaultError,
    code: ErrorCode,
    message: &'static str,
)
    ensures
        outcome_view(Ok(result)) == Ok::<_, VaultError>(result@),
        outcome_view(Err(error)) == Err::<SuccessView, _>(error),
        answered(Ok(result@)) == (ResponseView::Success { result: result@ }),
        answered(Err(error)) is Error,
        answered(Err(error))->error == vault_failure(error),
        failed(code, message) is Error,
        failed(code, message)->error.code == code,
        failed(code, message)->error.message == message@,
{
}

/// What refuses to unlock or to rotate is told apart: an empty passphrase and unusable costs
/// are invalid input, and everything else is a failed unlock.
pub proof fn refused_unlocks_name_their_fault(
    passphrase: Seq<char>,
    current: Seq<char>,
    replacement: Seq<char>,
    envelope: EnvelopeView,
)
    ensures
        unlock_verdict(passphrase, envelope) matches Err(error) ==> if passphrase.len() == 0
            || !costs_run(envelope.params) {
            error is InvalidInput
        } else {
            error is UnlockFailed
        },
        rotation_verdict(current, replacement, envelope) matches Err(error) ==> if replacement.len()
            == 0 || !costs_run(envelope.params) {
            error is InvalidInput
        } else {
            error is UnlockFailed
        },
        replacement.len() == 0 ==> rotation_verdict(current, replacement, envelope) is Err,
{
}

/// What does not decrypt in its own context is not authentic: where the wrapped key of an
/// object's version does not open, or its manifest does not, the read fails authentication.
pub proof fn undecryptable_objects_are_not_authentic(
    vault: VaultView,
    object_id: Seq<u8>,
    stored: StoredObject,
)
    requires
        vault.root_key is Some,
        version_of_row(stored.version) is Ok,
        stored.version.object_id@ == object_id,
        ({
            let row = stored.version;
            let bound = vault.envelope.vault_id + object_id + row.version_id@;
            let data_key = aead_plaintext(
                hkdf_sha256(vault.envelope.vault_id, vault.root_key->0, encode_utf8("VLT1/KEK"@)),
                row.wrapped_dek_nonce@,
                encode_utf8("VLT1/WRAPPED-DEK\0"@) + bound,
                row.wrapped_dek_ciphertext@,
            );
            data_key is None || (data_key->0.len() == 32 && aead_plaintext(
                hkdf_sha256(row.version_id@, data_key->0, encode_utf8("VLT1/MANIFEST"@)),
                row.manifest_nonce@,
                encode_utf8("VLT1/MANIFEST\0"@) + bound,
                row.manifest_ciphertext@,
            ) is None)
        }),
    ensures
        get_verdict(vault, object_id, Some(stored)) == Err::<Seq<u8>, _>(
            VaultError::Authentication,
        ),
{
    let vault_id = vault.envelope.vault_id;
    let version_id = stored.version.version_id@;
    let bound = vault_id + object_id + version_id;
    assert(encode_utf8("VLT1/WRAPPED-DEK\0"@) + vault_id + object_id + version_id =~= encode_utf8(
        "VLT1/WRAPPED-DEK\0"@,
    ) + bound);
    assert(encode_utf8("VLT1/MANIFEST\0"@) + vault_id + object_id + version_id =~= encode_utf8(
        "VLT1/MANIFEST\0"@,
    ) + bound);
}

/// Failures are told to clients in fixed words.
pub proof fn failures_have_fixed_words(error: VaultError)
    ensures
        vault_failure(error).message == match error {
            VaultError::Locked => "vault is locked"@,
            VaultError::NotFound => "requested object was not found"@,
            VaultError::InvalidInput(_) => "request input is invalid"@,
            VaultError::InvalidFormat(_) => "vault format verification failed"@,
            VaultError::Storage => "vault storage operation failed"@,
            VaultError::WitnessUnavailable => "freshness witness is unavailable"@,
            VaultError::WitnessConflict =>
                "freshness witness state conflicts with local vault state"@,
            _ => "vault verification failed"@,
        },
{
}

/// A daemon whose vault changes is otherwise the same daemon.
pub proof fn only_the_vault_is_replaced(daemon: DaemonView, vault: VaultView)
    ensures
        daemon.with_vault(vault).vault == vault,
        daemon.with_vault(vault).allowed_uid == daemon.allowed_uid,
        daemon.with_vault(vault).allow_shutdown == daemon.allow_shutdown,
        daemon.with_vault(vault).witness == daemon.witness,
        daemon.with_vault(vault).verified_active_objects == daemon.verified_active_objects,
        daemon.with_vault(vault).shutdown == daemon.shutdown,
        vault.locked().root_key is None,
        vault.locked().envelope == vault.envelope,
{
}

/// A status names the format and the vault, and tells whether it is unlocked.
pub proof fn statuses_name_their_vault(daemon: DaemonView)
    ensures
        daemon.status() == (ResponseView::Success {
            result: SuccessView::Status {
                format: "VLT/1"@,
                vault_id: hex_text(daemon.vault.envelope.vault_id),
                lifecycle: if daemon.vault.root_key is Some {
                    "unlocked"@
                } else {
                    "locked"@
                },
                recovery: "startup_integrity_ok"@,
                verified_active_objects: daemon.verified_active_objects,
            },
        }),
{
}

/// A witness is asked about exactly the vault and the object in question, under the very
/// challenge that its answer must carry, and for exactly the acknowledgement that is needed.
pub proof fn witnesses_are_asked_for_what_is_needed<P: WitnessProvider>(
    asked: &mut P,
    vault_id: Seq<u8>,
    object_id: Seq<u8>,
    challenge: Seq<u8>,
    head: Result<WitnessHead, VaultError>,
    request: RequestView,
    expected_epoch: u64,
    receipt: Result<WitnessReceipt, VaultError>,
)
    ensures
        head_asked(asked, vault_id, object_id, challenge, head) ==> exists|
            vault: VaultId,
            object: ObjectId,
            given: [u8; 32],
        |
            {
                &&& #[trigger] call_ensures(P::object_head, (asked, vault, object, given), head)
                &&& vault@ == vault_id
                &&& object@ == object_id
                &&& given@ == challenge
            },
        receipt_asked(asked, request, expected_epoch, receipt) ==> exists|given: &WitnessRequest|
            {
                &&& #[trigger] call_ensures(
                    P::issue_receipt,
                    (asked, given, expected_epoch),
                    receipt,
                )
                &&& given@ == request
            },
{
}

/// A sweep asks the witness about every object it has counted, each under its own challenge
/// and in turn, and a locked vault asks nothing.
pub proof fn sweeps_ask_about_every_object<P: WitnessProvider>(
    vault: VaultView,
    objects: Seq<ActiveObject>,
    asked: Seq<&mut P>,
    states: Seq<P>,
    challenges: Seq<Seq<u8>>,
    replies: Seq<Result<WitnessHead, VaultError>>,
    outcome: Result<u64, VaultError>,
)
    requires
        swept(vault, objects, asked, states, challenges, replies, outcome),
    ensures
        vault.root_key is None ==> asked.len() == 0 && outcome == Err::<u64, _>(
            VaultError::Locked,
        ),
        outcome is Ok ==> asked.len() == objects.len(),
        asked.len() <= objects.len() || vault.root_key is None,
        states.len() == asked.len() + 1,
        vault.root_key is Some ==> forall|i: int|
            #![trigger asked[i]]
            0 <= i < asked.len() ==> {
                &&& *asked[i] == states[i]
                &&& head_asked(
                    asked[i],
                    vault.envelope.vault_id,
                    objects[i].object_id@,
                    challenges[i],
                    replies[i],
                )
            },
{
}

} // verus!
