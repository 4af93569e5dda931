//! The local daemon: who is served, what each request leads to and what is
//! answered.
//!
//! A request is first dispatched to an action. Actions that need stored rows, a
//! witness or a file are carried out by the caller, whose outcome is then turned
//! into the response. Root Key, KEK and DEK material never enters a response.
use crate::backup::BackupManifest;
use crate::bytes::{hex_bytes, hex_text, is_lower_hex_text, lower_hex_decode};
use crate::crypto::{unwrapped_root_key, RootEnvelope};
use crate::error::VaultError;
use crate::format::{ObjectId, VersionId};
use crate::https_provider::{provider_settings, HttpsProviderView, HttpsWitnessProvider};
use crate::primitives::{base64_decode, base64_encode, base64_text, base64_value};
use crate::protocol::{ErrorCode, Failure, FailureView, Request, Response, ResponseView, Success, SuccessView};
use crate::provider::WitnessProvider;
use crate::storage::{CheckpointReport, EnvelopeRow, IntegrityReport, StoredObject};
use crate::vault::{get_verdict, rotation_verdict, stored_value, swept, unlock_verdict, ActiveObject, Recovery, Vault, VaultStatus, VaultView};
use crate::witness::WitnessHead;
use vstd::prelude::*;

verus! {

/// Connections admitted at a time unless configured otherwise.
pub const DEFAULT_MAX_CONNECTIONS: usize = 32;

/// Read and write deadline of a connection unless configured otherwise, in nanoseconds.
pub const DEFAULT_IO_TIMEOUT_NANOS: u128 = 5_000_000_000;

/// Longest plaintext whose base64 text fits in one allocation.
pub const MAX_ENCODABLE_BYTES: usize = usize::MAX / 8 * 3;

/// `std::path::PathBuf`: a path that the library carries and never looks into.
#[verifier::external_type_specification]
#[verifier::external_body]
pub struct ExPathBuf(std::path::PathBuf);

/// Pinned authentication material for one external freshness witness.
#[derive(Clone, Debug)]
pub struct WitnessConfig {
    /// Canonical HTTPS witness endpoint without a trailing path.
    pub endpoint: String,
    /// High-entropy request authorization credential.
    pub bearer_token: String,
    /// Independently provisioned Ed25519 verification key pinned by the daemon.
    pub public_key: [u8; 32],
}

/// Why a witness policy is refused.
#[derive(Clone, Copy, Debug, PartialEq, Eq, Structural)]
pub enum WitnessConfigError {
    /// Only some of endpoint, token file and public key file were supplied.
    Incomplete,
    /// The public key is not 64 lowercase hexadecimal characters.
    PublicKey,
}

impl WitnessConfigError {
    /// Returns the message for an operator.
    pub fn message(&self) -> (res: &'static str)
        ensures
            res == match *self {
                WitnessConfigError::Incomplete =>
                    "witness endpoint, token file and public key file must be supplied together",
                WitnessConfigError::PublicKey =>
                    "witness public key must be 64 lowercase hexadecimal characters",
            },
    {
        match self {
            WitnessConfigError::Incomplete =>
                "witness endpoint, token file and public key file must be supplied together",
            WitnessConfigError::PublicKey =>
                "witness public key must be 64 lowercase hexadecimal characters",
        }
    }
}

/// Parses a 32-byte key from lowercase hexadecimal text.
pub fn parse_hex32(value: &str) -> (res: Result<[u8; 32], WitnessConfigError>)
    ensures
        match res {
            Ok(bytes) => is_lower_hex_text(value@, 32) && bytes@ == hex_bytes(value@),
            Err(error) => {
                &&& !is_lower_hex_text(value@, 32)
                &&& error == WitnessConfigError::PublicKey
            },
        },
{
    match lower_hex_decode::<32>(value) {
        Some(bytes) => Ok(bytes),
        None => Err(WitnessConfigError::PublicKey),
    }
}

/// Decides whether a witness is configured: all three settings are given, or none is.
pub fn witness_requested(endpoint: bool, token_file: bool, public_key_file: bool) -> (res: Result<
    bool,
    WitnessConfigError,
>)
    ensures
        res == if endpoint && token_file && public_key_file {
            Ok::<bool, WitnessConfigError>(true)
        } else if !endpoint && !token_file && !public_key_file {
            Ok(false)
        } else {
            Err(WitnessConfigError::Incomplete)
        },
{
    if endpoint && token_file && public_key_file {
        Ok(true)
    } else if !endpoint && !token_file && !public_key_file {
        Ok(false)
    } else {
        Err(WitnessConfigError::Incomplete)
    }
}

impl WitnessConfig {
    /// Builds a policy from an endpoint, a token and the text of a public key file.
    pub fn from_secrets(endpoint: String, bearer_token: String, public_key_text: &str) -> (res:
        Result<Self, WitnessConfigError>)
        ensures
            ({
                let key_text = crate::text::trimmed(public_key_text@);
                match res {
                    Ok(config) => {
                        &&& is_lower_hex_text(key_text, 32)
                        &&& config.endpoint == endpoint
                        &&& config.bearer_token == bearer_token
                        &&& config.public_key@ == hex_bytes(key_text)
                    },
                    Err(error) => {
                        &&& !is_lower_hex_text(key_text, 32)
                        &&& error == WitnessConfigError::PublicKey
                    },
                }
            }),
    {
        let public_key = parse_hex32(crate::text::trim(public_key_text))?;
        Ok(WitnessConfig { endpoint, bearer_token, public_key })
    }
}

/// Runtime configuration for one daemon-owned vault.
#[derive(Debug)]
pub struct DaemonConfig {
    /// Local Unix-domain socket path.
    pub socket_path: std::path::PathBuf,
    /// Persistent database path.
    pub vault_path: std::path::PathBuf,
    /// User permitted by the peer-credential check.
    pub allowed_uid: u32,
    /// Enables the test/maintenance `shutdown` request.
    pub allow_shutdown: bool,
    /// Optional independently operated external freshness witness policy.
    pub witness: Option<WitnessConfig>,
    /// Maximum concurrently admitted local socket connections.
    pub max_connections: usize,
    /// Nonzero read and write deadline of every admitted connection, in nanoseconds.
    pub io_timeout_nanos: u128,
}

/// The verdict on the resource limits of a configuration.
pub open spec fn resource_verdict(max_connections: usize, io_timeout_nanos: u128) -> Result<
    (),
    VaultError,
> {
    if max_connections == 0 || io_timeout_nanos == 0 {
        Err(VaultError::InvalidInput("daemon resource configuration"))
    } else {
        Ok(())
    }
}

impl DaemonConfig {
    /// Builds a local configuration for one user.
    #[must_use]
    pub fn for_current_user(
        socket_path: std::path::PathBuf,
        vault_path: std::path::PathBuf,
        current_uid: u32,
    ) -> (res: Self)
        ensures
            res == (DaemonConfig {
                socket_path,
                vault_path,
                allowed_uid: current_uid,
                allow_shutdown: false,
                witness: None,
                max_connections: 32,
                io_timeout_nanos: 5_000_000_000,
            }),
            resource_verdict(res.max_connections, res.io_timeout_nanos) is Ok,
    {
        DaemonConfig {
            socket_path,
            vault_path,
            allowed_uid: current_uid,
            allow_shutdown: false,
            witness: None,
            max_connections: DEFAULT_MAX_CONNECTIONS,
            io_timeout_nanos: DEFAULT_IO_TIMEOUT_NANOS,
        }
    }

    /// Rejects a configuration without connections or without a deadline.
    pub fn check_resources(&self) -> (res: Result<(), VaultError>)
        ensures
            res == resource_verdict(self.max_connections, self.io_timeout_nanos),
    {
        if self.max_connections == 0 || self.io_timeout_nanos == 0 {
            return Err(VaultError::InvalidInput("daemon resource configuration"));
        }
        Ok(())
    }
}

/// The number of admitted connections, bounded by a limit.
pub struct Admission {
    limit: usize,
    active: usize,
}

impl Admission {
    /// The largest number of connections.
    pub closed spec fn limit(&self) -> usize {
        self.limit
    }

    /// The connections that are admitted now.
    pub closed spec fn active(&self) -> usize {
        self.active
    }

    /// Whether no more than the limit are admitted.
    pub open spec fn well_formed(&self) -> bool {
        self.active() <= self.limit()
    }

    /// Starts without a connection.
    #[must_use]
    pub fn new(limit: usize) -> (res: Self)
        ensures
            res.well_formed(),
            res.limit() == limit,
            res.active() == 0,
    {
        Admission { limit, active: 0 }
    }

    /// Admits one more connection where the limit allows it.
    pub fn try_acquire_connection(&mut self) -> (res: bool)
        requires
            old(self).well_formed(),
        ensures
            final(self).well_formed(),
            final(self).limit() == old(self).limit(),
            res == (old(self).active() < old(self).limit()),
            final(self).active() == if res {
                old(self).active() + 1
            } else {
                old(self).active() as int
            },
    {
        if self.active >= self.limit {
            return false;
        }
        self.active += 1;
        true
    }

    /// Gives a connection back.
    pub fn release_connection(&mut self)
        requires
            old(self).well_formed(),
            old(self).active() > 0,
        ensures
            final(self).well_formed(),
            final(self).limit() == old(self).limit(),
            final(self).active() == old(self).active() - 1,
    {
        self.active -= 1;
    }
}

/// What is to be done at the path of the daemon's socket.
#[derive(Clone, Copy, Debug, PartialEq, Eq, Structural)]
pub enum SocketPath {
    /// Nothing is there: bind.
    Bind,
    /// A left-over socket is removed first.
    Replace,
    /// Something else is there and stays.
    Refuse,
}

/// Decides how the socket's path is taken over. A path that is not a socket is never
/// replaced.
pub fn socket_path_decision(occupied: bool, is_socket: bool) -> (res: SocketPath)
    ensures
        res == if !occupied {
            SocketPath::Bind
        } else if is_socket {
            SocketPath::Replace
        } else {
            SocketPath::Refuse
        },
{
    if !occupied {
        SocketPath::Bind
    } else if is_socket {
        SocketPath::Replace
    } else {
        SocketPath::Refuse
    }
}

/// The response to a failure.
pub open spec fn failed(code: ErrorCode, message: &'static str) -> ResponseView {
    ResponseView::Error { error: FailureView { code, message: message@ } }
}

fn failure(code: ErrorCode, message: &'static str) -> (res: Failure)
    ensures
        res@ == (FailureView { code, message: message@ }),
{
    Failure { code, message: message.to_string() }
}

fn failure_response(code: ErrorCode, message: &'static str) -> (res: Response)
    ensures
        res@ == failed(code, message),
{
    Response::Error { error: failure(code, message) }
}

/// The category and safe message of a vault error.
pub open spec fn vault_failure(error: VaultError) -> FailureView {
    match error {
        VaultError::Locked => FailureView { code: ErrorCode::Locked, message: "vault is locked"@ },
        VaultError::NotFound => FailureView {
            code: ErrorCode::NotFound,
            message: "requested object was not found"@,
        },
        VaultError::InvalidInput(_) => FailureView {
            code: ErrorCode::InvalidInput,
            message: "request input is invalid"@,
        },
        VaultError::UnlockFailed => FailureView {
            code: ErrorCode::Verification,
            message: "vault verification failed"@,
        },
        VaultError::Authentication => FailureView {
            code: ErrorCode::Verification,
            message: "vault verification failed"@,
        },
        VaultError::Invariant(_) => FailureView {
            code: ErrorCode::Verification,
            message: "vault verification failed"@,
        },
        VaultError::InvalidFormat(_) => FailureView {
            code: ErrorCode::Verification,
            message: "vault format verification failed"@,
        },
        VaultError::Storage => FailureView {
            code: ErrorCode::Storage,
            message: "vault storage operation failed"@,
        },
        VaultError::WitnessUnavailable => FailureView {
            code: ErrorCode::WitnessUnavailable,
            message: "freshness witness is unavailable"@,
        },
        VaultError::WitnessConflict => FailureView {
            code: ErrorCode::WitnessConflict,
            message: "freshness witness state conflicts with local vault state"@,
        },
    }
}

/// Maps a vault error to its category and safe message.
pub fn map_vault_error(error: &VaultError) -> (res: Failure)
    ensures
        res@ == vault_failure(*error),
{
    match error {
        VaultError::Locked => failure(ErrorCode::Locked, "vault is locked"),
        VaultError::NotFound => failure(ErrorCode::NotFound, "requested object was not found"),
        VaultError::InvalidInput(_) => failure(ErrorCode::InvalidInput, "request input is invalid"),
        VaultError::UnlockFailed | VaultError::Authentication | VaultError::Invariant(_) => failure(
            ErrorCode::Verification,
            "vault verification failed",
        ),
        VaultError::InvalidFormat(_) => failure(
            ErrorCode::Verification,
            "vault format verification failed",
        ),
        VaultError::Storage => failure(ErrorCode::Storage, "vault storage operation failed"),
        VaultError::WitnessUnavailable => failure(
            ErrorCode::WitnessUnavailable,
            "freshness witness is unavailable",
        ),
        VaultError::WitnessConflict => failure(
            ErrorCode::WitnessConflict,
            "freshness witness state conflicts with local vault state",
        ),
    }
}

/// The response to an outcome.
pub open spec fn answered(outcome: Result<SuccessView, VaultError>) -> ResponseView {
    match outcome {
        Ok(result) => ResponseView::Success { result },
        Err(error) => ResponseView::Error { error: vault_failure(error) },
    }
}

/// The contents of an outcome.
pub open spec fn outcome_view(outcome: Result<Success, VaultError>) -> Result<
    SuccessView,
    VaultError,
> {
    match outcome {
        Ok(result) => Ok(result@),
        Err(error) => Err(error),
    }
}

/// Answers a connection above the limit.
pub fn overloaded_response() -> (res: Response)
    ensures
        res@ == failed(ErrorCode::Overloaded, "daemon connection limit reached"),
{
    failure_response(ErrorCode::Overloaded, "daemon connection limit reached")
}

/// Answers where the daemon's own state cannot be used.
pub fn unavailable_response() -> (res: Response)
    ensures
        res@ == failed(ErrorCode::Internal, "daemon state is unavailable"),
{
    failure_response(ErrorCode::Internal, "daemon state is unavailable")
}

/// Parses a 32-character lowercase hexadecimal object identifier.
pub fn parse_object_id(text: &str) -> (res: Result<ObjectId, Response>)
    ensures
        match res {
            Ok(object_id) => is_lower_hex_text(text@, 16) && object_id@ == hex_bytes(text@),
            Err(response) => {
                &&& !is_lower_hex_text(text@, 16)
                &&& response@ == failed(
                    ErrorCode::InvalidInput,
                    "object identifier must be 32 hexadecimal characters",
                )
            },
        },
{
    match lower_hex_decode::<16>(text) {
        Some(bytes) => match ObjectId::from_slice(bytes.as_slice()) {
            Ok(object_id) => Ok(object_id),
            Err(_) => Err(
                failure_response(ErrorCode::InvalidInput, "object identifier is malformed"),
            ),
        },
        None => Err(
            failure_response(
                ErrorCode::InvalidInput,
                "object identifier must be 32 hexadecimal characters",
            ),
        ),
    }
}

/// The result of a published version.
pub fn published(version_id: VersionId) -> (res: Success)
    ensures
        res@ == (SuccessView::Published { version_id: hex_text(version_id@) }),
{
    Success::Published { version_id: version_id.to_hex() }
}

/// The result of a verified read.
pub fn plaintext_result(plaintext: &[u8]) -> (res: Success)
    requires
        plaintext@.len() <= MAX_ENCODABLE_BYTES,
    ensures
        res@ == (SuccessView::Plaintext { plaintext_b64: base64_text(plaintext@) }),
        base64_value(base64_text(plaintext@)) == Some(plaintext@),
{
    Success::Plaintext { plaintext_b64: base64_encode(plaintext) }
}

/// The result of a backup.
pub fn backup_result(manifest: &BackupManifest) -> (res: Success)
    ensures
        res@ == (SuccessView::Backup {
            format: manifest@.format,
            database_sha256: manifest@.database_sha256,
            database_bytes: manifest@.database_bytes,
        }),
{
    Success::Backup {
        format: manifest.format().to_string(),
        database_sha256: manifest.database_sha256().to_string(),
        database_bytes: manifest.database_bytes(),
    }
}

/// What a dispatched request leads to.
#[allow(inconsistent_fields)]
pub enum Action {
    /// The request is answered.
    Reply {
        /// The answer.
        response: Response,
    },
    /// The vault was unlocked under a witness policy: pending publications are to be
    /// recovered and every active object is to be verified with the witness.
    Reconcile,
    /// A plaintext is to be published.
    Put {
        /// Object to write.
        object_id: ObjectId,
        /// What to write.
        plaintext: Vec<u8>,
        /// Whether it is published only with a receipt of the witness.
        witnessed: bool,
    },
    /// An object is to be read.
    Get {
        /// Object to read.
        object_id: ObjectId,
        /// Whether every active object is verified with the witness first.
        witnessed: bool,
    },
    /// A rotated envelope is to be stored.
    StoreEnvelope {
        /// The envelope.
        envelope: RootEnvelope,
    },
    /// Every active object is to be verified.
    Verify {
        /// Whether it is verified with the witness.
        witnessed: bool,
    },
    /// A checkpoint is to be run.
    Checkpoint,
    /// A backup is to be made.
    Backup {
        /// New path of the backup.
        destination: String,
    },
}

/// A daemon that owns one vault.
pub struct Daemon {
    /// The vault.
    pub vault: Vault,
    allowed_uid: u32,
    allow_shutdown: bool,
    witness: Option<HttpsWitnessProvider>,
    verified_active_objects: Option<u64>,
    shutdown: bool,
}

/// The state of a daemon.
pub ghost struct DaemonView {
    pub vault: VaultView,
    pub allowed_uid: u32,
    pub allow_shutdown: bool,
    pub witness: Option<HttpsProviderView>,
    pub verified_active_objects: Option<u64>,
    pub shutdown: bool,
}

impl View for Daemon {
    type V = DaemonView;

    closed spec fn view(&self) -> DaemonView {
        DaemonView {
            vault: self.vault@,
            allowed_uid: self.allowed_uid,
            allow_shutdown: self.allow_shutdown,
            witness: match self.witness {
                Some(witness) => Some(witness@),
                None => None,
            },
            verified_active_objects: self.verified_active_objects,
            shutdown: self.shutdown,
        }
    }
}

impl DaemonView {
    /// The same daemon with its vault in another state.
    pub open spec fn with_vault(self, vault: VaultView) -> DaemonView {
        DaemonView { vault, ..self }
    }

    /// What a status request is answered.
    pub open spec fn status(self) -> ResponseView {
        ResponseView::Success {
            result: SuccessView::Status {
                format: "VLT/1"@,
                vault_id: hex_text(self.vault.envelope.vault_id),
                lifecycle: if self.vault.root_key is Some {
                    "unlocked"@
                } else {
                    "locked"@
                },
                recovery: "startup_integrity_ok"@,
                verified_active_objects: self.verified_active_objects,
            },
        }
    }
}

/// Whether an action answers with a response.
pub open spec fn replies(action: Action, response: ResponseView) -> bool {
    action matches Action::Reply { response: given } && given@ == response
}

impl Daemon {
    /// Opens a stored vault in the locked daemon state and checks the witness policy.
    pub fn open(config: &DaemonConfig, report: &IntegrityReport, row: Option<EnvelopeRow>) -> (res:
        Result<Self, VaultError>)
        ensures
            res matches Ok(daemon) ==> {
                &&& resource_verdict(config.max_connections, config.io_timeout_nanos) is Ok
                &&& row is Some
                &&& crate::storage::envelope_of_row(row->0) == Ok::<_, VaultError>(
                    daemon@.vault.envelope,
                )
                &&& daemon@.vault.root_key is None
                &&& daemon@.allowed_uid == config.allowed_uid
                &&& daemon@.allow_shutdown == config.allow_shutdown
                &&& daemon@.verified_active_objects is None
                &&& !daemon@.shutdown
                &&& match config.witness {
                    None => daemon@.witness is None,
                    Some(policy) => {
                        &&& daemon@.witness is Some
                        &&& provider_settings(
                            policy.endpoint@,
                            policy.bearer_token@,
                            policy.public_key@,
                            None,
                            false,
                        ) == Ok::<_, VaultError>(daemon@.witness->0)
                    },
                }
            },
            res matches Err(error) ==> open_failure(*config, *report, row) == Some(error),
            res is Ok ==> open_failure(*config, *report, row) is None,
    {
        config.check_resources()?;
        let vault = Vault::open(report, row)?;
        let witness = match &config.witness {
            Some(policy) => Some(
                HttpsWitnessProvider::new(
                    policy.endpoint.as_str(),
                    policy.bearer_token.as_str(),
                    policy.public_key,
                )?,
            ),
            None => None,
        };
        Ok(
            Daemon {
                vault,
                allowed_uid: config.allowed_uid,
                allow_shutdown: config.allow_shutdown,
                witness,
                verified_active_objects: None,
                shutdown: false,
            },
        )
    }

    /// Returns the settings of the configured witness.
    #[must_use]
    pub fn witness(&self) -> (res: Option<&HttpsWitnessProvider>)
        ensures
            match res {
                Some(witness) => self@.witness == Some(witness@),
                None => self@.witness is None,
            },
    {
        self.witness.as_ref()
    }

    /// Returns whether data is published, read and verified only with a witness.
    #[must_use]
    pub fn under_witness(&self) -> (res: bool)
        ensures
            res == (self@.witness is Some),
    {
        self.witness.is_some()
    }

    /// Returns whether an authorised shutdown has been requested.
    #[must_use]
    pub fn shutdown_requested(&self) -> (res: bool)
        ensures
            res == self@.shutdown,
    {
        self.shutdown
    }

    /// Decides whether a peer is served. `peer_uid` is nothing where its credentials could
    /// not be read.
    #[must_use]
    pub fn authorize(&self, peer_uid: Option<u32>) -> (res: bool)
        ensures
            res == (peer_uid == Some(self@.allowed_uid)),
    {
        match peer_uid {
            Some(uid) => uid == self.allowed_uid,
            None => false,
        }
    }

    /// Returns the answer to a status request.
    #[must_use]
    pub fn status(&self) -> (res: Response)
        ensures
            res@ == self@.status(),
    {
        let lifecycle = match self.vault.status() {
            VaultStatus::Locked => "locked",
            VaultStatus::Unlocked => "unlocked",
        };
        Response::Success {
            result: Success::Status {
                format: "VLT/1".to_string(),
                vault_id: self.vault.vault_id().to_hex(),
                lifecycle: lifecycle.to_string(),
                recovery: "startup_integrity_ok".to_string(),
                verified_active_objects: self.verified_active_objects,
            },
        }
    }

    /// Takes one request of a connection. A peer that is not authorized is told so, and so
    /// is one whose request could not be read; otherwise the request is dispatched.
    pub fn exchange(&mut self, peer_uid: Option<u32>, request: Option<Request>) -> (res: Action)
        ensures
            peer_uid != Some(old(self)@.allowed_uid) ==> {
                &&& final(self)@ == old(self)@
                &&& replies(
                    res,
                    failed(ErrorCode::Unauthorized, "local peer is not authorized"),
                )
            },
            peer_uid == Some(old(self)@.allowed_uid) && request is None ==> {
                &&& final(self)@ == old(self)@
                &&& replies(res, failed(ErrorCode::Protocol, "invalid local protocol request"))
            },
            peer_uid == Some(old(self)@.allowed_uid) && request is Some ==> dispatched(
                old(self)@,
                request->0,
                final(self)@,
                res,
            ),
    {
        if !self.authorize(peer_uid) {
            return Action::Reply {
                response: failure_response(
                    ErrorCode::Unauthorized,
                    "local peer is not authorized",
                ),
            };
        }
        match request {
            Some(request) => self.dispatch(request),
            None => Action::Reply {
                response: failure_response(
                    ErrorCode::Protocol,
                    "invalid local protocol request",
                ),
            },
        }
    }

    /// Dispatches one request of an authorized peer.
    pub fn dispatch(&mut self, request: Request) -> (res: Action)
        ensures
            dispatched(old(self)@, request, final(self)@, res),
    {
        match request {
            Request::Status => Action::Reply { response: self.status() },
            Request::Unlock { passphrase } => self.unlock(passphrase.as_str()),
            Request::Lock => {
                self.vault.lock();
                Action::Reply { response: Response::Success { result: Success::Empty } }
            },
            Request::Put { object_id, plaintext_b64 } => put_action(
                object_id.as_str(),
                plaintext_b64.as_str(),
                self.under_witness(),
            ),
            Request::Get { object_id } => match parse_object_id(object_id.as_str()) {
                Ok(object_id) => Action::Get { object_id, witnessed: self.under_witness() },
                Err(response) => Action::Reply { response },
            },
            Request::RotatePassphrase { current_passphrase, replacement_passphrase } => {
                match self.vault.rotate_passphrase(
                    current_passphrase.as_str(),
                    replacement_passphrase.as_str(),
                ) {
                    Ok(envelope) => Action::StoreEnvelope { envelope },
                    Err(error) => Action::Reply {
                        response: Response::Error { error: map_vault_error(&error) },
                    },
                }
            },
            Request::Verify => self.if_unlocked(
                Action::Verify { witnessed: self.under_witness() },
            ),
            Request::Checkpoint => self.if_unlocked(Action::Checkpoint),
            Request::Backup { destination } => Action::Backup { destination },
            Request::Shutdown => {
                if self.allow_shutdown {
                    self.shutdown = true;
                    Action::Reply { response: Response::Success { result: Success::Empty } }
                } else {
                    Action::Reply {
                        response: failure_response(
                            ErrorCode::Policy,
                            "daemon shutdown is disabled by policy",
                        ),
                    }
                }
            },
        }
    }

    fn if_unlocked(&self, action: Action) -> (res: Action)
        ensures
            if self@.vault.root_key is None {
                replies(res, answered(Err(VaultError::Locked)))
            } else {
                res == action
            },
    {
        match self.vault.status() {
            VaultStatus::Locked => Action::Reply {
                response: Response::Error { error: map_vault_error(&VaultError::Locked) },
            },
            VaultStatus::Unlocked => action,
        }
    }

    fn unlock(&mut self, passphrase: &str) -> (res: Action)
        ensures
            unlock_dispatched(old(self)@, passphrase@, final(self)@, res),
    {
        match self.vault.unlock(passphrase) {
            Ok(_) => if self.under_witness() {
                Action::Reconcile
            } else {
                Action::Reply { response: Response::Success { result: Success::Empty } }
            },
            Err(error) => Action::Reply {
                response: Response::Error { error: map_vault_error(&error) },
            },
        }
    }

    /// Answers with the outcome of an operation. A failure that leaves the state of stored
    /// data in doubt locks the vault.
    pub fn respond(&mut self, outcome: Result<Success, VaultError>) -> (res: Response)
        ensures
            final(self)@ == old(self)@.with_vault(old(self)@.vault.after(outcome)),
            res@ == answered(outcome_view(outcome)),
    {
        match outcome {
            Ok(result) => Response::Success { result },
            Err(error) => {
                self.vault.lock_after_failure(&error);
                Response::Error { error: map_vault_error(&error) }
            },
        }
    }

    /// Finishes an unlock under a witness policy: once every staged version is reconciled,
    /// every active object is verified with the witness before any is served.
    pub fn finish_unlock_with_witness<P: WitnessProvider>(
        &mut self,
        recovery: &Recovery,
        objects: &Vec<ActiveObject>,
        provider: &mut P,
    ) -> (res: Response)
        requires
            recovery.well_formed(),
            recovery.complete(),
            recovery.vault_id() == old(self)@.vault.envelope.vault_id,
        ensures
            exists|
                asked: Seq<&mut P>,
                states: Seq<P>,
                challenges: Seq<Seq<u8>>,
                replies: Seq<Result<WitnessHead, VaultError>>,
                outcome: Result<u64, VaultError>,
            |
                {
                    &&& #[trigger] swept(
                        old(self)@.vault,
                        objects@,
                        asked,
                        states,
                        challenges,
                        replies,
                        outcome,
                    )
                    &&& states.first() == *old(provider)
                    &&& states.last() == *final(provider)
                    &&& forall|i: int|
                        0 <= i < asked.len() ==> *final(#[trigger] asked[i]) == states[i + 1]
                    &&& final(self)@ == old(self)@.with_vault(old(self)@.vault.after(outcome))
                    &&& res@ == match outcome {
                        Ok(_) => answered(Ok(SuccessView::Empty)),
                        Err(error) => answered(Err(error)),
                    }
                },
    {
        match self.vault.verify_active_objects_with_witness(objects, provider) {
            Ok(_) => Response::Success { result: Success::Empty },
            Err(error) => Response::Error { error: map_vault_error(&error) },
        }
    }

    /// Reads an object under a witness policy: active objects are verified with the witness
    /// first.
    pub fn get_with_witness<P: WitnessProvider>(
        &mut self,
        object_id: ObjectId,
        stored: Option<&StoredObject>,
        objects: &Vec<ActiveObject>,
        provider: &mut P,
    ) -> (res: Result<Vec<u8>, VaultError>)
        ensures
            final(self)@ == old(self)@.with_vault(old(self)@.vault.after(res)),
            exists|
                asked: Seq<&mut P>,
                states: Seq<P>,
                challenges: Seq<Seq<u8>>,
                replies: Seq<Result<WitnessHead, VaultError>>,
                outcome: Result<u64, VaultError>,
            |
                {
                    &&& #[trigger] swept(
                        old(self)@.vault,
                        objects@,
                        asked,
                        states,
                        challenges,
                        replies,
                        outcome,
                    )
                    &&& states.first() == *old(provider)
                    &&& states.last() == *final(provider)
                    &&& forall|i: int|
                        0 <= i < asked.len() ==> *final(#[trigger] asked[i]) == states[i + 1]
                    &&& match outcome {
                        Err(error) => res == Err::<Vec<u8>, _>(error),
                        Ok(_) => match (
                            res,
                            get_verdict(old(self)@.vault, object_id@, stored_value(stored)),
                        ) {
                            (Ok(plaintext), Ok(expected)) => plaintext@ == expected,
                            (Err(error), Err(expected)) => error == expected,
                            _ => false,
                        },
                    }
                },
    {
        let _ = self.vault.verify_active_objects_with_witness(objects, provider)?;
        self.vault.get(object_id, stored)
    }

    /// Answers with the outcome of a verification sweep and records the verified count.
    pub fn finish_verify(&mut self, outcome: Result<u64, VaultError>) -> (res: Response)
        ensures
            match outcome {
                Ok(active_objects) => {
                    &&& final(self)@ == (DaemonView {
                        verified_active_objects: Some(active_objects),
                        ..old(self)@
                    })
                    &&& res@ == (ResponseView::Success {
                        result: SuccessView::Verified { active_objects },
                    })
                },
                Err(error) => {
                    &&& final(self)@ == old(self)@.with_vault(old(self)@.vault.after_error(error))
                    &&& res@ == (ResponseView::Error { error: vault_failure(error) })
                },
            },
    {
        match outcome {
            Ok(active_objects) => {
                self.verified_active_objects = Some(active_objects);
                Response::Success { result: Success::Verified { active_objects } }
            },
            Err(error) => {
                self.vault.lock_after_failure(&error);
                Response::Error { error: map_vault_error(&error) }
            },
        }
    }

    /// Answers with the outcome of a checkpoint.
    pub fn finish_checkpoint(&mut self, report: Option<&CheckpointReport>) -> (res: Response)
        ensures
            ({
                let outcome = if old(self)@.vault.root_key is None {
                    Err(VaultError::Locked)
                } else {
                    match report {
                        Some(report) => if report.busy == 0 && report.log_frames
                            == report.checkpointed_frames {
                            Ok(())
                        } else {
                            Err(VaultError::Storage)
                        },
                        None => Err(VaultError::Storage),
                    }
                };
                &&& final(self)@ == old(self)@.with_vault(old(self)@.vault.after(outcome))
                &&& res@ == match outcome {
                    Ok(_) => answered(Ok(SuccessView::Empty)),
                    Err(error) => answered(Err(error)),
                }
            }),
    {
        match self.vault.full_checkpoint(report) {
            Ok(_) => Response::Success { result: Success::Empty },
            Err(error) => Response::Error { error: map_vault_error(&error) },
        }
    }

    /// Answers with the outcome of storing a rotated envelope. `changed` is the number of
    /// rows that the update reached, or nothing where it failed.
    pub fn finish_rotation(&mut self, envelope: RootEnvelope, changed: Option<usize>) -> (res:
        Response)
        ensures
            final(self)@.vault.root_key is None,
            final(self)@ == old(self)@.with_vault(final(self)@.vault),
            match changed {
                Some(changed) => if changed == 1 {
                    &&& final(self)@.vault.envelope == envelope@
                    &&& res@ == answered(Ok(SuccessView::Empty))
                } else {
                    &&& final(self)@.vault.envelope == old(self)@.vault.envelope
                    &&& res@ == answered(
                        Err(VaultError::Invariant("Root Key envelope replacement")),
                    )
                },
                None => {
                    &&& final(self)@.vault.envelope == old(self)@.vault.envelope
                    &&& res@ == answered(Err(VaultError::Storage))
                },
            },
    {
        let outcome = match changed {
            Some(changed) => self.vault.commit_rotation(envelope, changed),
            None => {
                self.vault.lock_after_failure(&VaultError::Storage);
                Err(VaultError::Storage)
            },
        };
        match outcome {
            Ok(_) => Response::Success { result: Success::Empty },
            Err(error) => Response::Error { error: map_vault_error(&error) },
        }
    }
}

fn put_action(object_id: &str, plaintext_b64: &str, witnessed: bool) -> (res: Action)
    ensures
        put_dispatched(object_id@, plaintext_b64@, witnessed, res),
{
    match parse_object_id(object_id) {
        Ok(object_id) => match base64_decode(plaintext_b64) {
            Some(plaintext) => Action::Put { object_id, plaintext, witnessed },
            None => Action::Reply {
                response: failure_response(
                    ErrorCode::InvalidInput,
                    "plaintext is not valid base64",
                ),
            },
        },
        Err(response) => Action::Reply { response },
    }
}

/// Why a daemon does not open, if it does not.
pub open spec fn open_failure(
    config: DaemonConfig,
    report: IntegrityReport,
    row: Option<EnvelopeRow>,
) -> Option<VaultError> {
    if config.max_connections == 0 || config.io_timeout_nanos == 0 {
        Some(VaultError::InvalidInput("daemon resource configuration"))
    } else if report.integrity@ != "ok"@ {
        Some(VaultError::Invariant("SQLite integrity_check"))
    } else if report.foreign_key_violation {
        Some(VaultError::Invariant("SQLite foreign-key check"))
    } else if report.dangling_active_versions != 0 {
        Some(VaultError::Invariant("active version pointer binding"))
    } else if report.dangling_pending_versions != 0 {
        Some(VaultError::Invariant("pending witness publication binding"))
    } else {
        match row {
            None => Some(VaultError::NotFound),
            Some(row) => match crate::storage::envelope_of_row(row) {
                Err(error) => Some(error),
                Ok(_) => match config.witness {
                    None => None,
                    Some(policy) => match provider_settings(
                        policy.endpoint@,
                        policy.bearer_token@,
                        policy.public_key@,
                        None,
                        false,
                    ) {
                        Err(error) => Some(error),
                        Ok(_) => None,
                    },
                },
            },
        }
    }
}

/// What dispatching a write comes to.
pub open spec fn put_dispatched(
    object_id: Seq<char>,
    plaintext_b64: Seq<char>,
    witnessed: bool,
    action: Action,
) -> bool {
    if !is_lower_hex_text(object_id, 16) {
        replies(
            action,
            failed(
                ErrorCode::InvalidInput,
                "object identifier must be 32 hexadecimal characters",
            ),
        )
    } else {
        match base64_value(plaintext_b64) {
            None => replies(
                action,
                failed(ErrorCode::InvalidInput, "plaintext is not valid base64"),
            ),
            Some(bytes) => action matches Action::Put {
                object_id: object,
                plaintext,
                witnessed: given,
            } && object@ == hex_bytes(object_id) && plaintext@ == bytes && given == witnessed,
        }
    }
}

/// What dispatching an unlock comes to.
pub open spec fn unlock_dispatched(
    before: DaemonView,
    passphrase: Seq<char>,
    after: DaemonView,
    action: Action,
) -> bool {
    match unlock_verdict(passphrase, before.vault.envelope) {
        Ok(root_key) => {
            &&& after == before.with_vault(
                VaultView { envelope: before.vault.envelope, root_key: Some(root_key) },
            )
            &&& if before.witness is Some {
                action is Reconcile
            } else {
                replies(action, answered(Ok(SuccessView::Empty)))
            }
        },
        Err(error) => {
            &&& after == before.with_vault(before.vault.locked())
            &&& replies(action, answered(Err(error)))
        },
    }
}

/// What dispatching a rotation comes to.
pub open spec fn rotation_dispatched(
    before: DaemonView,
    current: Seq<char>,
    replacement: Seq<char>,
    after: DaemonView,
    action: Action,
) -> bool {
    match rotation_verdict(current, replacement, before.vault.envelope) {
        Ok(root_key) => {
            &&& after == before
            &&& action matches Action::StoreEnvelope { envelope } && envelope@.vault_id
                == before.vault.envelope.vault_id && unwrapped_root_key(replacement, envelope@)
                == Ok::<_, VaultError>(root_key)
        },
        Err(error) => {
            &&& after == before.with_vault(
                if error == VaultError::UnlockFailed {
                    before.vault.locked()
                } else {
                    before.vault
                },
            )
            &&& replies(action, answered(Err(error)))
        },
    }
}

/// What dispatching a request comes to: the daemon's next state and the action.
pub open spec fn dispatched(
    before: DaemonView,
    request: Request,
    after: DaemonView,
    action: Action,
) -> bool {
    match request {
        Request::Status => after == before && replies(action, before.status()),
        Request::Unlock { passphrase } => unlock_dispatched(before, passphrase@, after, action),
        Request::Lock => {
            &&& after == before.with_vault(before.vault.locked())
            &&& replies(action, answered(Ok(SuccessView::Empty)))
        },
        Request::Put { object_id, plaintext_b64 } => {
            &&& after == before
            &&& put_dispatched(object_id@, plaintext_b64@, before.witness is Some, action)
        },
        Request::Get { object_id } => {
            &&& after == before
            &&& if is_lower_hex_text(object_id@, 16) {
                action matches Action::Get { object_id: object, witnessed } && object@ == hex_bytes(
                    object_id@,
                ) && witnessed == (before.witness is Some)
            } else {
                replies(
                    action,
                    failed(
                        ErrorCode::InvalidInput,
                        "object identifier must be 32 hexadecimal characters",
                    ),
                )
            }
        },
        Request::RotatePassphrase { current_passphrase, replacement_passphrase } => {
            rotation_dispatched(
                before,
                current_passphrase@,
                replacement_passphrase@,
                after,
                action,
            )
        },
        Request::Verify => {
            &&& after == before
            &&& if before.vault.root_key is None {
                replies(action, answered(Err(VaultError::Locked)))
            } else {
                action matches Action::Verify { witnessed } && witnessed == (before.witness is Some)
            }
        },
        Request::Checkpoint => {
            &&& after == before
            &&& if before.vault.root_key is None {
                replies(action, answered(Err(VaultError::Locked)))
            } else {
                action is Checkpoint
            }
        },
        Request::Backup { destination } => {
            &&& after == before
            &&& action matches Action::Backup { destination: path } && path@ == destination@
        },
        Request::Shutdown => if before.allow_shutdown {
            &&& after == (DaemonView { shutdown: true, ..before })
            &&& replies(action, answered(Ok(SuccessView::Empty)))
        } else {
            &&& after == before
            &&& replies(
                action,
                failed(ErrorCode::Policy, "daemon shutdown is disabled by policy"),
            )
        },
    }
}

/// Only an unlock request can turn a locked vault into an unlocked one, and a shutdown
/// happens only on request and only where policy allows it.
pub proof fn state_changes_only_as_requested(
    before: DaemonView,
    request: Request,
    after: DaemonView,
    action: Action,
)
    requires
        dispatched(before, request, after, action),
    ensures
        before.vault.root_key is None && after.vault.root_key is Some ==> request is Unlock,
        !before.shutdown && after.shutdown ==> request is Shutdown && before.allow_shutdown,
        after.vault.envelope == before.vault.envelope,
        after.verified_active_objects == before.verified_active_objects,
        after.allowed_uid == before.allowed_uid,
        after.witness == before.witness,
{
}

/// A daemon with a witness publishes, reads and verifies only with it, and never answers an
/// unlock with success before it has reconciled; a daemon without one never asks for one.
pub proof fn witness_policy_is_followed(
    before: DaemonView,
    request: Request,
    after: DaemonView,
    action: Action,
)
    requires
        dispatched(before, request, after, action),
    ensures
        action matches Action::Put { witnessed, .. } ==> witnessed == (before.witness is Some),
        action matches Action::Get { witnessed, .. } ==> witnessed == (before.witness is Some),
        action matches Action::Verify { witnessed } ==> witnessed == (before.witness is Some),
        action is Reconcile ==> before.witness is Some,
        request is Unlock && before.witness is Some ==> match action {
            Action::Reconcile => true,
            Action::Reply { response } => response@ is Error,
            _ => false,
        },
{
}

/// A response to a failed operation never depends on the details that an error carries.
pub proof fn failures_hide_details(detail: &'static str, other: &'static str)
    ensures
        vault_failure(VaultError::InvalidInput(detail)) == vault_failure(
            VaultError::InvalidInput(other),
        ),
        vault_failure(VaultError::Invariant(detail)) == vault_failure(VaultError::Invariant(other)),
        vault_failure(VaultError::InvalidFormat(detail)) == vault_failure(
            VaultError::InvalidFormat(other),
        ),
        vault_failure(VaultError::UnlockFailed) == vault_failure(VaultError::Authentication),
{
}

} // verus!
