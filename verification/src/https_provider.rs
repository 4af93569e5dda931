//! A witness reached over HTTPS: its configuration, the requests sent to it and
//! the rules by which its answers are accepted. The transport itself is outside.
use crate::bytes::bytes_equal;
use crate::error::VaultError;
use crate::format::{ObjectId, VaultId};
use crate::text::{authority_host, ends_authority, has_prefix, host_and_port, hosts_stand_behind_the_credentials, is_loopback, is_loopback_host, starts_with, trim_trailing_slashes, without_trailing_slashes};
use crate::wire::{head_fields, head_of, receipt_of, response_fields, HeadResponse, IssueResponse, MAX_WIRE_BODY};
use crate::witness::{HeadView, ReceiptView, RequestView, WitnessHead, WitnessReceipt, WitnessRequest};
use vstd::prelude::*;
use vstd::utf8::encode_utf8;

verus! {

/// Longest accepted witness endpoint, in bytes.
pub const MAX_ENDPOINT_BYTES: usize = 2048;

/// Configuration of a pinned HTTPS witness.
///
/// A primary witness public key is pinned for every receipt and head
/// independently of TLS. During an explicit key rollover, one optional previous
/// key can be trusted as a bounded overlap.
pub struct HttpsWitnessProvider {
    issue_url: String,
    head_url: String,
    authorization: String,
    primary_public_key: [u8; 32],
    previous_public_key: Option<[u8; 32]>,
}

/// The contents of a witness configuration.
pub ghost struct HttpsProviderView {
    pub issue_url: Seq<char>,
    pub head_url: Seq<char>,
    pub authorization: Seq<char>,
    pub primary_public_key: Seq<u8>,
    pub previous_public_key: Option<Seq<u8>>,
}

impl HttpsProviderView {
    /// Whether a key is the pinned key or the previous one during a rollover.
    pub open spec fn trusts(self, public_key: Seq<u8>) -> bool {
        public_key == self.primary_public_key || self.previous_public_key == Some(public_key)
    }

    /// The verdict on an issue response: it must parse, verify, come from a trusted key,
    /// acknowledge the request and advance the epoch.
    pub open spec fn receipt_verdict(
        self,
        response: IssueResponse,
        request: RequestView,
        expected_epoch: u64,
    ) -> Result<ReceiptView, VaultError> {
        match receipt_of(response) {
            Err(error) => Err(error),
            Ok(receipt) => if !self.trusts(receipt.public_key) {
                Err(VaultError::WitnessConflict)
            } else {
                match receipt.request_verdict(request) {
                    Err(error) => Err(error),
                    Ok(_) => if receipt.witness_epoch <= expected_epoch {
                        Err(VaultError::WitnessConflict)
                    } else {
                        Ok(receipt)
                    },
                }
            },
        }
    }

    /// The verdict on a head response: it must parse, verify, come from a trusted key and
    /// answer exactly the query.
    pub open spec fn head_verdict(
        self,
        response: HeadResponse,
        vault_id: Seq<u8>,
        object_id: Seq<u8>,
        challenge: Seq<u8>,
    ) -> Result<HeadView, VaultError> {
        match head_of(response) {
            Err(error) => Err(error),
            Ok(head) => if !self.trusts(head.public_key) || !head.answers(
                vault_id,
                object_id,
                challenge,
            ) {
                Err(VaultError::WitnessConflict)
            } else {
                Ok(head)
            },
        }
    }
}

impl View for HttpsWitnessProvider {
    type V = HttpsProviderView;

    closed spec fn view(&self) -> HttpsProviderView {
        HttpsProviderView {
            issue_url: self.issue_url@,
            head_url: self.head_url@,
            authorization: self.authorization@,
            primary_public_key: self.primary_public_key@,
            previous_public_key: key_bytes(self.previous_public_key),
        }
    }
}

/// The bytes of an optional key.
pub open spec fn key_bytes(key: Option<[u8; 32]>) -> Option<Seq<u8>> {
    match key {
        Some(key) => Some(key@),
        None => None,
    }
}

/// The configuration that given settings amount to, or why they are refused.
pub open spec fn provider_settings(
    endpoint: Seq<char>,
    bearer_token: Seq<char>,
    primary_public_key: Seq<u8>,
    previous_public_key: Option<Seq<u8>>,
    allow_http: bool,
) -> Result<HttpsProviderView, VaultError> {
    let base = without_trailing_slashes(endpoint);
    if (!allow_http && !has_prefix(endpoint, "https://"@)) || bearer_token.len() == 0
        || previous_public_key == Some(primary_public_key) {
        Err(VaultError::InvalidInput("witness endpoint configuration"))
    } else if base.len() == 0 || encode_utf8(base).len() > MAX_ENDPOINT_BYTES {
        Err(VaultError::InvalidInput("witness endpoint length"))
    } else {
        Ok(
            HttpsProviderView {
                issue_url: base + "/v1/issue"@,
                head_url: base + "/v1/head"@,
                authorization: "Bearer "@ + bearer_token,
                primary_public_key,
                previous_public_key,
            },
        )
    }
}

/// Whether an endpoint is plain HTTP and begins with, and addresses, a loopback literal.
pub open spec fn is_loopback_endpoint(endpoint: Seq<char>) -> bool {
    &&& has_prefix(endpoint, "http://127.0.0.1"@) || has_prefix(endpoint, "http://[::1]"@)
    &&& is_loopback_host(host_and_port(endpoint, "http://"@.len() as int))
}

impl HttpsWitnessProvider {
    /// Creates a provider for an HTTPS witness endpoint.
    pub fn new(endpoint: &str, bearer_token: &str, pinned_public_key: [u8; 32]) -> (res: Result<
        Self,
        VaultError,
    >)
        ensures
            match (
                res,
                provider_settings(endpoint@, bearer_token@, pinned_public_key@, None, false),
            ) {
                (Ok(provider), Ok(expected)) => provider@ == expected,
                (Err(error), Err(expected)) => error == expected,
                _ => false,
            },
    {
        Self::new_with_previous(endpoint, bearer_token, pinned_public_key, None)
    }

    /// Creates a provider with one bounded previous trust anchor during rollover.
    ///
    /// The previous key remains trusted only until an operator removes it from
    /// configuration after every vault has observed the primary key.
    pub fn new_with_previous(
        endpoint: &str,
        bearer_token: &str,
        primary_public_key: [u8; 32],
        previous_public_key: Option<[u8; 32]>,
    ) -> (res: Result<Self, VaultError>)
        ensures
            match (
                res,
                provider_settings(
                    endpoint@,
                    bearer_token@,
                    primary_public_key@,
                    key_bytes(previous_public_key),
                    false,
                ),
            ) {
                (Ok(provider), Ok(expected)) => provider@ == expected,
                (Err(error), Err(expected)) => error == expected,
                _ => false,
            },
    {
        Self::build(endpoint, bearer_token, primary_public_key, previous_public_key, false)
    }

    /// Creates an HTTP loopback provider for deterministic integration tests.
    ///
    /// This constructor is not a production transport and rejects all
    /// non-loopback endpoint forms.
    pub fn for_loopback_test(
        endpoint: &str,
        bearer_token: &str,
        pinned_public_key: [u8; 32],
    ) -> (res: Result<Self, VaultError>)
        ensures
            !is_loopback_endpoint(endpoint@) ==> res == Err::<Self, _>(
                VaultError::InvalidInput("loopback witness endpoint"),
            ),
            is_loopback_endpoint(endpoint@) ==> match (
                res,
                provider_settings(endpoint@, bearer_token@, pinned_public_key@, None, true),
            ) {
                (Ok(provider), Ok(expected)) => provider@ == expected,
                (Err(error), Err(expected)) => error == expected,
                _ => false,
            },
    {
        Self::for_loopback_test_with_previous(endpoint, bearer_token, pinned_public_key, None)
    }

    /// Creates a loopback test provider with an optional previous trust anchor.
    pub fn for_loopback_test_with_previous(
        endpoint: &str,
        bearer_token: &str,
        primary_public_key: [u8; 32],
        previous_public_key: Option<[u8; 32]>,
    ) -> (res: Result<Self, VaultError>)
        ensures
            !is_loopback_endpoint(endpoint@) ==> res == Err::<Self, _>(
                VaultError::InvalidInput("loopback witness endpoint"),
            ),
            is_loopback_endpoint(endpoint@) ==> match (
                res,
                provider_settings(
                    endpoint@,
                    bearer_token@,
                    primary_public_key@,
                    key_bytes(previous_public_key),
                    true,
                ),
            ) {
                (Ok(provider), Ok(expected)) => provider@ == expected,
                (Err(error), Err(expected)) => error == expected,
                _ => false,
            },
    {
        if !starts_with(endpoint, "http://127.0.0.1") && !starts_with(endpoint, "http://[::1]") {
            return Err(VaultError::InvalidInput("loopback witness endpoint"));
        }
        proof {
            reveal_strlit("http://");
            reveal_strlit("http://127.0.0.1");
            reveal_strlit("http://[::1]");
        }
        if !is_loopback(authority_host(endpoint, "http://".unicode_len())) {
            return Err(VaultError::InvalidInput("loopback witness endpoint"));
        }
        Self::build(endpoint, bearer_token, primary_public_key, previous_public_key, true)
    }

    fn build(
        endpoint: &str,
        bearer_token: &str,
        primary_public_key: [u8; 32],
        previous_public_key: Option<[u8; 32]>,
        allow_http: bool,
    ) -> (res: Result<Self, VaultError>)
        ensures
            match (
                res,
                provider_settings(
                    endpoint@,
                    bearer_token@,
                    primary_public_key@,
                    key_bytes(previous_public_key),
                    allow_http,
                ),
            ) {
                (Ok(provider), Ok(expected)) => provider@ == expected,
                (Err(error), Err(expected)) => error == expected,
                _ => false,
            },
    {
        let repeated = match &previous_public_key {
            Some(previous) => bytes_equal(previous, &primary_public_key),
            None => false,
        };
        if (!allow_http && !starts_with(endpoint, "https://")) || bearer_token.is_empty()
            || repeated {
            return Err(VaultError::InvalidInput("witness endpoint configuration"));
        }
        let base = trim_trailing_slashes(endpoint);
        if base.is_empty() || base.as_bytes().len() > MAX_ENDPOINT_BYTES {
            return Err(VaultError::InvalidInput("witness endpoint length"));
        }
        let mut issue_url = base.to_owned();
        issue_url.append("/v1/issue");
        let mut head_url = base.to_owned();
        head_url.append("/v1/head");
        let mut authorization = "Bearer ".to_owned();
        authorization.append(bearer_token);
        Ok(
            HttpsWitnessProvider {
                issue_url,
                head_url,
                authorization,
                primary_public_key,
                previous_public_key,
            },
        )
    }

    /// Returns where issue requests are posted.
    #[must_use]
    pub fn issue_url(&self) -> (res: &str)
        ensures
            res@ == self@.issue_url,
    {
        self.issue_url.as_str()
    }

    /// Returns where head requests are posted.
    #[must_use]
    pub fn head_url(&self) -> (res: &str)
        ensures
            res@ == self@.head_url,
    {
        self.head_url.as_str()
    }

    /// Returns the value of the `Authorization` header.
    #[must_use]
    pub fn authorization(&self) -> (res: &str)
        ensures
            res@ == self@.authorization,
    {
        self.authorization.as_str()
    }

    fn check_trusted_key(&self, public_key: &[u8; 32]) -> (res: Result<(), VaultError>)
        ensures
            res is Ok <==> self@.trusts(public_key@),
            res matches Err(error) ==> error == VaultError::WitnessConflict,
    {
        if bytes_equal(public_key, &self.primary_public_key) {
            return Ok(());
        }
        match &self.previous_public_key {
            Some(previous) => {
                if bytes_equal(public_key, previous) {
                    return Ok(());
                }
            },
            None => {},
        }
        Err(VaultError::WitnessConflict)
    }

    /// Accepts or refuses the answer to an issue request.
    pub fn accept_issue(
        &self,
        response: IssueResponse,
        request: &WitnessRequest,
        expected_epoch: u64,
    ) -> (res: Result<WitnessReceipt, VaultError>)
        ensures
            match (res, self@.receipt_verdict(response, request@, expected_epoch)) {
                (Ok(receipt), Ok(expected)) => receipt@ == expected,
                (Err(error), Err(expected)) => error == expected,
                _ => false,
            },
    {
        let receipt = response.into_receipt()?;
        self.check_trusted_key(receipt.public_key())?;
        receipt.verify_request(request)?;
        if receipt.witness_epoch() <= expected_epoch {
            return Err(VaultError::WitnessConflict);
        }
        Ok(receipt)
    }

    /// Accepts or refuses the answer to a head request.
    pub fn accept_head(
        &self,
        response: HeadResponse,
        vault_id: VaultId,
        object_id: ObjectId,
        challenge: &[u8; 32],
    ) -> (res: Result<WitnessHead, VaultError>)
        ensures
            match (res, self@.head_verdict(response, vault_id@, object_id@, challenge@)) {
                (Ok(head), Ok(expected)) => head@ == expected,
                (Err(error), Err(expected)) => error == expected,
                _ => false,
            },
    {
        let head = response.into_head()?;
        self.check_trusted_key(head.public_key())?;
        if !head.answers(vault_id, object_id, challenge) {
            return Err(VaultError::WitnessConflict);
        }
        Ok(head)
    }
}

/// The error of a refused or failed exchange: a conflict where the witness says so, and
/// otherwise an unavailable witness. `None` stands for a failure without a status.
pub fn exchange_error(status: Option<u16>) -> (res: VaultError)
    ensures
        status == Some(409u16) ==> res == VaultError::WitnessConflict,
        status != Some(409u16) ==> res == VaultError::WitnessUnavailable,
{
    match status {
        Some(409) => VaultError::WitnessConflict,
        _ => VaultError::WitnessUnavailable,
    }
}

/// Refuses a response body above the size limit.
pub fn check_response_size(bytes: u64) -> (res: Result<(), VaultError>)
    ensures
        res is Ok <==> bytes <= MAX_WIRE_BODY,
        res is Ok <==> bytes <= 16_384,
        res matches Err(error) ==> error == VaultError::InvalidFormat(
            "witness HTTP response too large",
        ),
{
    if bytes > MAX_WIRE_BODY {
        return Err(VaultError::invalid_format("witness HTTP response too large"));
    }
    Ok(())
}

/// No receipt and no head is accepted under a key that is neither pinned nor the previous
/// one.
pub proof fn untrusted_keys_are_refused(
    provider: HttpsProviderView,
    issue: IssueResponse,
    request: RequestView,
    expected_epoch: u64,
    head: HeadResponse,
    vault_id: Seq<u8>,
    object_id: Seq<u8>,
    challenge: Seq<u8>,
)
    ensures
        provider.receipt_verdict(issue, request, expected_epoch) matches Ok(receipt)
            ==> provider.trusts(receipt.public_key) && receipt.binds(request)
            && expected_epoch < receipt.witness_epoch,
        provider.head_verdict(head, vault_id, object_id, challenge) matches Ok(accepted)
            ==> provider.trusts(accepted.public_key) && accepted.answers(
            vault_id,
            object_id,
            challenge,
        ),
{
}

/// What an honest witness sends is accepted: a receipt that arrives as it was signed for the
/// request, above the expected epoch and under the pinned key or the previous one, and a head
/// that answers the query under such a key.
pub proof fn honest_answers_are_accepted(
    provider: HttpsProviderView,
    issue: IssueResponse,
    receipt: ReceiptView,
    request: RequestView,
    expected_epoch: u64,
    answer: HeadResponse,
    head: HeadView,
    vault_id: Seq<u8>,
    object_id: Seq<u8>,
    challenge: Seq<u8>,
)
    ensures
        response_fields(issue) == Ok::<_, VaultError>(receipt) && receipt.request_verdict(
            request,
        ) is Ok
            && (receipt.public_key == provider.primary_public_key || provider.previous_public_key
            == Some(receipt.public_key)) && receipt.witness_epoch > expected_epoch
            ==> provider.receipt_verdict(issue, request, expected_epoch) == Ok::<_, VaultError>(
            receipt,
        ),
        head_fields(answer) == Ok::<_, VaultError>(head) && head.verdict() is Ok && head.vault_id
            == vault_id && head.object_id
            == object_id && head.challenge == challenge && (head.public_key
            == provider.primary_public_key || provider.previous_public_key == Some(head.public_key))
            ==> provider.head_verdict(answer, vault_id, object_id, challenge) == Ok::<
            _,
            VaultError,
        >(head),
{
}

/// Only answers under the pinned key, or the previous one during a rollover, are accepted,
/// only with a valid signature, and only for what was asked.
pub proof fn only_pinned_answers_are_accepted(
    provider: HttpsProviderView,
    issue: IssueResponse,
    request: RequestView,
    expected_epoch: u64,
    answer: HeadResponse,
    vault_id: Seq<u8>,
    object_id: Seq<u8>,
    challenge: Seq<u8>,
)
    ensures
        provider.receipt_verdict(issue, request, expected_epoch) matches Ok(receipt) ==> {
            &&& response_fields(issue) == Ok::<_, VaultError>(receipt)
            &&& receipt.public_key == provider.primary_public_key || provider.previous_public_key
                == Some(receipt.public_key)
            &&& receipt.request_verdict(request) is Ok
            &&& receipt.witness_epoch > expected_epoch
        },
        provider.head_verdict(answer, vault_id, object_id, challenge) matches Ok(head) ==> {
            &&& head_fields(answer) == Ok::<_, VaultError>(head)
            &&& head.public_key == provider.primary_public_key || provider.previous_public_key
                == Some(head.public_key)
            &&& head.verdict() is Ok
            &&& head.vault_id == vault_id && head.object_id == object_id && head.challenge
                == challenge
        },
{
}

/// A configuration is accepted exactly where the endpoint is HTTPS, or HTTP where that is
/// allowed, the credential is not empty, the two trust anchors differ and the endpoint is not
/// empty nor above 2048 bytes without its trailing slashes. It keeps the credential and the
/// anchors as they were given.
pub proof fn configurations_are_kept_as_given(
    endpoint: Seq<char>,
    bearer_token: Seq<char>,
    primary_public_key: Seq<u8>,
    previous_public_key: Option<Seq<u8>>,
    allow_http: bool,
)
    ensures
        ({
            let base = without_trailing_slashes(endpoint);
            let settings = provider_settings(
                endpoint,
                bearer_token,
                primary_public_key,
                previous_public_key,
                allow_http,
            );
            &&& settings is Ok <==> {
                &&& allow_http || has_prefix(endpoint, "https://"@)
                &&& bearer_token.len() > 0
                &&& previous_public_key != Some(primary_public_key)
                &&& base.len() > 0
                &&& encode_utf8(base).len() <= 2048
            }
            &&& settings matches Ok(provider) ==> {
                &&& provider.primary_public_key == primary_public_key
                &&& provider.previous_public_key == previous_public_key
                &&& provider.authorization == "Bearer "@ + bearer_token
                &&& provider.issue_url == base + "/v1/issue"@
                &&& provider.head_url == base + "/v1/head"@
            }
            &&& settings matches Err(error) ==> error is InvalidInput
        }),
{
}

/// A plain-text endpoint is accepted for loopback exactly where it begins with the scheme and
/// a loopback address and its host, behind any credentials, is a loopback address.
pub proof fn loopback_endpoints_have_loopback_hosts(
    credentials: Seq<char>,
    host: Seq<char>,
    rest: Seq<char>,
)
    requires
        forall|i: int| 0 <= i < credentials.len() ==> !ends_authority(#[trigger] credentials[i]),
        credentials.len() > 0 ==> credentials.last() == '@',
        forall|i: int|
            0 <= i < host.len() ==> !ends_authority(#[trigger] host[i]) && host[i] != '@',
        rest.len() > 0 ==> ends_authority(rest[0]),
    ensures
        ({
            let endpoint = "http://"@ + credentials + host + rest;
            is_loopback_endpoint(endpoint) <==> is_loopback_host(host) && (has_prefix(
                endpoint,
                "http://127.0.0.1"@,
            ) || has_prefix(endpoint, "http://[::1]"@))
        }),
        credentials.len() == 0 && is_loopback_host(host) ==> is_loopback_endpoint(
            "http://"@ + credentials + host + rest,
        ),
{
    let endpoint = "http://"@ + credentials + host + rest;
    hosts_stand_behind_the_credentials("http://"@, credentials, host, rest);
    reveal_strlit("http://");
    reveal_strlit("127.0.0.1");
    reveal_strlit("[::1]");
    reveal_strlit("http://127.0.0.1");
    reveal_strlit("http://[::1]");
    if credentials.len() == 0 && is_loopback_host(host) {
        if has_prefix(host, "127.0.0.1"@) {
            assert forall|i: int| 0 <= i < 9 implies host[i] == "127.0.0.1"@[i] by {
                assert(host.subrange(0, 9)[i] == host[i]);
            }
            assert(endpoint.subrange(0, 16) =~= "http://127.0.0.1"@);
        } else {
            assert forall|i: int| 0 <= i < 5 implies host[i] == "[::1]"@[i] by {
                assert(host.subrange(0, 5)[i] == host[i]);
            }
            assert(endpoint.subrange(0, 12) =~= "http://[::1]"@);
        }
    }
}

/// A configured key stands for its bytes.
pub proof fn configured_keys_stand_for_themselves(key: [u8; 32])
    ensures
        key_bytes(Some(key)) == Some(key@),
        key_bytes(None) is None,
{
}

/// An answer under another key, for another query or not above the expected epoch is a
/// conflict with the witness.
pub proof fn refused_answers_are_conflicts(
    provider: HttpsProviderView,
    issue: IssueResponse,
    receipt: ReceiptView,
    request: RequestView,
    expected_epoch: u64,
    answer: HeadResponse,
    head: HeadView,
    vault_id: Seq<u8>,
    object_id: Seq<u8>,
    challenge: Seq<u8>,
)
    ensures
        response_fields(issue) == Ok::<_, VaultError>(receipt) && receipt.request_verdict(
            request,
        ) is Ok && provider.receipt_verdict(issue, request, expected_epoch) is Err
            ==> provider.receipt_verdict(issue, request, expected_epoch)->Err_0 is WitnessConflict,
        head_fields(answer) == Ok::<_, VaultError>(head) && head.verdict() is Ok
            && provider.head_verdict(answer, vault_id, object_id, challenge) is Err
            ==> provider.head_verdict(
            answer,
            vault_id,
            object_id,
            challenge,
        )->Err_0 is WitnessConflict,
{
}

} // verus!
