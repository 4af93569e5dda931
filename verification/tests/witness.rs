use vlt1::error::VaultError;
use vlt1::format::{ObjectId, SealedRecord, VaultId, VersionId};
use vlt1::https_provider::{check_response_size, exchange_error, HttpsWitnessProvider};
use vlt1::provider::{
    accept_head, accept_receipt, acknowledge, decide_issue, fetch_fresh_head, InMemoryTestProvider,
    IssueDecision, WitnessProvider,
};
use vlt1::wire::{parse_fixed, HeadRequest, HeadResponse, IssueRequest, IssueResponse};
use vlt1::witness::{random_witness_challenge, WitnessHead, WitnessReceipt, WitnessRequest};
use vlt1::witness_service::{
    authorized, body_allowed, error_status, route, HeadRow, WitnessRoute, WitnessService,
};

fn request(commitment: u8) -> WitnessRequest {
    WitnessRequest::from_parts(
        VaultId::random(),
        ObjectId::random(),
        VersionId::random(),
        [commitment; 32],
    )
}

#[test]
fn issued_receipt_and_challenge_bound_head_verify() {
    let request = WitnessRequest::new(
        VaultId::random(),
        ObjectId::random(),
        VersionId::random(),
        &SealedRecord {
            nonce: [7; 12],
            ciphertext: b"encrypted-manifest".to_vec(),
        },
    );
    let mut provider = InMemoryTestProvider::from_seed([3; 32]);
    let receipt = provider.issue_receipt(&request, 0).expect("receipt");
    receipt.verify_request(&request).expect("binding");
    assert_eq!(receipt.witness_epoch(), 1);

    let challenge = random_witness_challenge();
    let head = provider
        .object_head(request.vault_id(), request.object_id(), challenge)
        .expect("head");
    assert!(head.present());
    assert_eq!(head.version_id(), Some(request.version_id()));
    assert_eq!(head.challenge(), &challenge);
}

#[test]
fn stale_epoch_does_not_advance_a_witness_head() {
    let vault_id = VaultId::random();
    let object_id = ObjectId::random();
    let mut provider = InMemoryTestProvider::from_seed([9; 32]);
    let first = WitnessRequest::from_parts(vault_id, object_id, VersionId::random(), [1; 32]);
    provider.issue_receipt(&first, 0).expect("first receipt");
    let conflicting =
        WitnessRequest::from_parts(vault_id, object_id, VersionId::random(), [2; 32]);
    assert!(matches!(
        provider.issue_receipt(&conflicting, 0),
        Err(VaultError::WitnessConflict)
    ));
}

#[test]
fn a_repeated_request_gets_the_same_receipt_and_epochs_grow_across_objects() {
    let mut provider = InMemoryTestProvider::from_seed([4; 32]);
    let first = request(1);
    let second = request(2);
    let receipt = provider.issue_receipt(&first, 0).expect("first");
    let later = provider.issue_receipt(&second, 0).expect("second");
    assert_eq!(later.witness_epoch(), 2);
    assert_eq!(
        provider.issue_receipt(&first, 0).expect("repeated"),
        receipt
    );
    let next = WitnessRequest::from_parts(
        first.vault_id(),
        first.object_id(),
        VersionId::random(),
        [3; 32],
    );
    assert_eq!(
        provider
            .issue_receipt(&next, 1)
            .expect("next version")
            .witness_epoch(),
        3
    );
}

#[test]
fn an_unwitnessed_object_has_an_absent_head() {
    let mut provider = InMemoryTestProvider::random();
    let head = provider
        .object_head(VaultId::random(), ObjectId::random(), [1; 32])
        .expect("absent head");
    assert!(!head.present());
    assert_eq!(head.version_id(), None);
    assert_eq!(head.commitment(), None);
    assert_eq!(head.witness_epoch(), 0);
    assert!(head.confirms(None));
    assert_eq!(head.verify_signature(), Ok(()));
}

#[test]
fn a_forged_or_rebound_receipt_is_refused() {
    let request = request(1);
    let receipt = WitnessReceipt::issue(&request, 5, &[8; 32]);
    let mut signature = *receipt.signature();
    signature[0] ^= 1;
    assert!(matches!(
        WitnessReceipt::new(
            receipt.vault_id(),
            receipt.object_id(),
            receipt.version_id(),
            5,
            *receipt.commitment(),
            *receipt.public_key(),
            signature,
        ),
        Err(VaultError::Authentication)
    ));
    assert!(matches!(
        WitnessReceipt::new(
            receipt.vault_id(),
            receipt.object_id(),
            receipt.version_id(),
            6,
            *receipt.commitment(),
            *receipt.public_key(),
            *receipt.signature(),
        ),
        Err(VaultError::Authentication)
    ));
    let other = WitnessRequest::from_parts(
        request.vault_id(),
        request.object_id(),
        request.version_id(),
        [9; 32],
    );
    assert_eq!(
        receipt.verify_request(&other),
        Err(VaultError::Invariant("witness receipt binding"))
    );
    assert!(accept_receipt(receipt, &request).is_ok());
}

#[test]
fn a_head_for_another_challenge_is_a_conflict() {
    let vault_id = VaultId::random();
    let object_id = ObjectId::random();
    let head = WitnessHead::issue(vault_id, object_id, None, [1; 32], &[2; 32]);
    assert!(accept_head(head, vault_id, object_id, &[1; 32]).is_ok());
    assert!(matches!(
        accept_head(head, vault_id, object_id, &[3; 32]),
        Err(VaultError::WitnessConflict)
    ));
    assert!(matches!(
        accept_head(head, vault_id, ObjectId::random(), &[1; 32]),
        Err(VaultError::WitnessConflict)
    ));
}

#[test]
fn a_head_confirms_exactly_the_stored_receipt() {
    let request = request(1);
    let receipt = WitnessReceipt::issue(&request, 5, &[8; 32]);
    let head = WitnessHead::issue(
        request.vault_id(),
        request.object_id(),
        Some(&receipt),
        [0; 32],
        &[8; 32],
    );
    assert!(head.confirms(Some(&receipt)));
    assert!(!head.confirms(None));
    let older = WitnessReceipt::issue(&request, 4, &[8; 32]);
    assert!(!head.confirms(Some(&older)));
    let foreign = WitnessReceipt::issue(&request, 5, &[9; 32]);
    assert!(!head.confirms(Some(&foreign)));
}

#[test]
fn heads_with_contradictory_presence_are_refused() {
    assert!(matches!(
        WitnessHead::new(
            VaultId::random(),
            ObjectId::random(),
            true,
            None,
            1,
            None,
            [0; 32],
            [0; 32],
            [0; 64],
        ),
        Err(VaultError::InvalidFormat("witness head presence fields"))
    ));
    assert!(matches!(
        WitnessHead::new(
            VaultId::random(),
            ObjectId::random(),
            false,
            None,
            1,
            None,
            [0; 32],
            [0; 32],
            [0; 64],
        ),
        Err(VaultError::InvalidFormat("absent witness head epoch"))
    ));
}

#[test]
fn fresh_heads_and_acknowledgements_go_through_the_checks() {
    let mut provider = InMemoryTestProvider::from_seed([5; 32]);
    let request = request(1);
    let receipt = acknowledge(&mut provider, &request, 0).expect("acknowledged");
    let head =
        fetch_fresh_head(&mut provider, request.vault_id(), request.object_id()).expect("head");
    assert!(head.confirms(Some(&receipt)));
    assert_eq!(receipt.public_key(), &provider.public_key());
}

#[test]
fn the_issue_rule_covers_every_outcome() {
    let request = request(1);
    let receipt = WitnessReceipt::issue(&request, 3, &[1; 32]);
    assert_eq!(
        decide_issue(None, 7, &request, 0),
        IssueDecision::Advance {
            epoch: 7,
            next_epoch: 8
        }
    );
    assert_eq!(decide_issue(None, 7, &request, 1), IssueDecision::Conflict);
    assert_eq!(
        decide_issue(Some(&receipt), 4, &request, 0),
        IssueDecision::Replay
    );
    let other = WitnessRequest::from_parts(
        request.vault_id(),
        request.object_id(),
        VersionId::random(),
        [2; 32],
    );
    assert_eq!(
        decide_issue(Some(&receipt), 4, &other, 2),
        IssueDecision::Conflict
    );
    assert_eq!(
        decide_issue(Some(&receipt), u64::MAX, &other, 3),
        IssueDecision::Exhausted
    );
}

fn issue_request(vault_id: VaultId, object_id: ObjectId, version_id: VersionId) -> IssueRequest {
    IssueRequest {
        vault_id: vault_id.to_hex(),
        object_id: object_id.to_hex(),
        version_id: version_id.to_hex(),
        commitment: "11".repeat(32),
        expected_epoch: 0,
    }
}

/// The two tables of a witness for one vault and one object.
struct WitnessState {
    row: Option<HeadRow>,
    next_epoch: Option<u64>,
}

impl WitnessState {
    fn issue(
        &mut self,
        service: &WitnessService,
        request: &IssueRequest,
    ) -> Result<IssueResponse, VaultError> {
        let outcome = service.issue_wire(request, &self.row, self.next_epoch)?;
        if let Some(advance) = outcome.advance {
            self.row = Some(HeadRow {
                version_id: advance.receipt.version_id().as_bytes().to_vec(),
                witness_epoch: advance.receipt.witness_epoch(),
                commitment: advance.receipt.commitment().to_vec(),
                signature: advance.receipt.signature().to_vec(),
            });
            self.next_epoch = Some(advance.next_epoch);
        }
        Ok(outcome.response)
    }
}

#[test]
fn issue_is_idempotent_and_stale_requests_do_not_advance_state() {
    let service = WitnessService::new([7; 32]);
    let mut state = WitnessState {
        row: None,
        next_epoch: None,
    };
    let vault_id = VaultId::random();
    let object_id = ObjectId::random();
    let version_id = VersionId::random();
    let first = state
        .issue(&service, &issue_request(vault_id, object_id, version_id))
        .expect("first issue");
    let repeated = state
        .issue(&service, &issue_request(vault_id, object_id, version_id))
        .expect("idempotent issue");
    assert_eq!(first.witness_epoch, repeated.witness_epoch);
    assert_eq!(first.signature, repeated.signature);
    assert_eq!(state.next_epoch, Some(2));

    let stale = IssueRequest {
        version_id: VersionId::random().to_hex(),
        ..issue_request(vault_id, object_id, version_id)
    };
    assert!(matches!(
        state.issue(&service, &stale),
        Err(VaultError::WitnessConflict)
    ));
    let conflict = service
        .conflict_head(&stale, &state.row)
        .expect("signed current head")
        .into_head()
        .expect("valid head");
    assert_eq!(conflict.version_id(), Some(version_id));
    assert_eq!(conflict.challenge(), &[0; 32]);

    let head = service
        .head_wire(
            &HeadRequest {
                vault_id: vault_id.to_hex(),
                object_id: object_id.to_hex(),
                challenge: "22".repeat(32),
            },
            &state.row,
        )
        .expect("head");
    assert!(head.present);
    assert_eq!(head.witness_epoch, first.witness_epoch);
}

#[test]
fn malformed_wire_fields_are_refused() {
    let service = WitnessService::new([7; 32]);
    let mut request = issue_request(VaultId::random(), ObjectId::random(), VersionId::random());
    request.commitment = "AA".repeat(32);
    assert!(matches!(
        service.issue_wire(&request, &None, None),
        Err(VaultError::InvalidFormat("witness commitment"))
    ));
    assert_eq!(parse_fixed::<2>("0aff", "field"), Ok([10, 255]));
    assert_eq!(
        parse_fixed::<2>("0AFF", "field"),
        Err(VaultError::InvalidFormat("field"))
    );
    assert_eq!(
        parse_fixed::<2>("0aff0", "field"),
        Err(VaultError::InvalidFormat("field"))
    );
}

#[test]
fn exhausted_epochs_are_an_invariant_failure() {
    let service = WitnessService::new([7; 32]);
    let request = issue_request(VaultId::random(), ObjectId::random(), VersionId::random());
    assert!(matches!(
        service.issue_wire(&request, &None, Some(u64::MAX)),
        Err(VaultError::Invariant("witness epoch exhausted"))
    ));
}

#[test]
fn receipts_and_heads_survive_the_wire() {
    let request = request(6);
    let receipt = WitnessReceipt::issue(&request, 11, &[1; 32]);
    assert_eq!(
        IssueResponse::from_receipt(&receipt)
            .into_receipt()
            .expect("receipt"),
        receipt
    );
    for current in [None, Some(&receipt)] {
        let head = WitnessHead::issue(
            request.vault_id(),
            request.object_id(),
            current,
            [3; 32],
            &[1; 32],
        );
        assert_eq!(
            HeadResponse::from_head(&head).into_head().expect("head"),
            head
        );
    }
    let mut uppercase = IssueResponse::from_receipt(&receipt);
    uppercase.signature = uppercase.signature.to_uppercase();
    assert!(uppercase.into_receipt().is_err());
}

#[test]
fn rollover_provider_accepts_only_configured_previous_anchor() {
    let service = WitnessService::new([42; 32]);
    let previous_public_key = service.public_key();
    let primary_public_key = WitnessService::new([43; 32]).public_key();
    let vault_id = VaultId::random();
    let object_id = ObjectId::random();
    let request = WitnessRequest::from_parts(vault_id, object_id, VersionId::random(), [7; 32]);
    let answer = || {
        service
            .issue_wire(&IssueRequest::from_request(&request, 0), &None, None)
            .expect("issue")
            .response
    };
    let rollover = HttpsWitnessProvider::for_loopback_test_with_previous(
        "http://127.0.0.1:9823",
        "integration-token",
        primary_public_key,
        Some(previous_public_key),
    )
    .expect("bounded rollover provider");
    rollover
        .accept_issue(answer(), &request, 0)
        .expect("configured previous anchor");

    let strict = HttpsWitnessProvider::for_loopback_test(
        "http://127.0.0.1:9823",
        "integration-token",
        primary_public_key,
    )
    .expect("strict provider");
    assert!(strict.accept_issue(answer(), &request, 0).is_err());
}

#[test]
fn provider_settings_are_checked() {
    let provider = HttpsWitnessProvider::new("https://witness.example/", "token", [1; 32])
        .expect("provider");
    assert_eq!(provider.issue_url(), "https://witness.example/v1/issue");
    assert_eq!(provider.head_url(), "https://witness.example/v1/head");
    assert_eq!(provider.authorization(), "Bearer token");
    let refused = VaultError::InvalidInput("witness endpoint configuration");
    assert_eq!(
        HttpsWitnessProvider::new("http://witness.example", "token", [1; 32]).err(),
        Some(refused)
    );
    assert_eq!(
        HttpsWitnessProvider::new("https://witness.example", "", [1; 32]).err(),
        Some(refused)
    );
    assert_eq!(
        HttpsWitnessProvider::new_with_previous(
            "https://witness.example",
            "token",
            [1; 32],
            Some([1; 32])
        )
        .err(),
        Some(refused)
    );
    assert!(HttpsWitnessProvider::for_loopback_test(
        "http://127.0.0.1.witness.example",
        "token",
        [1; 32]
    )
    .is_err());
    for endpoint in [
        "http://[::1]:9823",
        "http://127.0.0.10:9823",
        "http://127.0.0.199/x",
        "http://127.0.0.1.:9823",
        "http://127.0.0.1@127.0.0.10.",
    ] {
        assert!(HttpsWitnessProvider::for_loopback_test(endpoint, "token", [1; 32]).is_ok());
    }
    for endpoint in [
        "http://127.0.0.1000",
        "http://127.0.0.1.1",
        "http://127.0.0.2",
        "http://127.0.0.1@witness.example",
        "http://127.0.0.1:80@witness.example",
        "http://[::1]@witness.example",
    ] {
        assert!(HttpsWitnessProvider::for_loopback_test(endpoint, "token", [1; 32]).is_err());
    }
    assert_eq!(
        HttpsWitnessProvider::new(
            &format!("https://{}", "a".repeat(2048)),
            "token",
            [1; 32]
        )
        .err(),
        Some(VaultError::InvalidInput("witness endpoint length"))
    );
}

#[test]
fn a_provider_accepts_only_answers_to_its_own_query() {
    let service = WitnessService::new([42; 32]);
    let provider = HttpsWitnessProvider::new("https://witness.example", "t", service.public_key())
        .expect("provider");
    let vault_id = VaultId::random();
    let object_id = ObjectId::random();
    let query = HeadRequest::from_query(vault_id, object_id, &[5; 32]);
    let answer = || service.head_wire(&query, &None).expect("head");
    assert!(provider
        .accept_head(answer(), vault_id, object_id, &[5; 32])
        .is_ok());
    assert!(matches!(
        provider.accept_head(answer(), vault_id, object_id, &[6; 32]),
        Err(VaultError::WitnessConflict)
    ));
    assert!(matches!(
        provider.accept_head(answer(), VaultId::random(), object_id, &[5; 32]),
        Err(VaultError::WitnessConflict)
    ));
}

#[test]
fn transport_outcomes_map_to_witness_errors() {
    assert_eq!(exchange_error(Some(409)), VaultError::WitnessConflict);
    assert_eq!(exchange_error(Some(500)), VaultError::WitnessUnavailable);
    assert_eq!(exchange_error(None), VaultError::WitnessUnavailable);
    assert_eq!(check_response_size(16_384), Ok(()));
    assert!(check_response_size(16_385).is_err());
}

#[test]
fn witness_requests_are_routed_and_authorized() {
    assert_eq!(route("GET", "/healthz"), WitnessRoute::Health);
    assert_eq!(route("POST", "/v1/issue"), WitnessRoute::Issue);
    assert_eq!(route("POST", "/v1/head"), WitnessRoute::Head);
    assert_eq!(route("GET", "/v1/head"), WitnessRoute::NotFound);
    assert_eq!(route("POST", "/v1/head/"), WitnessRoute::NotFound);
    assert_eq!(error_status(&VaultError::WitnessConflict), 409);
    assert_eq!(error_status(&VaultError::Storage), 400);
    assert!(body_allowed(16_384));
    assert!(!body_allowed(16_385));
    assert!(authorized(Some(b"Bearer token"), b"token"));
    assert!(!authorized(Some(b"Bearer token "), b"token"));
    assert!(!authorized(Some(b"token"), b"token"));
    assert!(!authorized(None, b"token"));
    assert!(authorized(
        Some("Bearer \u{fffd}".as_bytes()),
        &[0xff]
    ));
}
