use vlt1::crypto::{
    chunk_aad, chunk_digest, derive_kek, derive_manifest_key, generate_dek, manifest_aad, open,
    open_root_key, seal, seal_root_key, seal_with_nonce, wrapped_dek_aad, ChunkDigestBuilder,
    KdfParams, DEFAULT_ARGON2_ITERATIONS, DEFAULT_ARGON2_LANES, DEFAULT_ARGON2_MEMORY_KIB,
};
use vlt1::error::VaultError;
use vlt1::format::{ObjectId, SealedRecord, VaultId, VersionId};

fn weak_params() -> KdfParams {
    KdfParams {
        memory_kib: 8,
        iterations: 1,
        lanes: 1,
    }
}

#[test]
fn interactive_profile_matches_the_documented_rfc_9106_64_mib_profile() {
    assert_eq!(
        KdfParams::interactive(),
        KdfParams {
            memory_kib: DEFAULT_ARGON2_MEMORY_KIB,
            iterations: DEFAULT_ARGON2_ITERATIONS,
            lanes: DEFAULT_ARGON2_LANES,
        }
    );
    assert_eq!(DEFAULT_ARGON2_MEMORY_KIB, 65_536);
    assert_eq!(DEFAULT_ARGON2_ITERATIONS, 3);
    assert_eq!(DEFAULT_ARGON2_LANES, 4);
}

#[test]
fn persisted_legacy_one_lane_descriptor_remains_unlockable() {
    let root_key = [0x5au8; 32];
    let envelope = seal_root_key(
        "test passphrase",
        VaultId::random(),
        &root_key,
        KdfParams {
            memory_kib: 8,
            iterations: 1,
            lanes: 1,
        },
    )
    .expect("legacy descriptor envelope");
    assert_eq!(envelope.params.lanes, 1);
    let opened = open_root_key("test passphrase", &envelope).expect("legacy descriptor unlock");
    assert_eq!(opened, root_key);
}

#[test]
fn a_wrong_passphrase_and_a_foreign_vault_fail_alike() {
    let root_key = [7u8; 32];
    let mut envelope =
        seal_root_key("right", VaultId::random(), &root_key, weak_params()).expect("envelope");
    assert_eq!(
        open_root_key("wrong", &envelope),
        Err(VaultError::UnlockFailed)
    );
    envelope.vault_id = VaultId::random();
    assert_eq!(
        open_root_key("right", &envelope),
        Err(VaultError::UnlockFailed)
    );
}

#[test]
fn unusable_costs_are_refused() {
    let unusable = KdfParams {
        memory_kib: 8,
        iterations: 1,
        lanes: 2,
    };
    assert!(seal_root_key("passphrase", VaultId::random(), &[1; 32], unusable).is_err());
}

#[test]
fn a_sealed_record_matches_the_aes_256_gcm_siv_test_vector() {
    // RFC 8452, appendix C.2: an eight-byte plaintext without associated data.
    let mut key = [0u8; 32];
    key[0] = 1;
    let mut nonce = [0u8; 12];
    nonce[0] = 3;
    let record = seal_with_nonce(&key, nonce, &[], &[1, 0, 0, 0, 0, 0, 0, 0]).expect("seal");
    assert_eq!(
        record.ciphertext,
        vec![
            0xc2, 0xef, 0x32, 0x8e, 0x5c, 0x71, 0xc8, 0x3b, 0x84, 0x31, 0x22, 0x13, 0x0f, 0x73,
            0x64, 0xb7, 0x61, 0xe0, 0xb9, 0x74, 0x27, 0xe3, 0xdf, 0x28,
        ]
    );
    assert_eq!(
        open(&key, &[], &record).expect("open"),
        vec![1, 0, 0, 0, 0, 0, 0, 0]
    );
}

#[test]
fn a_record_opens_only_under_its_key_and_context() {
    let key = generate_dek();
    let record = seal(&key, b"context", b"message").expect("seal");
    assert_eq!(open(&key, b"context", &record).expect("open"), b"message");
    assert_eq!(
        open(&key, b"another context", &record),
        Err(VaultError::Authentication)
    );
    assert_eq!(
        open(&generate_dek(), b"context", &record),
        Err(VaultError::Authentication)
    );
    let mut tampered = SealedRecord {
        nonce: record.nonce,
        ciphertext: record.ciphertext.clone(),
    };
    tampered.ciphertext[0] ^= 1;
    assert_eq!(
        open(&key, b"context", &tampered),
        Err(VaultError::Authentication)
    );
}

#[test]
fn derived_keys_depend_on_every_input() {
    let vault = VaultId::from_slice(&[1; 16]).expect("vault");
    let other = VaultId::from_slice(&[2; 16]).expect("vault");
    let kek = derive_kek(&[9; 32], vault).expect("kek");
    assert_eq!(kek, derive_kek(&[9; 32], vault).expect("kek"));
    assert_ne!(kek, derive_kek(&[9; 32], other).expect("kek"));
    assert_ne!(kek, derive_kek(&[8; 32], vault).expect("kek"));
    assert_ne!(kek, [9; 32]);
    let version = VersionId::from_slice(&[1; 16]).expect("version");
    assert_ne!(
        kek,
        derive_manifest_key(&[9; 32], version).expect("manifest key")
    );
}

#[test]
fn contexts_spell_out_what_they_bind() {
    let vault = VaultId::from_slice(&[1; 16]).expect("vault");
    let object = ObjectId::from_slice(&[2; 16]).expect("object");
    let version = VersionId::from_slice(&[3; 16]).expect("version");
    let chunk = chunk_aad(vault, object, version, 5, 6);
    let manifest = manifest_aad(vault, object, version);
    let wrapped = wrapped_dek_aad(vault, object, version);
    assert!(chunk.ends_with(&[0, 0, 0, 5, 0, 0, 0, 6]));
    assert_ne!(manifest, wrapped);
    assert!(manifest.ends_with(&[3; 16]));
    assert_ne!(chunk, chunk_aad(vault, object, version, 6, 5));
}

#[test]
fn chunk_digest_covers_index_order_and_contents() {
    let first = SealedRecord {
        nonce: [1; 12],
        ciphertext: vec![1, 2, 3],
    };
    let second = SealedRecord {
        nonce: [2; 12],
        ciphertext: vec![4, 5],
    };
    let mut builder = ChunkDigestBuilder::new();
    builder.update(0, &first);
    builder.update(1, &second);
    let digest = builder.finalize();
    let copy = |record: &SealedRecord| SealedRecord {
        nonce: record.nonce,
        ciphertext: record.ciphertext.clone(),
    };
    assert_eq!(
        digest,
        chunk_digest(&[(0, copy(&first)), (1, copy(&second))])
    );
    assert_ne!(
        digest,
        chunk_digest(&[(1, copy(&first)), (0, copy(&second))])
    );
    assert_ne!(
        digest,
        chunk_digest(&[(0, copy(&second)), (1, copy(&first))])
    );
    assert_ne!(digest, chunk_digest(&[(0, copy(&first))]));
}

#[test]
fn persisted_memory_cost_is_bounded() {
    let mut params = weak_params();
    params.memory_kib = 262_144;
    assert_eq!(params.validate_persisted(), Ok(()));
    params.memory_kib = 262_145;
    assert_eq!(
        params.validate_persisted(),
        Err(VaultError::InvalidFormat("Argon2id KDF parameter policy"))
    );
}
