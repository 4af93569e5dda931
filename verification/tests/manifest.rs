use vlt1::cde::{decode_manifest, encode_manifest};
use vlt1::error::VaultError;
use vlt1::format::{Manifest, ObjectId, VersionId, FORMAT_VERSION};
use vlt1::fuzz_decode_manifest;

fn sample_manifest() -> Manifest {
    Manifest {
        format_version: FORMAT_VERSION,
        object_id: ObjectId::from_slice(&[1u8; 16]).expect("valid object ID"),
        version_id: VersionId::from_slice(&[2u8; 16]).expect("valid version ID"),
        plaintext_len: 1024,
        chunk_size: 512,
        chunk_count: 2,
        chunk_digest: [3u8; 32],
    }
}

#[test]
fn canonical_manifest_bytes_match_the_fixed_wire_vector() {
    let manifest = Manifest {
        format_version: 1,
        object_id: ObjectId::from_slice(&(0u8..16).collect::<Vec<_>>()).expect("fixed object ID"),
        version_id: VersionId::from_slice(&(16u8..32).collect::<Vec<_>>())
            .expect("fixed version ID"),
        plaintext_len: 0x0102,
        chunk_size: 4096,
        chunk_count: 2,
        chunk_digest: [0xa5; 32],
    };
    let expected = [
        &[0xa8, 0x01, 0x01, 0x02, 0x50][..],
        &(0u8..16).collect::<Vec<_>>(),
        &[0x03, 0x50][..],
        &(16u8..32).collect::<Vec<_>>(),
        &[
            0x04, 0x19, 0x01, 0x02, 0x05, 0x19, 0x10, 0x00, 0x06, 0x02, 0x07, 0x58, 0x20,
        ][..],
        &[0xa5; 32],
        &[0x08, 0x01][..],
    ]
    .concat();

    assert_eq!(encode_manifest(&manifest), expected);
    assert_eq!(
        decode_manifest(&expected).expect("decode fixed vector"),
        manifest
    );
}

#[test]
fn manifest_encoding_is_deterministic_and_round_trips() {
    let manifest = sample_manifest();
    let encoded_once = encode_manifest(&manifest);
    let encoded_twice = encode_manifest(&manifest);
    assert_eq!(encoded_once, encoded_twice);
    assert_eq!(
        decode_manifest(&encoded_once).expect("decode manifest"),
        manifest
    );
}

#[test]
fn canonical_encoding_round_trips_arbitrary_manifest_fields() {
    for (format_version, plaintext_len, chunk_size, chunk_count) in [
        (0u32, 0u64, 0u32, 0u32),
        (23, 24, 255, 256),
        (65_535, 65_536, u32::MAX, u32::MAX),
        (u32::MAX, u64::MAX, 1, 65_536),
        (1, 4_294_967_296, 24, 23),
    ] {
        let manifest = Manifest {
            format_version,
            object_id: ObjectId::from_slice(&[0xff; 16]).expect("fixed object ID"),
            version_id: VersionId::from_slice(&[0; 16]).expect("fixed version ID"),
            plaintext_len,
            chunk_size,
            chunk_count,
            chunk_digest: [0x5a; 32],
        };
        assert_eq!(
            decode_manifest(&encode_manifest(&manifest)).expect("round trip"),
            manifest
        );
    }
}

#[test]
fn manifest_rejects_non_canonical_integer_encoding() {
    let manifest = sample_manifest();
    let mut encoded = encode_manifest(&manifest);
    // Change the map field count from canonical 8 to a non-matching form.
    encoded[0] = 0xb8;
    assert!(decode_manifest(&encoded).is_err());
}

#[test]
fn manifest_rejects_an_integer_in_a_wider_form() {
    let mut encoded = encode_manifest(&sample_manifest());
    encoded.splice(1..2, [0x18, 0x01]);
    assert!(decode_manifest(&encoded).is_err());
}

#[test]
fn manifest_rejects_every_truncation_and_trailing_bytes() {
    let bytes = encode_manifest(&sample_manifest());
    for length in 0..bytes.len() {
        assert!(matches!(
            decode_manifest(&bytes[..length]),
            Err(VaultError::InvalidFormat(_))
        ));
        fuzz_decode_manifest(&bytes[..length]);
    }
    let mut longer = bytes.clone();
    longer.push(0);
    assert!(decode_manifest(&longer).is_err());
}

#[test]
fn accepted_bytes_have_only_one_spelling() {
    let bytes = encode_manifest(&sample_manifest());
    for position in 0..bytes.len() {
        for bit in 0..8u32 {
            let mut changed = bytes.clone();
            changed[position] ^= 1 << bit;
            if let Ok(manifest) = decode_manifest(&changed) {
                assert_eq!(encode_manifest(&manifest), changed);
                assert_ne!(manifest, sample_manifest());
            }
        }
    }
}
