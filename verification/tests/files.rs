use vlt1::bench::{
    deterministic_payload, expect_empty, expect_plaintext, expect_published, payload_for,
    BenchError, Config, Invocation, Mode,
};
use vlt1::bytes::{hex_decode, hex_encode, lower_hex_decode};
use vlt1::cli::{check_new_passphrase, confirm_passphrase, PassphraseError};
use vlt1::error::VaultError;
use vlt1::format::ObjectId;
use vlt1::path_safety::{
    validate_existing_regular_file, validate_new_regular_file, validate_parent_directory,
    validate_state_path, PathState,
};
use vlt1::private_file::{
    check_secret_file, enforce_owner_private_file,
    enforce_owner_private_optional_file, enforce_owner_private_sqlite_state, secret_text,
    SecretFileError,
};
use vlt1::protocol::Success;
use vlt1::text::{authority_host, is_loopback, parse_decimal, trim, trim_trailing_slashes};

const FILE: PathState = PathState::Regular { mode: 0o100600 };
const EXPOSED: PathState = PathState::Regular { mode: 0o100644 };

#[test]
fn rejects_symlink_files_and_symlink_parent_directories() {
    let direct = vec![PathState::Directory, PathState::Directory];
    let through_link = vec![PathState::Directory, PathState::Symlink];
    let refused = Err(VaultError::InvalidInput("fixture"));
    assert_eq!(
        validate_existing_regular_file(Some(&direct), PathState::Symlink, "fixture"),
        refused
    );
    assert_eq!(
        validate_new_regular_file(Some(&direct), PathState::Symlink, "fixture"),
        refused
    );
    assert_eq!(
        validate_new_regular_file(Some(&through_link), PathState::Missing, "fixture"),
        refused
    );
    assert_eq!(
        validate_existing_regular_file(Some(&direct), FILE, "fixture"),
        Ok(())
    );
    assert_eq!(
        validate_new_regular_file(Some(&direct), PathState::Missing, "fixture"),
        Ok(())
    );
    assert_eq!(
        validate_new_regular_file(Some(&direct), FILE, "fixture"),
        refused
    );
    assert_eq!(
        validate_new_regular_file(Some(&direct), PathState::Unreadable, "fixture"),
        Err(VaultError::Storage)
    );
    assert_eq!(validate_parent_directory(None, "fixture"), refused);
}

#[test]
fn witness_state_rejects_symlink_paths_and_symlinked_parent_directories() {
    let direct = vec![PathState::Directory];
    let linked = vec![PathState::Symlink];
    let refused = Err(VaultError::InvalidInput("witness state path"));
    assert_eq!(
        validate_state_path(Some(&direct), PathState::Symlink),
        refused
    );
    assert_eq!(
        validate_state_path(Some(&linked), PathState::Missing),
        refused
    );
    assert_eq!(
        validate_state_path(Some(&direct), PathState::Missing),
        Ok(())
    );
    assert_eq!(validate_state_path(Some(&direct), FILE), Ok(()));
    assert_eq!(
        validate_state_path(Some(&direct), PathState::Unreadable),
        Err(VaultError::Storage)
    );
}

#[test]
fn regular_file_permissions_are_repaired_to_owner_private() {
    assert_eq!(enforce_owner_private_file(EXPOSED), Ok(true));
    assert_eq!(enforce_owner_private_file(FILE), Ok(false));
    assert_eq!(
        enforce_owner_private_file(PathState::Regular { mode: 0o100400 }),
        Ok(true)
    );
    assert_eq!(
        enforce_owner_private_file(PathState::Regular { mode: 0o100700 }),
        Ok(true)
    );
    let refused = Err(VaultError::InvalidInput("VLT/1 state file type"));
    assert_eq!(enforce_owner_private_file(PathState::Symlink), refused);
    assert_eq!(enforce_owner_private_file(PathState::Directory), refused);
    assert_eq!(enforce_owner_private_file(PathState::Other), refused);
    assert_eq!(
        enforce_owner_private_file(PathState::Missing),
        Err(VaultError::Storage)
    );
}

#[test]
fn missing_optional_sqlite_companion_is_accepted() {
    assert_eq!(
        enforce_owner_private_optional_file(PathState::Missing),
        Ok(false)
    );
    assert_eq!(
        enforce_owner_private_optional_file(PathState::Unreadable),
        Err(VaultError::Storage)
    );
}

#[test]
fn sqlite_state_repairs_database_and_present_companions() {
    let plan = enforce_owner_private_sqlite_state(EXPOSED, EXPOSED, EXPOSED);
    assert!(plan.repair_database && plan.repair_wal && plan.repair_shm);
    assert_eq!(plan.outcome, Ok(()));
    let partial = enforce_owner_private_sqlite_state(EXPOSED, PathState::Symlink, EXPOSED);
    assert!(partial.repair_database && !partial.repair_wal && !partial.repair_shm);
    assert_eq!(
        partial.outcome,
        Err(VaultError::InvalidInput("VLT/1 state file type"))
    );
}

#[test]
fn secret_files_are_private_and_not_blank() {
    assert_eq!(check_secret_file(true, 0o100600), Ok(()));
    assert_eq!(
        check_secret_file(true, 0o100640),
        Err(SecretFileError::Exposed)
    );
    assert_eq!(
        check_secret_file(false, 0o040700),
        Err(SecretFileError::NotRegular)
    );
    assert_eq!(secret_text(" token\u{2003}\n"), Ok("token".to_owned()));
    assert_eq!(secret_text(" \t\n"), Err(SecretFileError::Empty));
}

#[test]
fn trimming_agrees_with_the_standard_library() {
    for code in 0..0x1_1000u32 {
        if let Some(character) = char::from_u32(code) {
            let text = format!("{character}a{character}b{character}");
            assert_eq!(trim(&text), text.trim());
        }
    }
    assert_eq!(trim(""), "");
    assert_eq!(trim_trailing_slashes("https://a//"), "https://a");
    assert_eq!(authority_host("http://127.0.0.1:80/x@y", 7), "127.0.0.1:80");
    assert_eq!(authority_host("http://a:b@c@host?x", 7), "host");
    assert!(is_loopback("127.0.0.1:80"));
    assert!(!is_loopback("127.0.0.1x"));
}

#[test]
fn numbers_parse_as_in_the_standard_library() {
    for text in ["0", "+7", "007", "4294967295", "4294967296", "", "+", "-1", " 1", "1 ", "x"] {
        assert_eq!(
            parse_decimal(text, u64::from(u32::MAX)),
            text.parse::<u32>().ok().map(u64::from)
        );
    }
    assert_eq!(
        parse_decimal("18446744073709551615", u64::MAX),
        Some(u64::MAX)
    );
    assert_eq!(parse_decimal("18446744073709551616", u64::MAX), None);
}

#[test]
fn hexadecimal_text_round_trips() {
    assert_eq!(hex_encode(&[0, 0x0f, 0xa5, 0xff]), "000fa5ff");
    assert_eq!(hex_decode::<2>("A5ff"), Some([0xa5, 0xff]));
    assert_eq!(lower_hex_decode::<2>("A5ff"), None);
    assert_eq!(lower_hex_decode::<2>("a5ff"), Some([0xa5, 0xff]));
    assert_eq!(hex_decode::<2>("a5f"), None);
    assert_eq!(
        ObjectId::from_slice(&[1; 15]).err(),
        Some(VaultError::InvalidFormat("invalid identifier length"))
    );
}

fn arguments(list: &[&str]) -> Vec<String> {
    list.iter().map(|text| (*text).to_owned()).collect()
}

#[test]
fn benchmark_arguments_parse() {
    let Ok(Invocation::Run { config }) = Config::parse(&arguments(&[])) else {
        panic!("defaults");
    };
    assert_eq!(config.payloads_kib, vec![4, 64, 1024, 4096]);
    assert_eq!(config.runs, 5);
    assert_eq!(config.mode, Mode::Both);

    let Ok(Invocation::Run { config }) = Config::parse(&arguments(&[
        "--mode",
        "rpc",
        "--payloads-kib",
        "1,22,+3",
        "--runs",
        "9",
    ])) else {
        panic!("settings");
    };
    assert_eq!(config.payloads_kib, vec![1, 22, 3]);
    assert_eq!(config.runs, 9);
    assert!(config.mode.includes_rpc() && !config.mode.includes_direct());

    assert!(matches!(
        Config::parse(&arguments(&["--runs", "1", "-h"])),
        Ok(Invocation::Help)
    ));
    for (list, expected) in [
        (vec!["--runs"], BenchError::RunsMissing),
        (vec!["--runs", "x"], BenchError::RunsValue),
        (vec!["--runs", "0"], BenchError::Zero),
        (vec!["--payloads-kib"], BenchError::PayloadsMissing),
        (vec!["--payloads-kib", "1,"], BenchError::PayloadsValue),
        (vec!["--payloads-kib", ""], BenchError::PayloadsValue),
        (vec!["--payloads-kib", "1,0"], BenchError::Zero),
        (vec!["--mode"], BenchError::ModeMissing),
        (vec!["--mode", "fast"], BenchError::ModeValue),
        (
            vec!["--mode", "both", "--fast"],
            BenchError::Unknown { position: 2 },
        ),
    ] {
        assert_eq!(Config::parse(&arguments(&list)).err(), Some(expected));
    }
}

#[test]
fn benchmark_payloads_and_results_are_checked() {
    let payload = payload_for(1).expect("payload");
    assert_eq!(payload.len(), 1024);
    assert_eq!(payload[250], 250);
    assert_eq!(payload[251], 0);
    assert_eq!(deterministic_payload(0), Vec::<u8>::new());
    assert_eq!(payload_for(4_194_304), Err(BenchError::PayloadSize));
    assert_eq!(expect_empty(&Success::Empty), Ok(()));
    assert_eq!(
        expect_published(&Success::Empty),
        Err(BenchError::ExpectedPublished)
    );
    assert_eq!(
        expect_empty(&Success::Verified { active_objects: 1 }),
        Err(BenchError::ExpectedEmpty)
    );
    assert_eq!(
        expect_plaintext(&Success::Plaintext {
            plaintext_b64: "AAE=".to_owned()
        }),
        Ok(vec![0, 1])
    );
    assert_eq!(
        expect_plaintext(&Success::Plaintext {
            plaintext_b64: "AAE".to_owned()
        }),
        Err(BenchError::PlaintextEncoding)
    );
}

#[test]
fn new_passphrases_are_confirmed() {
    assert_eq!(check_new_passphrase(""), Err(PassphraseError::Empty));
    assert_eq!(check_new_passphrase("x"), Ok(()));
    assert_eq!(confirm_passphrase("x", "x"), Ok(()));
    assert_eq!(
        confirm_passphrase("x", "y"),
        Err(PassphraseError::Mismatch)
    );
    assert_eq!(
        PassphraseError::Empty.message(),
        "passphrase must not be empty"
    );
    assert_eq!(
        VaultError::InvalidInput("chunk").message(),
        "invalid input: chunk"
    );
    assert_eq!(VaultError::Locked.message(), "vault is locked");
}
