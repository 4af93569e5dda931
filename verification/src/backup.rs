//! Consistent encrypted database snapshots and verified offline restore.
//!
//! A snapshot is accompanied by a checksum manifest. Restoring accepts a
//! snapshot only where its checksum, length, structure and vault identifier all
//! agree with the manifest.
use crate::bytes::{hex_encode, hex_text, is_lower_hex, is_lower_hex_text, same_text};
use crate::error::VaultError;
use crate::format::VaultId;
use crate::primitives::{absorbed, sha256, sha256_absorb, sha256_finish, sha256_start, Sha256Stream};
use vstd::prelude::*;

verus! {

/// Marker of the backup format.
pub const BACKUP_FORMAT: &'static str = "VLT/1 encrypted SQLite backup v1";

/// Non-secret integrity metadata stored beside an encrypted backup.
#[derive(Clone, Debug, PartialEq, Eq)]
pub struct BackupManifest {
    format: String,
    vault_id: String,
    database_sha256: String,
    database_bytes: u64,
}

/// The fields of a backup manifest.
pub ghost struct BackupView {
    pub format: Seq<char>,
    pub vault_id: Seq<char>,
    pub database_sha256: Seq<char>,
    pub database_bytes: u64,
}

impl BackupView {
    /// Whether the fields obey the fixed-width format.
    pub open spec fn well_formed(self) -> bool {
        &&& self.format == BACKUP_FORMAT@
        &&& is_lower_hex_text(self.vault_id, 16)
        &&& is_lower_hex_text(self.database_sha256, 32)
    }

    /// The manifest of a snapshot with the given contents.
    pub open spec fn of_snapshot(vault_id: Seq<u8>, contents: Seq<u8>) -> BackupView {
        BackupView {
            format: BACKUP_FORMAT@,
            vault_id: hex_text(vault_id),
            database_sha256: hex_text(sha256(contents)),
            database_bytes: contents.len() as u64,
        }
    }

    /// The verdict on the checksum and length of a file.
    pub open spec fn checksum_verdict(self, database_sha256: Seq<char>, bytes: u64) -> Result<
        (),
        VaultError,
    > {
        if !self.well_formed() {
            Err(VaultError::InvalidFormat("backup manifest fields"))
        } else if bytes != self.database_bytes || database_sha256 != self.database_sha256 {
            Err(VaultError::Authentication)
        } else {
            Ok(())
        }
    }

    /// The verdict on a backup: its checksum, then its structure, then its vault.
    pub open spec fn backup_verdict(
        self,
        database_sha256: Seq<char>,
        bytes: u64,
        snapshot: SnapshotReport,
    ) -> Result<(), VaultError> {
        match self.checksum_verdict(database_sha256, bytes) {
            Err(error) => Err(error),
            Ok(_) => match snapshot_verdict(snapshot) {
                Err(error) => Err(error),
                Ok(vault_id) => if hex_text(vault_id) != self.vault_id {
                    Err(VaultError::Invariant("backup manifest vault binding"))
                } else {
                    Ok(())
                },
            },
        }
    }
}

impl View for BackupManifest {
    type V = BackupView;

    closed spec fn view(&self) -> BackupView {
        BackupView {
            format: self.format@,
            vault_id: self.vault_id@,
            database_sha256: self.database_sha256@,
            database_bytes: self.database_bytes,
        }
    }
}

/// What a read-only look at a snapshot database found.
#[derive(Clone, Debug)]
pub struct SnapshotReport {
    /// First line of the structural check.
    pub integrity: String,
    /// Whether the foreign-key check found a violation.
    pub foreign_key_violation: bool,
    /// Stored vault identifier.
    pub vault_id: Vec<u8>,
}

/// The vault that a structurally sound snapshot belongs to.
pub open spec fn snapshot_verdict(report: SnapshotReport) -> Result<Seq<u8>, VaultError> {
    if report.integrity@ != "ok"@ {
        Err(VaultError::Invariant("backup SQLite integrity_check"))
    } else if report.foreign_key_violation {
        Err(VaultError::Invariant("backup SQLite foreign-key check"))
    } else if report.vault_id@.len() != 16 {
        Err(VaultError::InvalidFormat("invalid identifier length"))
    } else {
        Ok(report.vault_id@)
    }
}

/// Checks the structure of a snapshot and returns the vault it belongs to.
pub fn verify_snapshot_database(report: &SnapshotReport) -> (res: Result<VaultId, VaultError>)
    ensures
        match (res, snapshot_verdict(*report)) {
            (Ok(vault_id), Ok(expected)) => vault_id@ == expected,
            (Err(error), Err(expected)) => error == expected,
            _ => false,
        },
{
    if !same_text(report.integrity.as_str(), "ok") {
        return Err(VaultError::Invariant("backup SQLite integrity_check"));
    }
    if report.foreign_key_violation {
        return Err(VaultError::Invariant("backup SQLite foreign-key check"));
    }
    VaultId::from_slice(report.vault_id.as_slice())
}

/// Checks that a snapshot that was just taken is sound and belongs to the vault.
pub fn check_created_snapshot(report: &SnapshotReport, vault_id: VaultId) -> (res: Result<
    (),
    VaultError,
>)
    ensures
        res == match snapshot_verdict(*report) {
            Err(error) => Err::<(), VaultError>(error),
            Ok(found) => if found != vault_id@ {
                Err(VaultError::Invariant("backup vault ID binding"))
            } else {
                Ok(())
            },
        },
{
    let found = verify_snapshot_database(report)?;
    if found != vault_id {
        return Err(VaultError::Invariant("backup vault ID binding"));
    }
    Ok(())
}

/// A running checksum and byte count of a file.
pub struct FileChecksum {
    digest: Sha256Stream,
    bytes: u64,
}

impl FileChecksum {
    /// What has been read so far.
    pub closed spec fn contents(&self) -> Seq<u8> {
        absorbed(self.digest)
    }

    /// Whether the count is the number of bytes read.
    pub closed spec fn well_formed(&self) -> bool {
        self.bytes == absorbed(self.digest).len()
    }

    /// Starts before the first byte.
    #[must_use]
    pub fn new() -> (res: Self)
        ensures
            res.well_formed(),
            res.contents() == Seq::<u8>::empty(),
    {
        FileChecksum { digest: sha256_start(), bytes: 0 }
    }

    /// Takes in the next bytes of the file.
    pub fn update(&mut self, part: &[u8]) -> (res: Result<(), VaultError>)
        requires
            old(self).well_formed(),
        ensures
            final(self).well_formed(),
            match res {
                Ok(_) => final(self).contents() == old(self).contents() + part@,
                Err(error) => {
                    &&& old(self).contents().len() + part@.len() > u64::MAX
                    &&& final(self).contents() == old(self).contents()
                    &&& error == VaultError::Invariant("backup size exceeds u64")
                },
            },
    {
        match self.bytes.checked_add(part.len() as u64) {
            Some(bytes) => {
                sha256_absorb(&mut self.digest, part);
                self.bytes = bytes;
                Ok(())
            },
            None => Err(VaultError::Invariant("backup size exceeds u64")),
        }
    }

    /// Returns the lowercase hexadecimal checksum and the length.
    pub fn finish(self) -> (res: (String, u64))
        requires
            self.well_formed(),
        ensures
            res.0@ == hex_text(sha256(self.contents())),
            res.0@.len() == 64,
            res.1 == self.contents().len(),
    {
        let bytes: u64 = self.bytes;
        let digest = sha256_finish(self.digest);
        (hex_encode(digest.as_slice()), bytes)
    }
}

impl BackupManifest {
    /// Returns the backup format marker.
    #[must_use]
    pub fn format(&self) -> (res: &str)
        ensures
            res@ == self@.format,
    {
        self.format.as_str()
    }

    /// Returns the lowercase hexadecimal vault identifier.
    #[must_use]
    pub fn vault_id(&self) -> (res: &str)
        ensures
            res@ == self@.vault_id,
    {
        self.vault_id.as_str()
    }

    /// Returns the lowercase hexadecimal SHA-256 of the backup database.
    #[must_use]
    pub fn database_sha256(&self) -> (res: &str)
        ensures
            res@ == self@.database_sha256,
    {
        self.database_sha256.as_str()
    }

    /// Returns the exact backup database file length.
    #[must_use]
    pub fn database_bytes(&self) -> (res: u64)
        ensures
            res == self@.database_bytes,
    {
        self.database_bytes
    }

    /// Takes over the fields of a stored manifest after validating them.
    pub fn read_from(
        format: String,
        vault_id: String,
        database_sha256: String,
        database_bytes: u64,
    ) -> (res: Result<Self, VaultError>)
        ensures
            ({
                let fields = BackupView {
                    format: format@,
                    vault_id: vault_id@,
                    database_sha256: database_sha256@,
                    database_bytes,
                };
                match res {
                    Ok(manifest) => fields.well_formed() && manifest@ == fields,
                    Err(error) => {
                        &&& !fields.well_formed()
                        &&& error == VaultError::InvalidFormat("backup manifest fields")
                    },
                }
            }),
    {
        let manifest = BackupManifest { format, vault_id, database_sha256, database_bytes };
        manifest.validate()?;
        Ok(manifest)
    }

    fn validate(&self) -> (res: Result<(), VaultError>)
        ensures
            res == if self@.well_formed() {
                Ok::<(), VaultError>(())
            } else {
                Err(VaultError::InvalidFormat("backup manifest fields"))
            },
    {
        if !same_text(self.format.as_str(), BACKUP_FORMAT) || !is_lower_hex(
            self.vault_id.as_str(),
            16,
        ) || !is_lower_hex(self.database_sha256.as_str(), 32) {
            return Err(VaultError::invalid_format("backup manifest fields"));
        }
        Ok(())
    }

    /// Describes a snapshot from its vault and its checksummed contents.
    pub fn from_snapshot(vault_id: VaultId, checksum: FileChecksum) -> (res: Self)
        requires
            checksum.well_formed(),
        ensures
            res@ == BackupView::of_snapshot(vault_id@, checksum.contents()),
            res@.database_bytes == checksum.contents().len(),
            res@.well_formed(),
    {
        let (database_sha256, database_bytes) = checksum.finish();
        proof {
            crate::bytes::hex_round_trip(vault_id@);
            crate::bytes::hex_round_trip(sha256(checksum.contents()));
            vault_id.sixteen_bytes();
        }
        BackupManifest {
            format: BACKUP_FORMAT.to_string(),
            vault_id: vault_id.to_hex(),
            database_sha256,
            database_bytes,
        }
    }

    /// Checks the checksum and length of a file, before its contents are interpreted.
    pub fn verify_checksum(&self, database_sha256: &str, bytes: u64) -> (res: Result<
        (),
        VaultError,
    >)
        ensures
            res == self@.checksum_verdict(database_sha256@, bytes),
    {
        self.validate()?;
        if bytes != self.database_bytes || !same_text(
            database_sha256,
            self.database_sha256.as_str(),
        ) {
            return Err(VaultError::Authentication);
        }
        Ok(())
    }

    /// Verifies manifest format, SHA-256, byte length and database structure.
    pub fn verify_backup(
        &self,
        database_sha256: &str,
        bytes: u64,
        snapshot: &SnapshotReport,
    ) -> (res: Result<(), VaultError>)
        ensures
            res == self@.backup_verdict(database_sha256@, bytes, *snapshot),
    {
        self.verify_checksum(database_sha256, bytes)?;
        let vault_id = verify_snapshot_database(snapshot)?;
        if !same_text(vault_id.to_hex().as_str(), self.vault_id.as_str()) {
            return Err(VaultError::Invariant("backup manifest vault binding"));
        }
        Ok(())
    }
}

/// Returns the manifest path paired with one encrypted snapshot.
#[must_use]
pub fn manifest_path(backup: &str) -> (res: String)
    ensures
        res@ == backup@ + ".vlt1-backup.json"@,
{
    let mut path = backup.to_string();
    path.append(".vlt1-backup.json");
    path
}

/// Returns the path under which a file is built before it takes its destination's name.
#[must_use]
pub fn temporary_path(destination: &str, process: &str) -> (res: String)
    ensures
        res@ == destination@ + ".tmp."@ + process@,
{
    let mut path = destination.to_string();
    path.append(".tmp.");
    path.append(process);
    path
}

/// Refuses a destination that exists or whose parent is not a directory. `parent_is_dir` is
/// nothing where the path has no parent.
pub fn ensure_new_destination(occupied: bool, parent_is_dir: Option<bool>) -> (res: Result<
    (),
    VaultError,
>)
    ensures
        res == if !occupied && parent_is_dir == Some(true) {
            Ok::<(), VaultError>(())
        } else {
            Err(VaultError::InvalidInput("backup destination path"))
        },
{
    match parent_is_dir {
        Some(is_dir) => if occupied || !is_dir {
            Err(VaultError::InvalidInput("backup destination path"))
        } else {
            Ok(())
        },
        None => Err(VaultError::InvalidInput("backup destination path")),
    }
}

/// A manifest written for a snapshot verifies that snapshot, unchanged and sound.
pub proof fn fresh_manifest_verifies(
    vault_id: VaultId,
    contents: Seq<u8>,
    snapshot: SnapshotReport,
)
    requires
        contents.len() <= u64::MAX,
        sha256(contents).len() == 32,
        snapshot_verdict(snapshot) == Ok::<_, VaultError>(vault_id@),
    ensures
        BackupView::of_snapshot(vault_id@, contents).backup_verdict(
            hex_text(sha256(contents)),
            contents.len() as u64,
            snapshot,
        ) == Ok::<(), VaultError>(()),
{
    crate::bytes::hex_round_trip(vault_id@);
    crate::bytes::hex_round_trip(sha256(contents));
    vault_id.sixteen_bytes();
}

/// A backup is accepted only where length, checksum and vault are those of its manifest.
pub proof fn accepted_backup_matches_its_manifest(
    manifest: BackupView,
    database_sha256: Seq<char>,
    bytes: u64,
    snapshot: SnapshotReport,
)
    requires
        manifest.backup_verdict(database_sha256, bytes, snapshot) is Ok,
    ensures
        manifest.well_formed(),
        bytes == manifest.database_bytes,
        database_sha256 == manifest.database_sha256,
        snapshot.vault_id@ == crate::bytes::hex_bytes(manifest.vault_id),
{
    crate::bytes::hex_round_trip(snapshot.vault_id@);
}

/// A backup is accepted exactly where its manifest has the backup format and well-formed
/// fields, the database file has the manifest's length and digest, and the snapshot is sound
/// and of the manifest's vault.
pub proof fn backups_are_accepted_by_their_manifest(
    manifest: BackupView,
    database_sha256: Seq<char>,
    bytes: u64,
    snapshot: SnapshotReport,
)
    ensures
        manifest.backup_verdict(database_sha256, bytes, snapshot) is Ok <==> {
            &&& manifest.format == "VLT/1 encrypted SQLite backup v1"@
            &&& is_lower_hex_text(manifest.database_sha256, 32)
            &&& bytes == manifest.database_bytes
            &&& database_sha256 == manifest.database_sha256
            &&& snapshot.integrity@ == "ok"@
            &&& !snapshot.foreign_key_violation
            &&& snapshot.vault_id@.len() == 16
            &&& manifest.vault_id == hex_text(snapshot.vault_id@)
        },
{
    crate::bytes::hex_round_trip(snapshot.vault_id@);
}

/// A fresh manifest describes its snapshot: the vault, the digest of the whole file and its
/// length.
pub proof fn manifests_describe_their_snapshot(vault_id: Seq<u8>, contents: Seq<u8>)
    requires
        contents.len() <= u64::MAX,
    ensures
        BackupView::of_snapshot(vault_id, contents).format == "VLT/1 encrypted SQLite backup v1"@,
        BackupView::of_snapshot(vault_id, contents).vault_id == hex_text(vault_id),
        BackupView::of_snapshot(vault_id, contents).database_sha256 == hex_text(sha256(contents)),
        BackupView::of_snapshot(vault_id, contents).database_bytes == contents.len(),
{
}

/// A snapshot is sound exactly where the integrity check found nothing, no foreign key is
/// violated and its vault identifier has sixteen bytes, which is then the vault it is of.
pub proof fn sound_snapshots_name_their_vault(report: SnapshotReport)
    ensures
        snapshot_verdict(report) is Ok <==> report.integrity@ == "ok"@
            && !report.foreign_key_violation && report.vault_id@.len() == 16,
        snapshot_verdict(report) matches Ok(vault_id) ==> vault_id == report.vault_id@,
{
}

/// A database file passes its manifest exactly where the manifest is well formed and the file
/// has its length and digest; a file that has not is not authentic.
pub proof fn checksums_are_judged_by_length_and_digest(
    manifest: BackupView,
    database_sha256: Seq<char>,
    bytes: u64,
)
    ensures
        manifest.well_formed() <==> {
            &&& manifest.format == "VLT/1 encrypted SQLite backup v1"@
            &&& is_lower_hex_text(manifest.vault_id, 16)
            &&& is_lower_hex_text(manifest.database_sha256, 32)
        },
        manifest.checksum_verdict(database_sha256, bytes) is Ok <==> {
            &&& manifest.well_formed()
            &&& bytes == manifest.database_bytes
            &&& database_sha256 == manifest.database_sha256
        },
        manifest.well_formed() ==> (manifest.checksum_verdict(database_sha256, bytes) matches Err(
            error,
        ) ==> error is Authentication),
        !manifest.well_formed() ==> (manifest.checksum_verdict(database_sha256, bytes) matches Err(
            error,
        ) ==> error is InvalidFormat),
{
}

} // verus!
