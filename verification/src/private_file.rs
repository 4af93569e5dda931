//! Owner-private persistent state files.
use crate::error::VaultError;
use crate::path_safety::PathState;
use vstd::prelude::*;

verus! {

/// Mode that state files are given.
pub const PRIVATE_FILE_MODE: u32 = 0o600;

/// Whether permission bits are exactly those of [`PRIVATE_FILE_MODE`].
pub open spec fn owner_private(mode: u32) -> bool {
    mode & 0o777 == PRIVATE_FILE_MODE
}

/// The verdict on a state file: whether it has to be repaired to [`PRIVATE_FILE_MODE`].
pub open spec fn file_verdict(found: PathState) -> Result<bool, VaultError> {
    match found {
        PathState::Missing => Err(VaultError::Storage),
        PathState::Unreadable => Err(VaultError::Storage),
        PathState::Regular { mode } => Ok(!owner_private(mode)),
        _ => Err(VaultError::InvalidInput("VLT/1 state file type")),
    }
}

/// The verdict on a companion file, which may be missing.
pub open spec fn optional_file_verdict(found: PathState) -> Result<bool, VaultError> {
    match found {
        PathState::Missing => Ok(false),
        _ => file_verdict(found),
    }
}

/// Decides whether a regular state file must be restricted to its owner. Symlinks,
/// directories, sockets and other special files are refused.
pub fn enforce_owner_private_file(found: PathState) -> (res: Result<bool, VaultError>)
    ensures
        res == file_verdict(found),
{
    match found {
        PathState::Missing => Err(VaultError::Storage),
        PathState::Unreadable => Err(VaultError::Storage),
        PathState::Regular { mode } => Ok(mode & 0o777 != PRIVATE_FILE_MODE),
        _ => Err(VaultError::InvalidInput("VLT/1 state file type")),
    }
}

/// Decides the same for a companion file, whose absence is accepted.
pub fn enforce_owner_private_optional_file(found: PathState) -> (res: Result<bool, VaultError>)
    ensures
        res == optional_file_verdict(found),
{
    match found {
        PathState::Missing => Ok(false),
        _ => enforce_owner_private_file(found),
    }
}

/// Which files of a database are to be repaired, and what the enforcement comes to.
#[derive(Clone, Copy, Debug)]
pub struct StatePlan {
    /// Whether the database file is repaired.
    pub repair_database: bool,
    /// Whether the write-ahead log is repaired.
    pub repair_wal: bool,
    /// Whether the shared-memory file is repaired.
    pub repair_shm: bool,
    /// The outcome once the repairs are made.
    pub outcome: Result<(), VaultError>,
}

/// The plan for a database and its companions: each file up to the first refusal.
pub open spec fn state_plan(database: PathState, wal: PathState, shm: PathState) -> StatePlan {
    match file_verdict(database) {
        Err(error) => StatePlan {
            repair_database: false,
            repair_wal: false,
            repair_shm: false,
            outcome: Err(error),
        },
        Ok(repair_database) => match optional_file_verdict(wal) {
            Err(error) => StatePlan {
                repair_database,
                repair_wal: false,
                repair_shm: false,
                outcome: Err(error),
            },
            Ok(repair_wal) => match optional_file_verdict(shm) {
                Err(error) => StatePlan {
                    repair_database,
                    repair_wal,
                    repair_shm: false,
                    outcome: Err(error),
                },
                Ok(repair_shm) => StatePlan {
                    repair_database,
                    repair_wal,
                    repair_shm,
                    outcome: Ok(()),
                },
            },
        },
    }
}

/// Plans the restriction of a database and its present companion files to their owner. The
/// database is required; missing companion files are safe.
pub fn enforce_owner_private_sqlite_state(database: PathState, wal: PathState, shm: PathState) -> (
res: StatePlan)
    ensures
        res == state_plan(database, wal, shm),
{
    let mut plan = StatePlan {
        repair_database: false,
        repair_wal: false,
        repair_shm: false,
        outcome: Ok(()),
    };
    match enforce_owner_private_file(database) {
        Ok(repair) => {
            plan.repair_database = repair;
        },
        Err(error) => {
            plan.outcome = Err(error);
            return plan;
        },
    }
    match enforce_owner_private_optional_file(wal) {
        Ok(repair) => {
            plan.repair_wal = repair;
        },
        Err(error) => {
            plan.outcome = Err(error);
            return plan;
        },
    }
    match enforce_owner_private_optional_file(shm) {
        Ok(repair) => {
            plan.repair_shm = repair;
        },
        Err(error) => {
            plan.outcome = Err(error);
        },
    }
    plan
}

/// Why a secret file is refused.
#[derive(Clone, Copy, Debug, PartialEq, Eq, Structural)]
pub enum SecretFileError {
    /// It is not a regular file.
    NotRegular,
    /// Group or others have access to it.
    Exposed,
    /// It holds nothing but white space.
    Empty,
}

/// Checks that a secret file is a regular file without access for group or others.
pub fn check_secret_file(is_file: bool, mode: u32) -> (res: Result<(), SecretFileError>)
    ensures
        res == if !is_file {
            Err::<(), _>(SecretFileError::NotRegular)
        } else if mode & 0o077 != 0 {
            Err(SecretFileError::Exposed)
        } else {
            Ok(())
        },
{
    if !is_file {
        return Err(SecretFileError::NotRegular);
    }
    if mode & 0o077 != 0 {
        return Err(SecretFileError::Exposed);
    }
    Ok(())
}

/// Takes the text of a secret file without the white space around it.
pub fn secret_text(content: &str) -> (res: Result<String, SecretFileError>)
    ensures
        match res {
            Ok(secret) => {
                &&& secret@ == crate::text::trimmed(content@)
                &&& secret@.len() > 0
            },
            Err(error) => {
                &&& crate::text::trimmed(content@).len() == 0
                &&& error == SecretFileError::Empty
            },
        },
{
    let secret = crate::text::trim(content);
    if secret.unicode_len() == 0 {
        return Err(SecretFileError::Empty);
    }
    Ok(secret.to_string())
}

/// A repaired file needs no further repair, and neither does a database whose files were
/// all repaired.
pub proof fn repair_is_final(wal_present: bool, shm_present: bool)
    ensures
        ({
            let repaired = PathState::Regular { mode: PRIVATE_FILE_MODE };
            let wal = if wal_present { repaired } else { PathState::Missing };
            let shm = if shm_present { repaired } else { PathState::Missing };
            &&& file_verdict(repaired) == Ok::<bool, VaultError>(false)
            &&& state_plan(repaired, wal, shm) == (StatePlan {
                repair_database: false,
                repair_wal: false,
                repair_shm: false,
                outcome: Ok(()),
            })
        }),
{
    assert(0o600u32 & 0o777 == 0o600) by (bit_vector);
}

/// A state file is repaired exactly where it is a regular file whose permission bits are not
/// read and write for its owner alone. What is not a regular file is never repaired, and only
/// a companion may be missing.
pub proof fn files_are_repaired_to_owner_only(found: PathState)
    ensures
        match found {
            PathState::Regular { mode } => {
                &&& file_verdict(found) == Ok::<bool, VaultError>(mode & 0o777 != 0o600)
                &&& optional_file_verdict(found) == file_verdict(found)
            },
            PathState::Missing => {
                &&& file_verdict(found) == Err::<bool, _>(VaultError::Storage)
                &&& optional_file_verdict(found) == Ok::<bool, VaultError>(false)
            },
            PathState::Unreadable => {
                &&& file_verdict(found) == Err::<bool, _>(VaultError::Storage)
                &&& optional_file_verdict(found) == Err::<bool, _>(VaultError::Storage)
            },
            _ => {
                &&& file_verdict(found) matches Err(error) && error is InvalidInput
                &&& optional_file_verdict(found) == file_verdict(found)
            },
        },
{
}

/// A database and its companions are all judged: each file up to the first refusal is
/// repaired where it needs it, and the outcome is a success exactly where none is refused.
pub proof fn every_state_file_is_judged(database: PathState, wal: PathState, shm: PathState)
    ensures
        ({
            let plan = state_plan(database, wal, shm);
            &&& plan.outcome is Ok <==> file_verdict(database) is Ok && optional_file_verdict(wal)
                is Ok && optional_file_verdict(shm) is Ok
            &&& plan.repair_database <==> file_verdict(database) == Ok::<bool, VaultError>(true)
            &&& plan.outcome is Ok ==> {
                &&& plan.repair_wal <==> optional_file_verdict(wal) == Ok::<bool, VaultError>(true)
                &&& plan.repair_shm <==> optional_file_verdict(shm) == Ok::<bool, VaultError>(true)
            }
        }),
{
}

} // verus!
