//! Fail-closed validation of filesystem paths.
//!
//! The decisions in this module judge what was found at a path before an
//! operation opens or creates a security-sensitive vault artifact. Symlinks are
//! rejected rather than resolved, so an operator must provide a direct, stable
//! path inside real existing directories.
use crate::error::VaultError;
use vstd::prelude::*;

verus! {

/// What was found at a path, without following a symlink.
#[derive(Clone, Copy, Debug, PartialEq, Eq, Structural)]
pub enum PathState {
    /// A regular file with its permission bits.
    Regular {
        /// Permission bits.
        mode: u32,
    },
    /// A directory.
    Directory,
    /// A symlink.
    Symlink,
    /// A socket, device or other special file.
    Other,
    /// Nothing.
    Missing,
    /// The path could not be inspected.
    Unreadable,
}

/// Whether everything in a list is a directory.
pub open spec fn all_directories(states: Seq<PathState>) -> bool {
    forall|i: int| 0 <= i < states.len() ==> (#[trigger] states[i]) is Directory
}

/// The verdict on the directories above a path, nearest first. `parents` is nothing where
/// the path has no parent.
pub open spec fn parents_verdict(parents: Option<Seq<PathState>>, input: &'static str) -> Result<
    (),
    VaultError,
> {
    match parents {
        None => Err(VaultError::InvalidInput(input)),
        Some(parents) => if all_directories(parents) {
            Ok(())
        } else {
            Err(VaultError::InvalidInput(input))
        },
    }
}

/// The verdict on a path that must name an existing regular file.
pub open spec fn existing_file_verdict(
    parents: Option<Seq<PathState>>,
    found: PathState,
    input: &'static str,
) -> Result<(), VaultError> {
    match parents_verdict(parents, input) {
        Err(error) => Err(error),
        Ok(_) => if found is Regular {
            Ok(())
        } else {
            Err(VaultError::InvalidInput(input))
        },
    }
}

/// The verdict on a path at which a new file is to be made.
pub open spec fn new_file_verdict(
    parents: Option<Seq<PathState>>,
    found: PathState,
    input: &'static str,
) -> Result<(), VaultError> {
    match parents_verdict(parents, input) {
        Err(error) => Err(error),
        Ok(_) => match found {
            PathState::Missing => Ok(()),
            PathState::Unreadable => Err(VaultError::Storage),
            _ => Err(VaultError::InvalidInput(input)),
        },
    }
}

/// The states behind an optional list.
pub open spec fn listed(parents: Option<&Vec<PathState>>) -> Option<Seq<PathState>> {
    match parents {
        Some(parents) => Some(parents@),
        None => None,
    }
}

/// Validates that every directory above a path is a real existing directory.
pub fn validate_parent_directory(parents: Option<&Vec<PathState>>, input: &'static str) -> (res:
    Result<(), VaultError>)
    ensures
        res == parents_verdict(listed(parents), input),
{
    match parents {
        None => Err(VaultError::InvalidInput(input)),
        Some(states) => {
            let mut index: usize = 0;
            while index < states.len()
                invariant
                    listed(parents) == Some(states@),
                    index <= states@.len(),
                    forall|i: int| 0 <= i < index ==> (#[trigger] states@[i]) is Directory,
                decreases states@.len() - index,
            {
                if states[index] != PathState::Directory {
                    assert(!(states@[index as int] is Directory));
                    return Err(VaultError::InvalidInput(input));
                }
                index += 1;
            }
            Ok(())
        },
    }
}

/// Validates a direct existing regular file and the directories above it.
pub fn validate_existing_regular_file(
    parents: Option<&Vec<PathState>>,
    found: PathState,
    input: &'static str,
) -> (res: Result<(), VaultError>)
    ensures
        res == existing_file_verdict(listed(parents), found, input),
{
    validate_parent_directory(parents, input)?;
    match found {
        PathState::Regular { mode: _ } => Ok(()),
        _ => Err(VaultError::InvalidInput(input)),
    }
}

/// Validates a direct new-file destination and the directories above it.
pub fn validate_new_regular_file(
    parents: Option<&Vec<PathState>>,
    found: PathState,
    input: &'static str,
) -> (res: Result<(), VaultError>)
    ensures
        res == new_file_verdict(listed(parents), found, input),
{
    validate_parent_directory(parents, input)?;
    match found {
        PathState::Missing => Ok(()),
        PathState::Unreadable => Err(VaultError::Storage),
        _ => Err(VaultError::InvalidInput(input)),
    }
}

/// The verdict on the path of a witness's state, which may or may not exist yet.
pub open spec fn state_path_verdict(parents: Option<Seq<PathState>>, found: PathState) -> Result<
    (),
    VaultError,
> {
    match parents_verdict(parents, "witness state path") {
        Err(error) => Err(error),
        Ok(_) => match found {
            PathState::Regular { .. } => Ok(()),
            PathState::Missing => Ok(()),
            PathState::Unreadable => Err(VaultError::Storage),
            _ => Err(VaultError::InvalidInput("witness state path")),
        },
    }
}

/// Validates the path of a witness's state and the directories above it.
pub fn validate_state_path(parents: Option<&Vec<PathState>>, found: PathState) -> (res: Result<
    (),
    VaultError,
>)
    ensures
        res == state_path_verdict(listed(parents), found),
{
    validate_parent_directory(parents, "witness state path")?;
    match found {
        PathState::Regular { mode: _ } => Ok(()),
        PathState::Missing => Ok(()),
        PathState::Unreadable => Err(VaultError::Storage),
        _ => Err(VaultError::InvalidInput("witness state path")),
    }
}

/// No accepted path leads through a symlink: not at the path itself and not above it.
pub proof fn symlinks_are_never_accepted(
    parents: Seq<PathState>,
    found: PathState,
    input: &'static str,
)
    requires
        found == PathState::Symlink || parents.contains(PathState::Symlink),
    ensures
        existing_file_verdict(Some(parents), found, input) is Err,
        new_file_verdict(Some(parents), found, input) is Err,
        state_path_verdict(Some(parents), found) is Err,
{
    if parents.contains(PathState::Symlink) {
        let i = choose|i: int| 0 <= i < parents.len() && parents[i] == PathState::Symlink;
        assert(!(parents[i] is Directory));
    }
}

/// A path is accepted exactly where every ancestor is a directory and the path itself is what
/// is asked for: a regular file, nothing yet, or either of them for a witness's state.
pub proof fn paths_are_accepted_by_what_they_name(
    parents: Option<Seq<PathState>>,
    found: PathState,
    input: &'static str,
)
    ensures
        ({
            let below = parents matches Some(states) && forall|i: int|
                0 <= i < states.len() ==> (#[trigger] states[i]) is Directory;
            &&& parents_verdict(parents, input) is Ok <==> below
            &&& existing_file_verdict(parents, found, input) is Ok <==> below && found is Regular
            &&& new_file_verdict(parents, found, input) is Ok <==> below && found is Missing
            &&& state_path_verdict(parents, found) is Ok <==> below && (found is Regular || found
                is Missing)
        }),
{
}

/// The states above a path are judged as they were found.
pub proof fn found_states_are_judged(parents: Vec<PathState>)
    ensures
        listed(Some(&parents)) == Some(parents@),
        listed(None) is None,
{
}

/// A path that is refused is an invalid input, named as the caller names it. Only a path for
/// a new file or for a witness's state that cannot be looked at is a failure of storage.
pub proof fn refused_paths_are_invalid_input(
    parents: Option<Seq<PathState>>,
    found: PathState,
    input: &'static str,
)
    ensures
        parents_verdict(parents, input) matches Err(error) ==> error == VaultError::InvalidInput(
            input,
        ),
        existing_file_verdict(parents, found, input) matches Err(error) ==> error
            == VaultError::InvalidInput(input),
        new_file_verdict(parents, found, input) matches Err(error) ==> error == if found
            is Unreadable && parents_verdict(parents, input) is Ok {
            VaultError::Storage
        } else {
            VaultError::InvalidInput(input)
        },
        state_path_verdict(parents, found) matches Err(error) ==> error == if found is Unreadable
            && parents_verdict(parents, "witness state path") is Ok {
            VaultError::Storage
        } else {
            VaultError::InvalidInput("witness state path")
        },
{
}

} // verus!
