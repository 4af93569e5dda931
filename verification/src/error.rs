//! Error categories of the vault's security boundary.
use vstd::prelude::*;

verus! {

/// Errors returned without plaintext, passphrases or key material.
#[derive(Clone, Copy, Debug, PartialEq, Eq)]
pub enum VaultError {
    /// The caller must unlock the vault before using it.
    Locked,
    /// Passphrase verification or root-key envelope decryption failed.
    UnlockFailed,
    /// An authenticated record could not be verified.
    Authentication,
    /// A persistent record violated the VLT/1 format contract.
    InvalidFormat(&'static str),
    /// A VLT/1 lifecycle invariant was violated.
    Invariant(&'static str),
    /// The requested object or version does not exist.
    NotFound,
    /// A persistent backend operation failed.
    Storage,
    /// Input violates an explicit public API limit.
    InvalidInput(&'static str),
    /// An independently configured freshness witness could not be reached.
    WitnessUnavailable,
    /// Remote witness state contradicts the locally authenticated witness head.
    WitnessConflict,
}

impl VaultError {
    /// Whether an error forces the vault that met it into the locked state.
    pub open spec fn forces_lock(self) -> bool {
        match self {
            VaultError::Authentication => true,
            VaultError::InvalidFormat(_) => true,
            VaultError::Invariant(_) => true,
            VaultError::Storage => true,
            VaultError::WitnessUnavailable => true,
            VaultError::WitnessConflict => true,
            _ => false,
        }
    }

    /// The sentence shown for an error, without secret or untrusted content.
    pub open spec fn text(self) -> Seq<char> {
        match self {
            VaultError::Locked => "vault is locked"@,
            VaultError::UnlockFailed => "unlock failed"@,
            VaultError::Authentication => "authenticated record verification failed"@,
            VaultError::InvalidFormat(detail) => "invalid VLT/1 format: "@ + detail@,
            VaultError::Invariant(detail) => "VLT/1 invariant failed: "@ + detail@,
            VaultError::NotFound => "requested item was not found"@,
            VaultError::Storage => "storage operation failed"@,
            VaultError::InvalidInput(detail) => "invalid input: "@ + detail@,
            VaultError::WitnessUnavailable => "freshness witness is unavailable"@,
            VaultError::WitnessConflict => "freshness witness conflict"@,
        }
    }

    /// Returns whether the current vault instance must transition to `Locked`.
    #[must_use]
    pub fn requires_lock(&self) -> (res: bool)
        ensures
            res == self.forces_lock(),
    {
        matches!(
            self,
            VaultError::Authentication
                | VaultError::InvalidFormat(_)
                | VaultError::Invariant(_)
                | VaultError::Storage
                | VaultError::WitnessUnavailable
                | VaultError::WitnessConflict
        )
    }

    /// Creates a format error while keeping the concrete untrusted bytes private.
    #[must_use]
    pub fn invalid_format(message: &'static str) -> (res: Self)
        ensures
            res == VaultError::InvalidFormat(message),
    {
        VaultError::InvalidFormat(message)
    }

    /// Returns the sentence that describes this error.
    #[must_use]
    pub fn message(&self) -> (res: String)
        ensures
            res@ == self.text(),
            res@ == match *self {
                VaultError::Locked => "vault is locked"@,
                VaultError::UnlockFailed => "unlock failed"@,
                VaultError::Authentication => "authenticated record verification failed"@,
                VaultError::InvalidFormat(detail) => "invalid VLT/1 format: "@ + detail@,
                VaultError::Invariant(detail) => "VLT/1 invariant failed: "@ + detail@,
                VaultError::NotFound => "requested item was not found"@,
                VaultError::Storage => "storage operation failed"@,
                VaultError::InvalidInput(detail) => "invalid input: "@ + detail@,
                VaultError::WitnessUnavailable => "freshness witness is unavailable"@,
                VaultError::WitnessConflict => "freshness witness conflict"@,
            },
    {
        match self {
            VaultError::Locked => "vault is locked".to_owned(),
            VaultError::UnlockFailed => "unlock failed".to_owned(),
            VaultError::Authentication => "authenticated record verification failed".to_owned(),
            VaultError::InvalidFormat(detail) => {
                let mut text = "invalid VLT/1 format: ".to_owned();
                text.append(detail);
                text
            },
            VaultError::Invariant(detail) => {
                let mut text = "VLT/1 invariant failed: ".to_owned();
                text.append(detail);
                text
            },
            VaultError::NotFound => "requested item was not found".to_owned(),
            VaultError::Storage => "storage operation failed".to_owned(),
            VaultError::InvalidInput(detail) => {
                let mut text = "invalid input: ".to_owned();
                text.append(detail);
                text
            },
            VaultError::WitnessUnavailable => "freshness witness is unavailable".to_owned(),
            VaultError::WitnessConflict => "freshness witness conflict".to_owned(),
        }
    }
}

} // verus!
