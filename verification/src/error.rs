//! The ways in which a configuration run can fail.

use vstd::prelude::*;
use vstd::string::StringExecFns;
use crate::bytes::Bytes32;

verus! {

/// The primitive that rejected its input when a key or hash was derived.
#[derive(Clone, Copy, Debug, PartialEq, Eq)]
pub enum DerivationStep {
    /// The master key of a seed phrase.
    MasterKey,
    /// The farmer key of the master key.
    FarmerKey,
    /// The pool key of the master key.
    PoolKey,
    /// The wallet key at `index` in the hardened or unhardened hierarchy.
    WalletKey { index: u32, hardened: bool },
    /// The puzzle hash of the public key of the wallet key at `index`.
    WalletPuzzleHash { index: u32, hardened: bool },
    /// The singleton owner key at `index`.
    OwnerKey { index: u32 },
    /// The pooling authentication key at `index`, position 0.
    AuthenticationKey { index: u32 },
    /// The pay-to-singleton puzzle hash of a PlotNFT.
    SingletonPuzzleHash,
}

/// Why a run was aborted. No error is recovered from: each one ends the run.
#[derive(Clone, Copy, Debug, PartialEq, Eq)]
pub enum SetupError {
    /// A derivation primitive rejected its input.
    KeyDerivation(DerivationStep),
    /// The launcher id that was asked for resolves to no PlotNFT.
    NotFound(Bytes32),
    /// The user declined to overwrite an existing configuration.
    UserCanceled,
    /// The configuration could not be written.
    Persistence,
}

impl SetupError {
    /// The text shown to the user for each kind of error.
    pub open spec fn message_text(self) -> Seq<char> {
        match self {
            SetupError::KeyDerivation(_) => "Failed to parse Wallet SK"@,
            SetupError::NotFound(_) => "Failed to find a plotNFT with LauncherID: {launcher_id}"@,
            SetupError::UserCanceled => "User Canceled"@,
            SetupError::Persistence => "Failed to save the configuration"@,
        }
    }

    /// A human-readable message for the error.
    pub fn message(&self) -> (text: String)
        ensures
            text@ == self.message_text(),
    {
        match self {
            SetupError::KeyDerivation(_) => String::from_str("Failed to parse Wallet SK"),
            SetupError::NotFound(_) => String::from_str("Failed to find a plotNFT with LauncherID: {launcher_id}"),
            SetupError::UserCanceled => String::from_str("User Canceled"),
            SetupError::Persistence => String::from_str("Failed to save the configuration"),
        }
    }
}

/// Decides whether a run may write its output: an existing file may be
/// replaced only after the user has agreed.
pub fn confirm_overwrite(exists: bool, confirmed: bool) -> (decision: Result<(), SetupError>)
    ensures
        decision == if exists && !confirmed {
            Err::<(), SetupError>(SetupError::UserCanceled)
        } else {
            Ok::<(), SetupError>(())
        },
{
    if exists && !confirmed {
        Err(SetupError::UserCanceled)
    } else {
        Ok(())
    }
}

} // verus!
