//! The blockchain network that a configuration is made for.

use vstd::prelude::*;
use vstd::string::StringExecFns;

verus! {

/// The network of a configuration for which none, or none that is known, was
/// asked for.
pub const DEFAULT_NETWORK: &'static str = "mainnet";

/// Whether `name` is one of the networks that `dg_xch_core` has consensus
/// constants for.
pub open spec fn is_consensus_network(name: Seq<char>) -> bool {
    ||| name == "simulator"@
    ||| name == "testnet0"@
    ||| name == "testnet2"@
    ||| name == "testnet3"@
    ||| name == "testnet4"@
    ||| name == "testnet5"@
    ||| name == "testnet7"@
    ||| name == "testnet10"@
    ||| name == "testnet11"@
    ||| name == "mainnet"@
}

/// Looks a name up in `dg_xch_core::consensus::constants::CONSENSUS_CONSTANTS_MAP`.
/// Claims that the keys of that map are the ten names that
/// `is_consensus_network` lists.
#[verifier::external_body]
pub(crate) fn has_consensus_constants(name: &String) -> (known: bool)
    ensures
        known == is_consensus_network(name@),
{
    dg_xch_core::consensus::constants::CONSENSUS_CONSTANTS_MAP.contains_key(name)
}

/// The network of a run: the one that was asked for where it is known, the
/// default network where it is not or where none was asked for.
pub open spec fn selected_network(requested: Option<Seq<char>>) -> Seq<char> {
    match requested {
        Some(name) => if is_consensus_network(name) {
            name
        } else {
            DEFAULT_NETWORK@
        },
        None => DEFAULT_NETWORK@,
    }
}

/// Chooses the network of a run.
pub fn select_network(requested: Option<String>) -> (network: String)
    ensures
        network@ == selected_network(
            match requested {
                Some(name) => Some(name@),
                None => None,
            },
        ),
{
    match requested {
        Some(name) => {
            if has_consensus_constants(&name) {
                name
            } else {
                String::from_str(DEFAULT_NETWORK)
            }
        },
        None => String::from_str(DEFAULT_NETWORK),
    }
}

} // verus!
