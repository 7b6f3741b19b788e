//! Owner-key matching: which singleton owner key controls a PlotNFT.
//!
//! A PlotNFT records the public key of its owner, never the secret key. The
//! secret key is recovered by deriving the singleton owner keys of the master
//! key in ascending order of index and comparing public keys. The search is
//! bounded, and the lowest matching index wins.

use vstd::prelude::*;
use crate::bytes::{bytes_equal, Bytes32, Bytes48};
use crate::error::{DerivationStep, SetupError};
use crate::keys::{
    compute_public_key, derive_pooling_authentication_key, derive_singleton_owner_key,
    pooling_authentication_key, public_key, singleton_owner_key, MAX_POOL_WALLET_INDEX,
};

verus! {

/// The number of indices that are searched for the owner key of a PlotNFT.
pub const OWNER_SEARCH_LIMIT: u32 = 150;

/// The outcome of a search for an owner key.
#[derive(Clone, Copy, Debug, PartialEq, Eq)]
pub enum OwnerSearch {
    /// The owner key was found at `index`, the lowest index that matches.
    Found {
        /// The index of the owner key.
        index: u32,
        /// The singleton owner key at `index`.
        owner_key: Bytes32,
        /// The pooling authentication key at `index`, position 0.
        auth_key: Bytes32,
    },
    /// No index below the bound matches.
    NotFound {
        /// The number of keys that were derived and compared.
        attempts: u32,
    },
}

/// What an `OwnerSearch` holds, each key as its sequence of bytes.
pub enum OwnerSearchView {
    Found { index: u32, owner_key: Seq<u8>, auth_key: Seq<u8> },
    NotFound { attempts: u32 },
}

impl View for OwnerSearch {
    type V = OwnerSearchView;

    open spec fn view(&self) -> OwnerSearchView {
        match *self {
            OwnerSearch::Found { index, owner_key, auth_key } => OwnerSearchView::Found {
                index,
                owner_key: owner_key@,
                auth_key: auth_key@,
            },
            OwnerSearch::NotFound { attempts } => OwnerSearchView::NotFound { attempts },
        }
    }
}

/// The owner key and the authentication key that a search has found, where it
/// has found them.
pub open spec fn found_keys(search: OwnerSearchView) -> Option<(Seq<u8>, Seq<u8>)> {
    match search {
        OwnerSearchView::Found { owner_key, auth_key, .. } => Some((owner_key, auth_key)),
        OwnerSearchView::NotFound { .. } => None,
    }
}

/// What a pair of optional keys holds.
pub open spec fn keys_view(keys: Option<(Bytes32, Bytes32)>) -> Option<(Seq<u8>, Seq<u8>)> {
    match keys {
        Some((owner_key, auth_key)) => Some((owner_key@, auth_key@)),
        None => None,
    }
}

impl OwnerSearch {
    /// The owner key and the authentication key, where the search has found
    /// them.
    pub fn keys(&self) -> (keys: Option<(Bytes32, Bytes32)>)
        ensures
            keys_view(keys) == found_keys(self@),
    {
        match self {
            OwnerSearch::Found { index: _, owner_key, auth_key } => Some((*owner_key, *auth_key)),
            OwnerSearch::NotFound { attempts: _ } => None,
        }
    }
}

/// What the outcome of a search holds.
pub open spec fn outcome_view(outcome: Result<OwnerSearch, SetupError>) -> Result<OwnerSearchView, SetupError> {
    match outcome {
        Ok(search) => Ok(search@),
        Err(error) => Err(error),
    }
}

/// Whether `position` is the lowest position of `keys` that holds `target`.
pub open spec fn is_first_match<T>(keys: Seq<T>, target: T, position: int) -> bool {
    &&& 0 <= position < keys.len()
    &&& keys[position] == target
    &&& forall|earlier: int| 0 <= earlier < position ==> keys[earlier] != target
}

/// Whether no position of `keys` holds `target`.
pub open spec fn has_no_match<T>(keys: Seq<T>, target: T) -> bool {
    forall|position: int| 0 <= position < keys.len() ==> keys[position] != target
}

/// The public key of the singleton owner key at `index`, `None` where the key
/// cannot be derived.
pub open spec fn owner_public_key(master: Seq<u8>, index: u32) -> Option<Seq<u8>> {
    match singleton_owner_key(master, index) {
        Some(key) => Some(public_key(key)),
        None => None,
    }
}

/// The public keys of the singleton owner keys at the indices below `limit`,
/// in ascending order of index.
pub open spec fn owner_public_keys(master: Seq<u8>, limit: u32) -> Seq<Option<Seq<u8>>> {
    Seq::new(limit as nat, |index: int| owner_public_key(master, index as u32))
}

/// Whether every singleton owner key at an index below `limit` can be derived.
pub open spec fn owner_keys_derivable(master: Seq<u8>, limit: u32) -> bool {
    forall|index: u32| index < limit ==> (#[trigger] singleton_owner_key(master, index)) is Some
}

/// Finds the lowest position of `keys` that holds `target`.
pub fn lowest_matching_index(keys: &Vec<Bytes48>, target: &Bytes48) -> (found: Option<usize>)
    ensures
        match found {
            Some(position) => is_first_match(keys@, *target, position as int),
            None => has_no_match(keys@, *target),
        },
{
    let mut position: usize = 0;
    while position < keys.len()
        invariant
            position <= keys@.len(),
            forall|earlier: int| 0 <= earlier < position ==> keys@[earlier] != *target,
        decreases keys@.len() - position,
    {
        if bytes_equal(&keys[position], target) {
            assert(keys@[position as int] =~= *target);
            return Some(position);
        }
        position += 1;
    }
    None
}

/// The outcome of a search that has reached `index` without a match and goes
/// on up to, but not including, `limit`.
pub open spec fn owner_search(master: Seq<u8>, target: Seq<u8>, index: u32, limit: u32) -> Result<OwnerSearchView, SetupError>
    decreases limit - index,
{
    if index >= limit {
        Ok(OwnerSearchView::NotFound { attempts: limit })
    } else {
        match singleton_owner_key(master, index) {
            None => Err(SetupError::KeyDerivation(DerivationStep::OwnerKey { index })),
            Some(owner_key) => if public_key(owner_key) == target {
                match pooling_authentication_key(master, index, 0) {
                    Some(auth_key) => Ok(OwnerSearchView::Found { index, owner_key, auth_key }),
                    None => Err(SetupError::KeyDerivation(DerivationStep::AuthenticationKey { index })),
                }
            } else {
                owner_search(master, target, (index + 1) as u32, limit)
            },
        }
    }
}

/// Derives the singleton owner key at `index` and its public key.
pub fn derive_owner_key(master: &Bytes32, index: u32) -> (derived: Result<(Bytes32, Bytes48), SetupError>)
    ensures
        match derived {
            Ok((owner_key, public)) => singleton_owner_key(master@, index) == Some(owner_key@)
                && public@ == public_key(owner_key@),
            Err(error) => singleton_owner_key(master@, index) is None
                && error == SetupError::KeyDerivation(DerivationStep::OwnerKey { index }),
        },
{
    match derive_singleton_owner_key(master, index) {
        Ok(owner_key) => {
            let public = compute_public_key(&owner_key);
            Ok((owner_key, public))
        },
        Err(_) => Err(SetupError::KeyDerivation(DerivationStep::OwnerKey { index })),
    }
}

/// Searches the indices below `limit`, in ascending order, for the singleton
/// owner key whose public key is `target`. The search stops at the first match
/// and then derives the pooling authentication key at the same index, position
/// 0. A derivation that fails ends the search with its error.
pub fn search_owner_key(master: &Bytes32, target: &Bytes48, limit: u32) -> (outcome: Result<OwnerSearch, SetupError>)
    requires
        limit <= MAX_POOL_WALLET_INDEX,
    ensures
        outcome_view(outcome) == owner_search(master@, target@, 0, limit),
{
    let mut index: u32 = 0;
    while index < limit
        invariant
            index <= limit <= MAX_POOL_WALLET_INDEX,
            owner_search(master@, target@, 0, limit) == owner_search(master@, target@, index, limit),
        decreases limit - index,
    {
        let (owner_key, public) = match derive_owner_key(master, index) {
            Ok(derived) => derived,
            Err(error) => {
                return Err(error);
            },
        };
        if bytes_equal(&public, target) {
            return match derive_pooling_authentication_key(master, index, 0) {
                Ok(auth_key) => Ok(OwnerSearch::Found { index, owner_key, auth_key }),
                Err(_) => Err(SetupError::KeyDerivation(DerivationStep::AuthenticationKey { index })),
            };
        }
        index += 1;
    }
    Ok(OwnerSearch::NotFound { attempts: index })
}

/// Searches the first `OWNER_SEARCH_LIMIT` indices for the owner key of a
/// PlotNFT.
pub fn match_owner_key(master: &Bytes32, owner_pubkey: &Bytes48) -> (outcome: Result<OwnerSearch, SetupError>)
    ensures
        outcome_view(outcome) == owner_search(master@, owner_pubkey@, 0, OWNER_SEARCH_LIMIT),
{
    search_owner_key(master, owner_pubkey, OWNER_SEARCH_LIMIT)
}

/// Whether a search that has reached `index` without a match fails there:
/// the owner key cannot be derived, or it matches and the authentication key
/// cannot be derived.
pub open spec fn search_fails_at(master: Seq<u8>, target: Seq<u8>, index: u32) -> bool {
    ||| singleton_owner_key(master, index) is None
    ||| owner_public_key(master, index) == Some(target) && pooling_authentication_key(master, index, 0) is None
}

/// The error of a search that fails at `index`: it names the key that could
/// not be derived.
pub open spec fn search_error(master: Seq<u8>, index: u32) -> SetupError {
    if singleton_owner_key(master, index) is None {
        SetupError::KeyDerivation(DerivationStep::OwnerKey { index })
    } else {
        SetupError::KeyDerivation(DerivationStep::AuthenticationKey { index })
    }
}

/// Whether a search of the indices below `limit` fails at `index` with
/// `error`: every earlier key was derived and none matched.
pub open spec fn search_aborts(master: Seq<u8>, target: Seq<u8>, limit: u32, index: u32, error: SetupError) -> bool {
    &&& index < limit
    &&& owner_keys_derivable(master, index)
    &&& has_no_match(owner_public_keys(master, index), Some(target))
    &&& search_fails_at(master, target, index)
    &&& error == search_error(master, index)
}

/// Whether `outcome` is what a search of the indices below `limit` for the
/// owner key with public key `target` has to end with: the keys of the lowest
/// index that matches; no match after `limit` attempts, where no index
/// matches; or the error of the first derivation that fails, where one fails
/// before a match is made.
pub open spec fn is_search_outcome(master: Seq<u8>, target: Seq<u8>, limit: u32, outcome: Result<OwnerSearchView, SetupError>) -> bool {
    match outcome {
        Ok(OwnerSearchView::Found { index, owner_key, auth_key }) => {
            &&& is_first_match(owner_public_keys(master, limit), Some(target), index as int)
            &&& owner_keys_derivable(master, index)
            &&& singleton_owner_key(master, index) == Some(owner_key)
            &&& pooling_authentication_key(master, index, 0) == Some(auth_key)
        },
        Ok(OwnerSearchView::NotFound { attempts }) => {
            &&& attempts == limit
            &&& has_no_match(owner_public_keys(master, limit), Some(target))
            &&& owner_keys_derivable(master, limit)
        },
        Err(error) => exists|index: u32| #[trigger] search_aborts(master, target, limit, index, error),
    }
}

/// The index at which a search has found the owner key, where it has found
/// one.
pub open spec fn found_index(outcome: Result<OwnerSearchView, SetupError>) -> Option<u32> {
    match outcome {
        Ok(OwnerSearchView::Found { index, .. }) => Some(index),
        _ => None,
    }
}

/// A search that has reached `index` without a match and with every key
/// derived ends as a search from the start has to.
proof fn search_from_ends_as_it_has_to(master: Seq<u8>, target: Seq<u8>, index: u32, limit: u32)
    requires
        index <= limit,
        owner_keys_derivable(master, index),
        has_no_match(owner_public_keys(master, index), Some(target)),
    ensures
        is_search_outcome(master, target, limit, owner_search(master, target, index, limit)),
    decreases limit - index,
{
    let keys = owner_public_keys(master, limit);
    let searched = owner_public_keys(master, index);
    assert forall|earlier: int| 0 <= earlier < index implies keys[earlier] != Some(target) by {
        assert(searched[earlier] != Some(target));
    }
    if index < limit {
        match singleton_owner_key(master, index) {
            None => {
                assert(search_aborts(
                    master,
                    target,
                    limit,
                    index,
                    SetupError::KeyDerivation(DerivationStep::OwnerKey { index }),
                ));
            },
            Some(owner_key) => {
                if public_key(owner_key) == target {
                    if pooling_authentication_key(master, index, 0) is None {
                        assert(search_aborts(
                            master,
                            target,
                            limit,
                            index,
                            SetupError::KeyDerivation(DerivationStep::AuthenticationKey { index }),
                        ));
                    }
                } else {
                    let next = (index + 1) as u32;
                    let extended = owner_public_keys(master, next);
                    assert forall|earlier: int| 0 <= earlier < extended.len() implies extended[earlier] != Some(target) by {
                        if earlier < index {
                            assert(searched[earlier] != Some(target));
                        }
                    }
                    search_from_ends_as_it_has_to(master, target, next, limit);
                }
            },
        }
    }
}

/// The search finds the lowest match: its outcome is the keys of the lowest
/// index below the bound whose owner key has the public key that is looked
/// for; no match, after exactly as many attempts as the bound allows, where
/// there is no such index; or the error of the first derivation that fails.
pub proof fn search_finds_the_lowest_match(master: Seq<u8>, target: Seq<u8>, limit: u32)
    ensures
        is_search_outcome(master, target, limit, owner_search(master, target, 0, limit)),
{
    search_from_ends_as_it_has_to(master, target, 0, limit);
}

/// Where a position holds the target, some position is the first to hold it.
pub proof fn first_match_exists<T>(keys: Seq<T>, target: T, position: int)
    requires
        0 <= position < keys.len(),
        keys[position] == target,
    ensures
        exists|first: int| is_first_match(keys, target, first),
    decreases position,
{
    if exists|earlier: int| 0 <= earlier < position && keys[earlier] == target {
        let earlier = choose|earlier: int| 0 <= earlier < position && keys[earlier] == target;
        first_match_exists(keys, target, earlier);
    } else {
        assert(is_first_match(keys, target, position));
    }
}

/// The lowest index wins: where several positions hold the target, the first
/// match is none of the later ones.
pub proof fn lowest_index_wins<T>(keys: Seq<T>, target: T, found: int, other: int)
    requires
        is_first_match(keys, target, found),
        0 <= other < keys.len(),
        keys[other] == target,
    ensures
        found <= other,
{
}

/// The lowest index wins in a search: where the owner key at an index below
/// the bound has the public key that is looked for, a search that finds a key
/// finds it at that index or at a lower one.
pub proof fn search_takes_the_lowest_index(master: Seq<u8>, target: Seq<u8>, limit: u32, other: u32)
    requires
        other < limit,
        owner_public_key(master, other) == Some(target),
        owner_search(master, target, 0, limit) is Ok,
    ensures
        found_index(owner_search(master, target, 0, limit)) matches Some(index) && index <= other,
{
    search_finds_the_lowest_match(master, target, limit);
    let keys = owner_public_keys(master, limit);
    assert(keys[other as int] == Some(target));
}

/// The search is bounded: where every owner key below the bound can be derived
/// and none of them has the public key that is looked for, the search ends
/// without a match after exactly as many attempts as the bound allows.
pub proof fn unmatched_key_exhausts_the_bound(master: Seq<u8>, target: Seq<u8>, limit: u32)
    requires
        owner_keys_derivable(master, limit),
        has_no_match(owner_public_keys(master, limit), Some(target)),
    ensures
        owner_search(master, target, 0, limit) == Ok::<OwnerSearchView, SetupError>(
            OwnerSearchView::NotFound { attempts: limit },
        ),
{
    search_finds_the_lowest_match(master, target, limit);
    let keys = owner_public_keys(master, limit);
    if let Err(error) = owner_search(master, target, 0, limit) {
        let index = choose|index: u32| #[trigger] search_aborts(master, target, limit, index, error);
        assert(keys[index as int] == owner_public_key(master, index));
    }
}

/// The search agrees with a look through the derived keys: where `keys` holds
/// the public keys of the owner keys at the indices below the bound, the lowest
/// position of `keys` that holds the key looked for is the index at which the
/// search finds it, and the search finds nothing where `keys` does not hold it.
pub proof fn search_agrees_with_derived_keys(master: Seq<u8>, target: Bytes48, limit: u32, keys: Seq<Bytes48>)
    requires
        keys.len() == limit,
        forall|index: int| 0 <= index < limit ==> owner_public_key(master, index as u32) == Some((#[trigger] keys[index])@),
        owner_search(master, target@, 0, limit) is Ok,
    ensures
        forall|position: int| is_first_match(keys, target, position)
            ==> found_index(owner_search(master, target@, 0, limit)) == Some(position as u32),
        has_no_match(keys, target)
            ==> owner_search(master, target@, 0, limit) == Ok::<OwnerSearchView, SetupError>(
                OwnerSearchView::NotFound { attempts: limit },
            ),
{
    search_finds_the_lowest_match(master, target@, limit);
    let derived = owner_public_keys(master, limit);
    assert forall|index: int| 0 <= index < limit implies (derived[index] == Some(target@) <==> #[trigger] keys[index] == target) by {
        if keys[index]@ == target@ {
            assert(keys[index] =~= target);
        }
    }
    if let Ok(OwnerSearchView::Found { index, .. }) = owner_search(master, target@, 0, limit) {
        assert(keys[index as int] == target);
    }
}

} // verus!
