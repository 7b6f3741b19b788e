//! The key-derivation walk: candidate wallet keys, page by page.
//!
//! For every derivation index two wallet keys are derived from the master key,
//! one in the unhardened and one in the hardened hierarchy. Each is turned into
//! a public key and then into a puzzle hash, the fingerprint under which
//! ownership is looked up.

use vstd::prelude::*;
use crate::bytes::Bytes32;
use crate::error::{DerivationStep, SetupError};
use crate::keys::{
    compute_public_key, compute_puzzle_hash, derive_hardened_wallet_key, derive_master_key,
    derive_unhardened_wallet_key, hardened_wallet_key, mnemonic_master_key, public_key,
    puzzle_hash_for_public_key, unhardened_wallet_key,
};

verus! {

/// The number of derivation indices in one page.
pub const PAGE_SIZE: u32 = 50;

/// The number of candidates in one page: two hierarchies for each index.
pub const PAGE_CANDIDATES: usize = 100;

/// The highest page number whose indices all fit in 32 bits.
pub const LAST_PAGE: u32 = 85_899_344;

/// A candidate wallet key, reduced to what an ownership query needs.
#[derive(Clone, Copy, Debug, PartialEq, Eq)]
pub struct CandidateIdentity {
    /// The derivation index of the wallet key.
    pub index: u32,
    /// Whether the key belongs to the hardened hierarchy.
    pub hardened: bool,
    /// The puzzle hash of the key's public key.
    pub puzzle_hash: Bytes32,
}

/// The wallet key at `index` in the chosen hierarchy, `None` where the
/// derivation primitive rejects the input.
pub open spec fn wallet_key(master: Seq<u8>, index: u32, hardened: bool) -> Option<Seq<u8>> {
    if hardened {
        hardened_wallet_key(master, index)
    } else {
        unhardened_wallet_key(master, index)
    }
}

/// The puzzle hash of the wallet key at `index`, `None` where a primitive
/// rejects its input.
pub open spec fn candidate_puzzle_hash(master: Seq<u8>, index: u32, hardened: bool) -> Option<Seq<u8>> {
    match wallet_key(master, index, hardened) {
        Some(key) => puzzle_hash_for_public_key(public_key(key)),
        None => None,
    }
}

/// The error reported where the candidate at `index` cannot be derived: it
/// names the first primitive that failed.
pub open spec fn candidate_error(master: Seq<u8>, index: u32, hardened: bool) -> SetupError {
    if wallet_key(master, index, hardened) is None {
        SetupError::KeyDerivation(DerivationStep::WalletKey { index, hardened })
    } else {
        SetupError::KeyDerivation(DerivationStep::WalletPuzzleHash { index, hardened })
    }
}

/// The derivation index of the candidate at `position` of `page`.
pub open spec fn candidate_index(page: u32, position: int) -> int {
    page * PAGE_SIZE + position / 2
}

/// Whether the candidate at `position` of a page is hardened: within an index
/// the unhardened key comes first.
pub open spec fn candidate_hardened(position: int) -> bool {
    position % 2 == 1
}

/// Whether `candidate` is the identity of the wallet key at `index` in the
/// chosen hierarchy.
pub open spec fn is_candidate(candidate: CandidateIdentity, master: Seq<u8>, index: int, hardened: bool) -> bool {
    &&& candidate.index == index
    &&& candidate.hardened == hardened
    &&& candidate_puzzle_hash(master, candidate.index, hardened) == Some(candidate.puzzle_hash@)
}

/// Whether the candidate at `position` of `page` can be derived.
pub open spec fn candidate_derivable(master: Seq<u8>, page: u32, position: int) -> bool {
    candidate_puzzle_hash(
        master,
        candidate_index(page, position) as u32,
        candidate_hardened(position),
    ) is Some
}

/// Makes the master key of a seed phrase.
pub fn master_key_from_mnemonic(phrase: &str) -> (derived: Result<Bytes32, SetupError>)
    ensures
        match derived {
            Ok(key) => mnemonic_master_key(phrase@) == Some(key@),
            Err(error) => mnemonic_master_key(phrase@) is None
                && error == SetupError::KeyDerivation(DerivationStep::MasterKey),
        },
{
    match derive_master_key(phrase) {
        Ok(key) => Ok(key),
        Err(_) => Err(SetupError::KeyDerivation(DerivationStep::MasterKey)),
    }
}

/// Derives the wallet key at `index` in the chosen hierarchy.
pub fn derive_wallet_key(master: &Bytes32, index: u32, hardened: bool) -> (derived: Result<Bytes32, SetupError>)
    ensures
        match derived {
            Ok(key) => wallet_key(master@, index, hardened) == Some(key@),
            Err(error) => wallet_key(master@, index, hardened) is None
                && error == SetupError::KeyDerivation(DerivationStep::WalletKey { index, hardened }),
        },
{
    let outcome = if hardened {
        derive_hardened_wallet_key(master, index)
    } else {
        derive_unhardened_wallet_key(master, index)
    };
    match outcome {
        Ok(key) => Ok(key),
        Err(_) => Err(SetupError::KeyDerivation(DerivationStep::WalletKey { index, hardened })),
    }
}

/// Makes the candidate identity of a wallet key that was derived at `index`
/// in the chosen hierarchy: public key, then puzzle hash.
pub fn identify_key(index: u32, hardened: bool, key: &Bytes32) -> (identified: Result<CandidateIdentity, SetupError>)
    ensures
        match identified {
            Ok(candidate) => {
                &&& candidate.index == index
                &&& candidate.hardened == hardened
                &&& puzzle_hash_for_public_key(public_key(key@)) == Some(candidate.puzzle_hash@)
            },
            Err(error) => puzzle_hash_for_public_key(public_key(key@)) is None
                && error == SetupError::KeyDerivation(DerivationStep::WalletPuzzleHash { index, hardened }),
        },
{
    let public = compute_public_key(key);
    match compute_puzzle_hash(&public) {
        Ok(puzzle_hash) => Ok(CandidateIdentity { index, hardened, puzzle_hash }),
        Err(_) => Err(SetupError::KeyDerivation(DerivationStep::WalletPuzzleHash { index, hardened })),
    }
}

/// Derives the candidate identity at `index` in the chosen hierarchy: wallet
/// key, then public key, then puzzle hash.
pub fn derive_candidate(master: &Bytes32, index: u32, hardened: bool) -> (derived: Result<CandidateIdentity, SetupError>)
    ensures
        match derived {
            Ok(candidate) => is_candidate(candidate, master@, index as int, hardened),
            Err(error) => candidate_puzzle_hash(master@, index, hardened) is None
                && error == candidate_error(master@, index, hardened),
        },
{
    match derive_wallet_key(master, index, hardened) {
        Ok(key) => identify_key(index, hardened, &key),
        Err(error) => Err(error),
    }
}

/// Whether `candidates` are the candidates of `page`, all derived, in order.
pub open spec fn is_page(candidates: Seq<CandidateIdentity>, master: Seq<u8>, page: u32) -> bool {
    &&& candidates.len() == PAGE_CANDIDATES
    &&& forall|position: int| 0 <= position < PAGE_CANDIDATES ==> is_candidate(
        #[trigger] candidates[position],
        master,
        candidate_index(page, position),
        candidate_hardened(position),
    )
}

/// Whether the walk over `page` ends with `error`: some candidate of the page
/// cannot be derived, all before it can, and `error` names the primitive that
/// failed on it.
pub open spec fn page_fails_with(master: Seq<u8>, page: u32, error: SetupError) -> bool {
    exists|position: int| {
        &&& 0 <= position < PAGE_CANDIDATES
        &&& forall|earlier: int| 0 <= earlier < position ==> #[trigger] candidate_derivable(master, page, earlier)
        &&& !candidate_derivable(master, page, position)
        &&& error == candidate_error(
            master,
            candidate_index(page, position) as u32,
            candidate_hardened(position),
        )
    }
}

/// Derives the candidates of one page: for each index from `page * 50` up to,
/// but not including, `(page + 1) * 50`, the unhardened and then the hardened
/// candidate. The first derivation that fails ends the walk with its error.
pub fn page_candidates(master: &Bytes32, page: u32) -> (derived: Result<Vec<CandidateIdentity>, SetupError>)
    requires
        page <= LAST_PAGE,
    ensures
        match derived {
            Ok(candidates) => is_page(candidates@, master@, page),
            Err(error) => page_fails_with(master@, page, error),
        },
{
    let mut candidates: Vec<CandidateIdentity> = Vec::new();
    let first: u32 = page * PAGE_SIZE;
    let mut offset: u32 = 0;
    while offset < PAGE_SIZE
        invariant
            page <= LAST_PAGE,
            first == page * PAGE_SIZE,
            offset <= PAGE_SIZE,
            candidates@.len() == 2 * offset,
            forall|position: int| 0 <= position < 2 * offset ==> is_candidate(
                #[trigger] candidates@[position],
                master@,
                candidate_index(page, position),
                candidate_hardened(position),
            ),
        decreases PAGE_SIZE - offset,
    {
        let index: u32 = first + offset;
        let ghost done = candidates@;
        assert forall|earlier: int| 0 <= earlier < 2 * offset implies #[trigger] candidate_derivable(master@, page, earlier) by {
            assert(is_candidate(done[earlier], master@, candidate_index(page, earlier), candidate_hardened(earlier)));
        }
        match derive_candidate(master, index, false) {
            Ok(candidate) => { candidates.push(candidate); },
            Err(error) => {
                assert(!candidate_derivable(master@, page, 2 * offset));
                return Err(error);
            },
        }
        match derive_candidate(master, index, true) {
            Ok(candidate) => { candidates.push(candidate); },
            Err(error) => {
                assert(!candidate_derivable(master@, page, 2 * offset + 1));
                return Err(error);
            },
        }
        offset += 1;
    }
    Ok(candidates)
}

/// The puzzle hashes of a list of candidates, in the same order.
pub fn puzzle_hashes(candidates: &Vec<CandidateIdentity>) -> (hashes: Vec<Bytes32>)
    ensures
        hashes@.len() == candidates@.len(),
        forall|position: int| 0 <= position < candidates@.len() ==> #[trigger] hashes@[position] == candidates@[position].puzzle_hash,
{
    let mut hashes: Vec<Bytes32> = Vec::new();
    let mut position: usize = 0;
    while position < candidates.len()
        invariant
            position <= candidates@.len(),
            hashes@.len() == position,
            forall|earlier: int| 0 <= earlier < position ==> #[trigger] hashes@[earlier] == candidates@[earlier].puzzle_hash,
        decreases candidates@.len() - position,
    {
        hashes.push(candidates[position].puzzle_hash);
        position += 1;
    }
    hashes
}

} // verus!
