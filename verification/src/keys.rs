//! The cryptographic primitives the library builds on.
//!
//! Key derivation, public-key computation and puzzle hashing are done by the
//! `dg_xch_keys`, `blst` and `dg_xch_puzzles` crates. Each primitive is a
//! deterministic function of its arguments; this module gives each result a
//! name, so that the rest of the library can state exactly which primitive it
//! applied to which input. Nothing is proved of the primitives themselves.
//!
//! Keys and hashes cross this boundary as plain bytes. The bytes of a secret
//! key are turned into a key by the conversion that `dg_xch_core` offers, under
//! which 32 bytes that are no valid secret key stand for the zero key.

use vstd::prelude::*;
use crate::bytes::{Bytes32, Bytes48};

verus! {

/// The error type of the derivation and hashing primitives.
#[verifier::external_type_specification]
#[verifier::external_body]
pub struct ExIoError(std::io::Error);

/// The master key that `dg_xch_keys::key_from_mnemonic_str` makes of a seed
/// phrase, `None` where it reports an error.
pub uninterp spec fn mnemonic_master_key(phrase: Seq<char>) -> Option<Seq<u8>>;

/// What `dg_xch_keys::master_sk_to_wallet_sk` derives from a master key and an
/// index, `None` where it reports an error.
pub uninterp spec fn hardened_wallet_key(master: Seq<u8>, index: u32) -> Option<Seq<u8>>;

/// What `dg_xch_keys::master_sk_to_wallet_sk_unhardened` derives from a master
/// key and an index, `None` where it reports an error.
pub uninterp spec fn unhardened_wallet_key(master: Seq<u8>, index: u32) -> Option<Seq<u8>>;

/// What `dg_xch_keys::master_sk_to_singleton_owner_sk` derives from a master
/// key and a pool wallet index, `None` where it reports an error.
pub uninterp spec fn singleton_owner_key(master: Seq<u8>, index: u32) -> Option<Seq<u8>>;

/// What `dg_xch_keys::master_sk_to_pooling_authentication_sk` derives from a
/// master key, a pool wallet index and a position, `None` where it reports an
/// error.
pub uninterp spec fn pooling_authentication_key(master: Seq<u8>, index: u32, position: u32) -> Option<Seq<u8>>;

/// What `dg_xch_keys::master_sk_to_farmer_sk` derives from a master key, `None`
/// where it reports an error.
pub uninterp spec fn farmer_key(master: Seq<u8>) -> Option<Seq<u8>>;

/// What `dg_xch_keys::master_sk_to_pool_sk` derives from a master key, `None`
/// where it reports an error.
pub uninterp spec fn pool_key(master: Seq<u8>) -> Option<Seq<u8>>;

/// The compressed public key that `blst::min_pk::SecretKey::sk_to_pk` computes
/// for a secret key.
pub uninterp spec fn public_key(secret: Seq<u8>) -> Seq<u8>;

/// The puzzle hash that `dg_xch_puzzles`' `puzzle_hash_for_pk` computes for a
/// public key, `None` where it reports an error.
pub uninterp spec fn puzzle_hash_for_public_key(public: Seq<u8>) -> Option<Seq<u8>>;

/// The pay-to-singleton puzzle hash that `dg_xch_puzzles`'
/// `launcher_id_to_p2_puzzle_hash` computes, `None` where it reports an error.
pub uninterp spec fn p2_singleton_puzzle_hash(launcher_id: Seq<u8>, seconds_delay: u64, delay_puzzle_hash: Seq<u8>) -> Option<Seq<u8>>;

/// The highest pool wallet index for which the index of the pooling
/// authentication key, `index * 10000 + position`, fits in 32 bits for every
/// position below 10000.
pub const MAX_POOL_WALLET_INDEX: u32 = 429_495;

/// Calls `dg_xch_keys::key_from_mnemonic_str` and returns the master key as
/// its 32 bytes. Claims only that the outcome is the one named
/// `mnemonic_master_key`.
#[verifier::external_body]
pub(crate) fn derive_master_key(phrase: &str) -> (derived: Result<Bytes32, std::io::Error>)
    ensures
        match derived {
            Ok(key) => mnemonic_master_key(phrase@) == Some(key@),
            Err(_) => mnemonic_master_key(phrase@) is None,
        },
{
    dg_xch_keys::key_from_mnemonic_str(phrase).map(|key| key.to_bytes())
}

/// Calls `dg_xch_keys::master_sk_to_wallet_sk`. The master key goes in as its
/// 32 bytes and the derived key comes out as its 32 bytes. Claims only that the
/// outcome is the one named `hardened_wallet_key`.
#[verifier::external_body]
pub(crate) fn derive_hardened_wallet_key(master: &Bytes32, index: u32) -> (derived: Result<Bytes32, std::io::Error>)
    ensures
        match derived {
            Ok(key) => hardened_wallet_key(master@, index) == Some(key@),
            Err(_) => hardened_wallet_key(master@, index) is None,
        },
{
    let master_key: blst::min_pk::SecretKey = dg_xch_core::blockchain::sized_bytes::Bytes32::from(*master).into();
    dg_xch_keys::master_sk_to_wallet_sk(&master_key, index).map(|key| key.to_bytes())
}

/// Calls `dg_xch_keys::master_sk_to_wallet_sk_unhardened`. Claims only that the
/// outcome is the one named `unhardened_wallet_key`.
#[verifier::external_body]
pub(crate) fn derive_unhardened_wallet_key(master: &Bytes32, index: u32) -> (derived: Result<Bytes32, std::io::Error>)
    ensures
        match derived {
            Ok(key) => unhardened_wallet_key(master@, index) == Some(key@),
            Err(_) => unhardened_wallet_key(master@, index) is None,
        },
{
    let master_key: blst::min_pk::SecretKey = dg_xch_core::blockchain::sized_bytes::Bytes32::from(*master).into();
    dg_xch_keys::master_sk_to_wallet_sk_unhardened(&master_key, index).map(|key| key.to_bytes())
}

/// Calls `dg_xch_keys::master_sk_to_singleton_owner_sk`. Claims only that the
/// outcome is the one named `singleton_owner_key`.
#[verifier::external_body]
pub(crate) fn derive_singleton_owner_key(master: &Bytes32, index: u32) -> (derived: Result<Bytes32, std::io::Error>)
    ensures
        match derived {
            Ok(key) => singleton_owner_key(master@, index) == Some(key@),
            Err(_) => singleton_owner_key(master@, index) is None,
        },
{
    let master_key: blst::min_pk::SecretKey = dg_xch_core::blockchain::sized_bytes::Bytes32::from(*master).into();
    dg_xch_keys::master_sk_to_singleton_owner_sk(&master_key, index).map(|key| key.to_bytes())
}

/// Calls `dg_xch_keys::master_sk_to_pooling_authentication_sk`, which derives
/// at the path index `index * 10000 + position`; the precondition keeps that
/// sum within 32 bits. Claims only that the outcome is the one named
/// `pooling_authentication_key`.
#[verifier::external_body]
pub(crate) fn derive_pooling_authentication_key(master: &Bytes32, index: u32, position: u32) -> (derived: Result<Bytes32, std::io::Error>)
    requires
        index * 10000 + position <= u32::MAX,
    ensures
        match derived {
            Ok(key) => pooling_authentication_key(master@, index, position) == Some(key@),
            Err(_) => pooling_authentication_key(master@, index, position) is None,
        },
{
    let master_key: blst::min_pk::SecretKey = dg_xch_core::blockchain::sized_bytes::Bytes32::from(*master).into();
    dg_xch_keys::master_sk_to_pooling_authentication_sk(&master_key, index, position).map(|key| key.to_bytes())
}

/// Calls `dg_xch_keys::master_sk_to_farmer_sk`. Claims only that the outcome is
/// the one named `farmer_key`.
#[verifier::external_body]
pub(crate) fn derive_farmer_key(master: &Bytes32) -> (derived: Result<Bytes32, std::io::Error>)
    ensures
        match derived {
            Ok(key) => farmer_key(master@) == Some(key@),
            Err(_) => farmer_key(master@) is None,
        },
{
    let master_key: blst::min_pk::SecretKey = dg_xch_core::blockchain::sized_bytes::Bytes32::from(*master).into();
    dg_xch_keys::master_sk_to_farmer_sk(&master_key).map(|key| key.to_bytes())
}

/// Calls `dg_xch_keys::master_sk_to_pool_sk`. Claims only that the outcome is
/// the one named `pool_key`.
#[verifier::external_body]
pub(crate) fn derive_pool_key(master: &Bytes32) -> (derived: Result<Bytes32, std::io::Error>)
    ensures
        match derived {
            Ok(key) => pool_key(master@) == Some(key@),
            Err(_) => pool_key(master@) is None,
        },
{
    let master_key: blst::min_pk::SecretKey = dg_xch_core::blockchain::sized_bytes::Bytes32::from(*master).into();
    dg_xch_keys::master_sk_to_pool_sk(&master_key).map(|key| key.to_bytes())
}

/// Calls `blst::min_pk::SecretKey::sk_to_pk` and returns the public key in its
/// compressed 48-byte form. Claims only that the result is the one named
/// `public_key`.
#[verifier::external_body]
pub(crate) fn compute_public_key(secret: &Bytes32) -> (public: Bytes48)
    ensures
        public@ == public_key(secret@),
{
    let secret_key: blst::min_pk::SecretKey = dg_xch_core::blockchain::sized_bytes::Bytes32::from(*secret).into();
    secret_key.sk_to_pk().to_bytes()
}

/// Calls `dg_xch_puzzles::p2_delegated_puzzle_or_hidden_puzzle::puzzle_hash_for_pk`.
/// Claims only that the outcome is the one named `puzzle_hash_for_public_key`.
#[verifier::external_body]
pub(crate) fn compute_puzzle_hash(public: &Bytes48) -> (hashed: Result<Bytes32, std::io::Error>)
    ensures
        match hashed {
            Ok(hash) => puzzle_hash_for_public_key(public@) == Some(hash@),
            Err(_) => puzzle_hash_for_public_key(public@) is None,
        },
{
    let key = dg_xch_core::blockchain::sized_bytes::Bytes48::from(*public);
    dg_xch_puzzles::p2_delegated_puzzle_or_hidden_puzzle::puzzle_hash_for_pk(key).map(|hash| dg_xch_core::traits::SizedBytes::bytes(&hash))
}

/// Calls `dg_xch_puzzles::clvm_puzzles::launcher_id_to_p2_puzzle_hash`. Claims
/// only that the outcome is the one named `p2_singleton_puzzle_hash`.
#[verifier::external_body]
pub(crate) fn compute_p2_singleton_puzzle_hash(launcher_id: &Bytes32, seconds_delay: u64, delay_puzzle_hash: &Bytes32) -> (hashed: Result<Bytes32, std::io::Error>)
    ensures
        match hashed {
            Ok(hash) => p2_singleton_puzzle_hash(launcher_id@, seconds_delay, delay_puzzle_hash@) == Some(hash@),
            Err(_) => p2_singleton_puzzle_hash(launcher_id@, seconds_delay, delay_puzzle_hash@) is None,
        },
{
    let launcher = dg_xch_core::blockchain::sized_bytes::Bytes32::from(*launcher_id);
    let delay_hash = dg_xch_core::blockchain::sized_bytes::Bytes32::from(*delay_puzzle_hash);
    dg_xch_puzzles::clvm_puzzles::launcher_id_to_p2_puzzle_hash(launcher, seconds_delay, delay_hash).map(|hash| dg_xch_core::traits::SizedBytes::bytes(&hash))
}

} // verus!
