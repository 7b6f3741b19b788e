//! Configuration synthesis: merging discovered PlotNFTs into a configuration.
//!
//! Every PlotNFT adds a pool membership. The keys that go with it are kept in
//! one entry for each launcher id: merging a PlotNFT whose launcher id is
//! already known replaces that entry in place. A farmer without a PlotNFT gets
//! one entry without a launcher id.

use vstd::prelude::*;
use crate::bytes::{opt_view, option_bytes32_equal, Bytes32};
use crate::config::{
    farmer_views, launchers_unique, pool_views, Config, FarmingInfo, FarmingInfoView, Holdings,
    PoolWalletConfig, PoolWalletConfigView,
};
use crate::error::{DerivationStep, SetupError};
use crate::keys::{
    compute_p2_singleton_puzzle_hash, derive_farmer_key, derive_pool_key, farmer_key,
    p2_singleton_puzzle_hash, pool_key,
};
use crate::locator::{PlotNft, PlotNftView};
use crate::matcher::{
    first_match_exists, found_keys, has_no_match, is_first_match, keys_view, match_owner_key,
    owner_search, OWNER_SEARCH_LIMIT,
};

verus! {

/// The delay of a PlotNFT as an unsigned number of seconds: a negative delay
/// counts down from 2^64.
pub open spec fn unsigned_delay(delay_time: i32) -> u64 {
    if delay_time >= 0 {
        delay_time as u64
    } else {
        (delay_time + 0x1_0000_0000_0000_0000) as u64
    }
}

/// The pool membership that a PlotNFT stands for, where `payout` is the payout
/// address of the farmer. It fails where the pay-to-singleton puzzle hash
/// cannot be computed.
pub open spec fn pool_entry(plot_nft: PlotNftView, payout: Seq<char>) -> Result<PoolWalletConfigView, SetupError> {
    match p2_singleton_puzzle_hash(
        plot_nft.launcher_id,
        unsigned_delay(plot_nft.delay_time),
        plot_nft.delay_puzzle_hash,
    ) {
        Some(hash) => Ok(
            PoolWalletConfigView {
                launcher_id: plot_nft.launcher_id,
                pool_url: match plot_nft.pool_url {
                    Some(url) => url,
                    None => Seq::empty(),
                },
                target_puzzle_hash: plot_nft.target_puzzle_hash,
                payout_instructions: payout,
                p2_singleton_puzzle_hash: hash,
                owner_public_key: plot_nft.owner_pubkey,
                difficulty: None,
            },
        ),
        None => Err(SetupError::KeyDerivation(DerivationStep::SingletonPuzzleHash)),
    }
}

/// The keys of the account: the farmer key and the pool key of the master key.
/// The farmer key is derived first.
pub open spec fn account_keys(master: Seq<u8>) -> Result<(Seq<u8>, Seq<u8>), SetupError> {
    match farmer_key(master) {
        None => Err(SetupError::KeyDerivation(DerivationStep::FarmerKey)),
        Some(farmer) => match pool_key(master) {
            None => Err(SetupError::KeyDerivation(DerivationStep::PoolKey)),
            Some(pool) => Ok((farmer, pool)),
        },
    }
}

/// The entry that holds the keys of a farmer for one launcher id, or for none.
/// The owner key and the authentication key are those of `owner_keys`, and
/// absent where it is `None`.
pub open spec fn farming_entry(
    farmer: Seq<u8>,
    pool: Seq<u8>,
    launcher_id: Option<Seq<u8>>,
    owner_keys: Option<(Seq<u8>, Seq<u8>)>,
) -> FarmingInfoView {
    FarmingInfoView {
        farmer_secret_key: farmer,
        launcher_id,
        pool_secret_key: Some(pool),
        owner_secret_key: match owner_keys {
            Some((owner_key, _)) => Some(owner_key),
            None => None,
        },
        auth_secret_key: match owner_keys {
            Some((_, auth_key)) => Some(auth_key),
            None => None,
        },
    }
}

/// The launcher ids of a list of entries, in order.
pub open spec fn launcher_ids(infos: Seq<FarmingInfoView>) -> Seq<Option<Seq<u8>>> {
    Seq::new(infos.len(), |i: int| infos[i].launcher_id)
}

/// The position of the first entry with the launcher id `launcher_id`, where
/// there is one.
pub open spec fn entry_position(infos: Seq<FarmingInfoView>, launcher_id: Option<Seq<u8>>) -> Option<int> {
    if exists|position: int| is_first_match(launcher_ids(infos), launcher_id, position) {
        Some(choose|position: int| is_first_match(launcher_ids(infos), launcher_id, position))
    } else {
        None
    }
}

/// A list of entries with `entry` recorded in it: in place of the first entry
/// with the same launcher id or, where there is none, at the end.
pub open spec fn recorded(infos: Seq<FarmingInfoView>, entry: FarmingInfoView) -> Seq<FarmingInfoView> {
    match entry_position(infos, entry.launcher_id) {
        Some(position) => infos.update(position, entry),
        None => infos.push(entry),
    }
}

/// The holdings of a configuration with one PlotNFT merged into them. The
/// steps are taken in this order, and the first that fails ends the merge with
/// its error: the pool membership, the search for the owner key, the farmer
/// key, the pool key.
pub open spec fn merged(holdings: Holdings, master: Seq<u8>, payout: Seq<char>, plot_nft: PlotNftView) -> Result<Holdings, SetupError> {
    match pool_entry(plot_nft, payout) {
        Err(error) => Err(error),
        Ok(pool) => match owner_search(master, plot_nft.owner_pubkey, 0, OWNER_SEARCH_LIMIT) {
            Err(error) => Err(error),
            Ok(search) => match account_keys(master) {
                Err(error) => Err(error),
                Ok((farmer_key, pool_key)) => Ok(
                    Holdings {
                        pool_info: holdings.pool_info.push(pool),
                        farmer_info: recorded(
                            holdings.farmer_info,
                            farming_entry(
                                farmer_key,
                                pool_key,
                                Some(plot_nft.launcher_id),
                                found_keys(search),
                            ),
                        ),
                    },
                ),
            },
        },
    }
}

/// The holdings of a configuration with the first `count` of `plot_nfts`
/// merged into them, one after the other.
pub open spec fn merged_first(holdings: Holdings, master: Seq<u8>, payout: Seq<char>, plot_nfts: Seq<PlotNftView>, count: nat) -> Result<Holdings, SetupError>
    decreases count,
{
    if count == 0 {
        Ok(holdings)
    } else {
        match merged_first(holdings, master, payout, plot_nfts, (count - 1) as nat) {
            Err(error) => Err(error),
            Ok(before) => merged(before, master, payout, plot_nfts[count - 1]),
        }
    }
}

/// The holdings of a configuration after synthesis. Where PlotNFTs were found,
/// each is merged in turn. Where none was found, the entry of a farmer without
/// a PlotNFT is recorded: it has the account's keys and no launcher id, owner
/// key or authentication key.
pub open spec fn synthesized(holdings: Holdings, master: Seq<u8>, payout: Seq<char>, plot_nfts: Seq<PlotNftView>) -> Result<Holdings, SetupError> {
    if plot_nfts.len() == 0 {
        match account_keys(master) {
            Err(error) => Err(error),
            Ok((farmer_key, pool_key)) => Ok(
                Holdings {
                    pool_info: holdings.pool_info,
                    farmer_info: recorded(
                        holdings.farmer_info,
                        farming_entry(farmer_key, pool_key, None, None),
                    ),
                },
            ),
        }
    } else {
        merged_first(holdings, master, payout, plot_nfts, plot_nfts.len())
    }
}

/// What a list of PlotNFTs holds, one by one.
pub open spec fn plot_views(plot_nfts: Seq<PlotNft>) -> Seq<PlotNftView> {
    Seq::new(plot_nfts.len(), |i: int| plot_nfts[i]@)
}

/// The delay of a PlotNFT as an unsigned number of seconds.
pub fn delay_seconds(delay_time: i32) -> (seconds: u64)
    ensures
        seconds == unsigned_delay(delay_time),
{
    if delay_time >= 0 {
        delay_time as u64
    } else {
        let below: i32 = -(delay_time + 1);
        u64::MAX - (below as u64)
    }
}

/// Builds the pool membership of a PlotNFT.
pub fn pool_wallet_config(plot_nft: &PlotNft, payout_address: &String) -> (built: Result<PoolWalletConfig, SetupError>)
    ensures
        match built {
            Ok(pool) => pool_entry(plot_nft@, payout_address@) == Ok::<PoolWalletConfigView, SetupError>(pool@),
            Err(error) => pool_entry(plot_nft@, payout_address@) == Err::<PoolWalletConfigView, SetupError>(error),
        },
{
    let seconds = delay_seconds(plot_nft.delay_time);
    let hash = match compute_p2_singleton_puzzle_hash(&plot_nft.launcher_id, seconds, &plot_nft.delay_puzzle_hash) {
        Ok(hash) => hash,
        Err(_) => {
            return Err(SetupError::KeyDerivation(DerivationStep::SingletonPuzzleHash));
        },
    };
    let pool_url = match &plot_nft.pool_state.pool_url {
        Some(url) => url.clone(),
        None => String::new(),
    };
    Ok(
        PoolWalletConfig {
            launcher_id: plot_nft.launcher_id,
            pool_url,
            target_puzzle_hash: plot_nft.pool_state.target_puzzle_hash,
            payout_instructions: payout_address.clone(),
            p2_singleton_puzzle_hash: hash,
            owner_public_key: plot_nft.pool_state.owner_pubkey,
            difficulty: None,
        },
    )
}

/// Derives the keys of the account: the farmer key, then the pool key.
pub fn derive_account_keys(master: &Bytes32) -> (derived: Result<(Bytes32, Bytes32), SetupError>)
    ensures
        match derived {
            Ok((farmer, pool)) => account_keys(master@) == Ok::<(Seq<u8>, Seq<u8>), SetupError>((farmer@, pool@)),
            Err(error) => account_keys(master@) == Err::<(Seq<u8>, Seq<u8>), SetupError>(error),
        },
{
    let farmer = match derive_farmer_key(master) {
        Ok(key) => key,
        Err(_) => {
            return Err(SetupError::KeyDerivation(DerivationStep::FarmerKey));
        },
    };
    match derive_pool_key(master) {
        Ok(pool) => Ok((farmer, pool)),
        Err(_) => Err(SetupError::KeyDerivation(DerivationStep::PoolKey)),
    }
}

/// Builds the entry of a farmer for a launcher id, or for none, from the keys
/// of the account and the keys that the search for the owner key has found.
pub fn assemble_farming_info(farmer_key: Bytes32, pool_key: Bytes32, launcher_id: Option<Bytes32>, owner_keys: Option<(Bytes32, Bytes32)>) -> (info: FarmingInfo)
    ensures
        info@ == farming_entry(farmer_key@, pool_key@, opt_view(launcher_id), keys_view(owner_keys)),
{
    match owner_keys {
        Some((owner_key, auth_key)) => FarmingInfo {
            farmer_secret_key: farmer_key,
            launcher_id,
            pool_secret_key: Some(pool_key),
            owner_secret_key: Some(owner_key),
            auth_secret_key: Some(auth_key),
        },
        None => FarmingInfo {
            farmer_secret_key: farmer_key,
            launcher_id,
            pool_secret_key: Some(pool_key),
            owner_secret_key: None,
            auth_secret_key: None,
        },
    }
}

/// Records an entry in a list of entries: in place of the first entry with the
/// same launcher id or, where there is none, at the end.
pub fn record_farming_info(infos: &mut Vec<FarmingInfo>, entry: FarmingInfo)
    ensures
        farmer_views(final(infos)@) == recorded(farmer_views(old(infos)@), entry@),
        launchers_unique(farmer_views(old(infos)@)) ==> launchers_unique(farmer_views(final(infos)@)),
{
    let ghost before = farmer_views(infos@);
    proof {
        if launchers_unique(before) {
            recording_keeps_launchers_unique(before, entry@);
        }
    }
    let ghost ids = launcher_ids(before);
    let mut position: usize = 0;
    while position < infos.len()
        invariant
            position <= infos@.len(),
            infos@ == old(infos)@,
            before == farmer_views(infos@),
            ids == launcher_ids(before),
            forall|earlier: int| 0 <= earlier < position ==> ids[earlier] != entry@.launcher_id,
        decreases infos@.len() - position,
    {
        if option_bytes32_equal(&infos[position].launcher_id, &entry.launcher_id) {
            assert(is_first_match(ids, entry@.launcher_id, position as int));
            infos[position] = entry;
            return;
        }
        position += 1;
    }
    infos.push(entry);
}

/// Merges one PlotNFT into a configuration: adds its pool membership and
/// records the keys that go with its launcher id. The payout address is the
/// one of the configuration.
pub fn merge_plot_nft(config: Config, master: &Bytes32, plot_nft: &PlotNft) -> (outcome: Result<Config, SetupError>)
    ensures
        match outcome {
            Ok(result) => result.same_settings(config)
                && merged(config.holdings(), master@, config.payout_address@, plot_nft@) == Ok::<Holdings, SetupError>(result.holdings())
                && (config.well_formed() ==> result.well_formed()),
            Err(error) => merged(config.holdings(), master@, config.payout_address@, plot_nft@) == Err::<Holdings, SetupError>(error),
        },
{
    let pool = match pool_wallet_config(plot_nft, &config.payout_address) {
        Ok(pool) => pool,
        Err(error) => { return Err(error); },
    };
    let search = match match_owner_key(master, &plot_nft.pool_state.owner_pubkey) {
        Ok(search) => search,
        Err(error) => { return Err(error); },
    };
    let (farmer_key, pool_key) = match derive_account_keys(master) {
        Ok(keys) => keys,
        Err(error) => { return Err(error); },
    };
    let entry = assemble_farming_info(farmer_key, pool_key, Some(plot_nft.launcher_id), search.keys());
    let mut result = config;
    result.pool_info.push(pool);
    record_farming_info(&mut result.farmer_info, entry);
    assert(pool_views(result.pool_info@) =~= pool_views(config.pool_info@).push(pool@));
    Ok(result)
}

/// Once a merge has failed, the merges that follow are not made: the error
/// stands.
proof fn merge_error_stands(holdings: Holdings, master: Seq<u8>, payout: Seq<char>, plot_nfts: Seq<PlotNftView>, failed: nat, count: nat)
    requires
        failed <= count,
        merged_first(holdings, master, payout, plot_nfts, failed) is Err,
    ensures
        merged_first(holdings, master, payout, plot_nfts, count) == merged_first(holdings, master, payout, plot_nfts, failed),
    decreases count,
{
    if failed < count {
        merge_error_stands(holdings, master, payout, plot_nfts, failed, (count - 1) as nat);
    }
}

/// Synthesizes a configuration from the PlotNFTs that were found. Each is
/// merged in turn; where none was found, the entry of a farmer without a
/// PlotNFT is recorded. The first derivation that fails ends the synthesis
/// with its error, and the configuration is given up.
pub fn synthesize(config: Config, master: &Bytes32, plot_nfts: &Vec<PlotNft>) -> (outcome: Result<Config, SetupError>)
    ensures
        match outcome {
            Ok(result) => result.same_settings(config)
                && synthesized(config.holdings(), master@, config.payout_address@, plot_views(plot_nfts@)) == Ok::<Holdings, SetupError>(result.holdings())
                && (config.well_formed() ==> result.well_formed()),
            Err(error) => synthesized(config.holdings(), master@, config.payout_address@, plot_views(plot_nfts@)) == Err::<Holdings, SetupError>(error),
        },
{
    let ghost start = config.holdings();
    let ghost payout = config.payout_address@;
    let ghost views = plot_views(plot_nfts@);
    proof {
        if config.well_formed() {
            synthesis_keeps_launchers_unique(start, master@, payout, views);
        }
    }
    if plot_nfts.len() == 0 {
        let (farmer_key, pool_key) = match derive_account_keys(master) {
            Ok(keys) => keys,
            Err(error) => { return Err(error); },
        };
        let entry = assemble_farming_info(farmer_key, pool_key, None, None);
        let mut result = config;
        record_farming_info(&mut result.farmer_info, entry);
        return Ok(result);
    }
    let mut result = config;
    let mut merged_count: usize = 0;
    while merged_count < plot_nfts.len()
        invariant
            merged_count <= plot_nfts@.len(),
            views == plot_views(plot_nfts@),
            result.same_settings(config),
            payout == config.payout_address@,
            start == config.holdings(),
            merged_first(start, master@, payout, views, merged_count as nat) == Ok::<Holdings, SetupError>(result.holdings()),
        decreases plot_nfts@.len() - merged_count,
    {
        match merge_plot_nft(result, master, &plot_nfts[merged_count]) {
            Ok(next) => {
                result = next;
            },
            Err(error) => {
                proof {
                    merge_error_stands(start, master@, payout, views, (merged_count + 1) as nat, views.len());
                }
                return Err(error);
            },
        }
        merged_count += 1;
    }
    Ok(result)
}

/// Recording an entry changes no launcher id of the entries that were there,
/// and adds an entry only where the launcher id is new.
pub proof fn recording_keeps_launcher_ids(infos: Seq<FarmingInfoView>, entry: FarmingInfoView)
    ensures
        match entry_position(infos, entry.launcher_id) {
            Some(position) => {
                &&& is_first_match(launcher_ids(infos), entry.launcher_id, position)
                &&& launcher_ids(recorded(infos, entry)) == launcher_ids(infos)
                &&& recorded(infos, entry)[position] == entry
            },
            None => {
                &&& has_no_match(launcher_ids(infos), entry.launcher_id)
                &&& launcher_ids(recorded(infos, entry)) == launcher_ids(infos).push(entry.launcher_id)
                &&& recorded(infos, entry).last() == entry
            },
        },
{
    let ids = launcher_ids(infos);
    if entry_position(infos, entry.launcher_id) is None {
        assert forall|position: int| 0 <= position < ids.len() implies ids[position] != entry.launcher_id by {
            if ids[position] == entry.launcher_id {
                first_match_exists(ids, entry.launcher_id, position);
            }
        }
    }
}

/// Recording an entry keeps the launcher ids of a list distinct.
pub proof fn recording_keeps_launchers_unique(infos: Seq<FarmingInfoView>, entry: FarmingInfoView)
    requires
        launchers_unique(infos),
    ensures
        launchers_unique(recorded(infos, entry)),
{
    recording_keeps_launcher_ids(infos, entry);
    let after = recorded(infos, entry);
    assert forall|i: int, j: int|
        0 <= i < after.len() && 0 <= j < after.len() && i != j && after[i].launcher_id is Some implies #[trigger] after[i].launcher_id != #[trigger] after[j].launcher_id by {
        let ids = launcher_ids(infos);
        if i < infos.len() {
            assert(ids[i] == infos[i].launcher_id);
        }
        if j < infos.len() {
            assert(ids[j] == infos[j].launcher_id);
        }
    }
}

/// Whether `position` holds the only entry of `infos` with the launcher id
/// `launcher_id`.
pub open spec fn is_only_entry(infos: Seq<FarmingInfoView>, launcher_id: Option<Seq<u8>>, position: int) -> bool {
    &&& 0 <= position < infos.len()
    &&& infos[position].launcher_id == launcher_id
    &&& forall|other: int| 0 <= other < infos.len() && other != position ==> (#[trigger] infos[other]).launcher_id != launcher_id
}

/// Recording is idempotent on the launcher id: where two entries with the same
/// launcher id are recorded one after the other in a list with distinct
/// launcher ids, the list holds exactly one entry with that launcher id, the
/// second one, and is no longer than after the first was recorded.
pub proof fn recording_twice_keeps_one_entry(infos: Seq<FarmingInfoView>, first: FarmingInfoView, second: FarmingInfoView)
    requires
        launchers_unique(infos),
        first.launcher_id is Some,
        second.launcher_id == first.launcher_id,
    ensures
        recorded(recorded(infos, first), second).len() == recorded(infos, first).len(),
        exists|position: int|
            #[trigger] is_only_entry(recorded(recorded(infos, first), second), second.launcher_id, position)
                && recorded(recorded(infos, first), second)[position] == second,
{
    let once = recorded(infos, first);
    let twice = recorded(once, second);
    recording_keeps_launcher_ids(infos, first);
    recording_keeps_launchers_unique(infos, first);
    recording_keeps_launcher_ids(once, second);
    recording_keeps_launchers_unique(once, second);
    let once_ids = launcher_ids(once);
    // The first recording left an entry with the launcher id in the list.
    let held = match entry_position(infos, first.launcher_id) {
        Some(position) => position,
        None => once.len() - 1,
    };
    if entry_position(once, second.launcher_id) is None {
        assert(once_ids[held] != second.launcher_id);
    }
    let position = entry_position(once, second.launcher_id)->Some_0;
    assert(is_only_entry(twice, second.launcher_id, position));
}

/// Merging is idempotent on the launcher id: where a PlotNFT is merged twice
/// into holdings with distinct launcher ids, be it under two master keys, the
/// holdings have exactly one entry for its launcher id, which holds the keys
/// of the second merge, and a pool membership from each merge.
pub proof fn merging_twice_keeps_one_entry(
    holdings: Holdings,
    first_master: Seq<u8>,
    second_master: Seq<u8>,
    payout: Seq<char>,
    plot_nft: PlotNftView,
)
    requires
        launchers_unique(holdings.farmer_info),
        merged(holdings, first_master, payout, plot_nft) is Ok,
        merged(merged(holdings, first_master, payout, plot_nft)->Ok_0, second_master, payout, plot_nft) is Ok,
    ensures
        ({
            let once = merged(holdings, first_master, payout, plot_nft)->Ok_0;
            let twice = merged(once, second_master, payout, plot_nft)->Ok_0;
            let search = owner_search(second_master, plot_nft.owner_pubkey, 0, OWNER_SEARCH_LIMIT)->Ok_0;
            let keys = account_keys(second_master)->Ok_0;
            let entry = farming_entry(
                keys.0,
                keys.1,
                Some(plot_nft.launcher_id),
                found_keys(search),
            );
            &&& twice.farmer_info.len() == once.farmer_info.len()
            &&& twice.pool_info.len() == holdings.pool_info.len() + 2
            &&& launchers_unique(twice.farmer_info)
            &&& exists|position: int|
                #[trigger] is_only_entry(twice.farmer_info, Some(plot_nft.launcher_id), position)
                    && twice.farmer_info[position] == entry
        }),
{
    let first_search = owner_search(first_master, plot_nft.owner_pubkey, 0, OWNER_SEARCH_LIMIT)->Ok_0;
    let first_keys = account_keys(first_master)->Ok_0;
    let first = farming_entry(
        first_keys.0,
        first_keys.1,
        Some(plot_nft.launcher_id),
        found_keys(first_search),
    );
    let search = owner_search(second_master, plot_nft.owner_pubkey, 0, OWNER_SEARCH_LIMIT)->Ok_0;
    let keys = account_keys(second_master)->Ok_0;
    let second = farming_entry(
        keys.0,
        keys.1,
        Some(plot_nft.launcher_id),
        found_keys(search),
    );
    recording_twice_keeps_one_entry(holdings.farmer_info, first, second);
    recording_keeps_launchers_unique(holdings.farmer_info, first);
    recording_keeps_launchers_unique(recorded(holdings.farmer_info, first), second);
}

/// Synthesis keeps the launcher ids of the farmer's entries distinct.
pub proof fn synthesis_keeps_launchers_unique(holdings: Holdings, master: Seq<u8>, payout: Seq<char>, plot_nfts: Seq<PlotNftView>)
    requires
        launchers_unique(holdings.farmer_info),
    ensures
        synthesized(holdings, master, payout, plot_nfts) matches Ok(result) ==> launchers_unique(
            result.farmer_info,
        ),
{
    if plot_nfts.len() == 0 {
        if account_keys(master) is Ok {
            let keys = account_keys(master)->Ok_0;
            recording_keeps_launchers_unique(
                holdings.farmer_info,
                farming_entry(keys.0, keys.1, None, None),
            );
        }
    } else {
        merges_keep_launchers_unique(holdings, master, payout, plot_nfts, plot_nfts.len());
    }
}

/// Merging PlotNFTs keeps the launcher ids of the farmer's entries distinct.
proof fn merges_keep_launchers_unique(holdings: Holdings, master: Seq<u8>, payout: Seq<char>, plot_nfts: Seq<PlotNftView>, count: nat)
    requires
        launchers_unique(holdings.farmer_info),
    ensures
        merged_first(holdings, master, payout, plot_nfts, count) matches Ok(result) ==> launchers_unique(
            result.farmer_info,
        ),
    decreases count,
{
    if count > 0 {
        merges_keep_launchers_unique(holdings, master, payout, plot_nfts, (count - 1) as nat);
        match merged_first(holdings, master, payout, plot_nfts, (count - 1) as nat) {
            Ok(before) => {
                let plot_nft = plot_nfts[count - 1];
                if merged(before, master, payout, plot_nft) is Ok {
                    let search = owner_search(master, plot_nft.owner_pubkey, 0, OWNER_SEARCH_LIMIT)->Ok_0;
                    let keys = account_keys(master)->Ok_0;
                    recording_keeps_launchers_unique(
                        before.farmer_info,
                        farming_entry(
                            keys.0,
                            keys.1,
                            Some(plot_nft.launcher_id),
                            found_keys(search),
                        ),
                    );
                }
            },
            Err(_) => {},
        }
    }
}

/// Without a PlotNFT, synthesis gives a farmer who had no entry exactly one:
/// it holds the farmer key and the pool key of the account and no launcher id,
/// owner key or authentication key. No pool membership is added.
pub proof fn synthesis_without_plot_nfts_records_one_entry(holdings: Holdings, master: Seq<u8>, payout: Seq<char>)
    requires
        holdings.farmer_info.len() == 0,
        synthesized(holdings, master, payout, Seq::empty()) is Ok,
    ensures
        ({
            let result = synthesized(holdings, master, payout, Seq::empty())->Ok_0;
            &&& result.pool_info == holdings.pool_info
            &&& result.farmer_info.len() == 1
            &&& result.farmer_info[0].farmer_secret_key == farmer_key(master)->Some_0
            &&& result.farmer_info[0].pool_secret_key == pool_key(master)
            &&& result.farmer_info[0].launcher_id is None
            &&& result.farmer_info[0].owner_secret_key is None
            &&& result.farmer_info[0].auth_secret_key is None
        }),
{
}

/// With one PlotNFT, synthesis adds exactly one pool membership: it has the
/// launcher id of the PlotNFT and pays out to the payout address.
pub proof fn synthesis_of_one_plot_nft_adds_its_pool(holdings: Holdings, master: Seq<u8>, payout: Seq<char>, plot_nft: PlotNftView)
    requires
        synthesized(holdings, master, payout, seq![plot_nft]) is Ok,
    ensures
        ({
            let result = synthesized(holdings, master, payout, seq![plot_nft])->Ok_0;
            &&& result.pool_info.len() == holdings.pool_info.len() + 1
            &&& result.pool_info.last().launcher_id == plot_nft.launcher_id
            &&& result.pool_info.last().payout_instructions == payout
            &&& result.pool_info.last().difficulty is None
        }),
{
    let plot_nfts = seq![plot_nft];
    assert(merged_first(holdings, master, payout, plot_nfts, 1) == merged(
        merged_first(holdings, master, payout, plot_nfts, 0)->Ok_0,
        master,
        payout,
        plot_nfts[0],
    ));
}

} // verus!
