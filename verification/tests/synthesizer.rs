use farmer_config::bytes::{Bytes32, Bytes48};
use farmer_config::config::{Config, FarmingInfo, PoolWalletConfig};
use farmer_config::locator::{resolve_direct, PagedScan, PlotNft, PoolState, ScanProgress};
use farmer_config::matcher::{derive_owner_key, OwnerSearch};
use farmer_config::synthesizer::{
    assemble_farming_info, delay_seconds, derive_account_keys, merge_plot_nft, pool_wallet_config,
    record_farming_info, synthesize,
};
use farmer_config::walker::master_key_from_mnemonic;

const FIRST_PHRASE: &str =
    "abandon abandon abandon abandon abandon abandon abandon abandon abandon abandon abandon about";
const SECOND_PHRASE: &str =
    "legal winner thank year wave sausage worth useful legal winner thank yellow";

fn synth_bytes32(hex: &str) -> Bytes32 {
    let mut bytes = [0u8; 32];
    for i in 0..32 {
        bytes[i] = u8::from_str_radix(&hex[2 * i..2 * i + 2], 16).unwrap();
    }
    bytes
}

fn first_master() -> Bytes32 {
    master_key_from_mnemonic(FIRST_PHRASE).unwrap()
}

fn second_master() -> Bytes32 {
    master_key_from_mnemonic(SECOND_PHRASE).unwrap()
}

fn farmer_of_first_master() -> Bytes32 {
    synth_bytes32("0513b3945dc02ff4b9dd50037b756ec40bed9580bdd478292936da02be64b0a2")
}

fn pool_of_first_master() -> Bytes32 {
    synth_bytes32("058a79bc8db1684cfab5e5a1749d6753596fd22ead31b1382d578be97f6dce07")
}

fn plot_nft_owned_by(owner_pubkey: Bytes48, launcher: u8) -> PlotNft {
    PlotNft {
        launcher_id: [launcher; 32],
        pool_state: PoolState {
            pool_url: Some("https://pool.example".to_string()),
            target_puzzle_hash: [9u8; 32],
            owner_pubkey,
        },
        delay_time: 604800,
        delay_puzzle_hash: [3u8; 32],
    }
}

fn config_paying_to(address: &str) -> Config {
    let mut config = Config::default();
    config.payout_address = address.to_string();
    config
}

#[test]
fn a_delay_is_taken_as_an_unsigned_number() {
    assert_eq!(delay_seconds(0), 0);
    assert_eq!(delay_seconds(1), 1);
    assert_eq!(delay_seconds(604800), 604800);
    assert_eq!(delay_seconds(i32::MAX), 2_147_483_647);
    assert_eq!(delay_seconds(-1), u64::MAX);
    assert_eq!(delay_seconds(-2), u64::MAX - 1);
    assert_eq!(delay_seconds(i32::MIN), 18_446_744_071_562_067_968);
    for delay in [0, 1, -1, 77, -77, i32::MAX, i32::MIN] {
        assert_eq!(delay_seconds(delay), delay as u64);
    }
}

#[test]
fn a_pool_membership_copies_the_plot_nft_and_the_payout_address() {
    let plot_nft = plot_nft_owned_by([5u8; 48], 7);
    assert_eq!(
        pool_wallet_config(&plot_nft, &"xch1payout".to_string()),
        Ok(PoolWalletConfig {
            launcher_id: [7u8; 32],
            pool_url: "https://pool.example".to_string(),
            target_puzzle_hash: [9u8; 32],
            payout_instructions: "xch1payout".to_string(),
            p2_singleton_puzzle_hash: synth_bytes32("86f4b83a6c052faced69bfc5448697d6df0878eca2f06983aa34780ca929911c"),
            owner_public_key: [5u8; 48],
            difficulty: None,
        })
    );
}

#[test]
fn a_plot_nft_without_a_pool_has_an_empty_pool_url() {
    let mut plot_nft = plot_nft_owned_by([5u8; 48], 7);
    plot_nft.pool_state.pool_url = None;
    plot_nft.delay_time = 0;
    let pool = pool_wallet_config(&plot_nft, &String::new()).unwrap();
    assert_eq!(pool.pool_url, "");
    assert_eq!(pool.payout_instructions, "");
    assert_eq!(
        pool.p2_singleton_puzzle_hash,
        synth_bytes32("073c85a9aadd2c230309a85ca4f40ad788a0d88208ad84ebdc596e0628da9ded")
    );
}

#[test]
fn the_singleton_puzzle_hash_depends_on_the_delay() {
    let mut plot_nft = plot_nft_owned_by([5u8; 48], 7);
    plot_nft.delay_time = -1;
    assert_eq!(
        pool_wallet_config(&plot_nft, &String::new()).unwrap().p2_singleton_puzzle_hash,
        synth_bytes32("d791e494c58cb28a13b3eef87ccad78833a05272d63be67f2da36ea1f852628d")
    );
    plot_nft.delay_time = i32::MIN;
    assert_eq!(
        pool_wallet_config(&plot_nft, &String::new()).unwrap().p2_singleton_puzzle_hash,
        synth_bytes32("6aa1bd1e2f8a7f773a133c96dac4f35d83a26ab863f1002112b8f8a40a0bfe0b")
    );
}

#[test]
fn the_account_keys_are_the_farmer_key_and_the_pool_key() {
    assert_eq!(
        derive_account_keys(&first_master()),
        Ok((farmer_of_first_master(), pool_of_first_master()))
    );
    assert_ne!(derive_account_keys(&second_master()), derive_account_keys(&first_master()));
}

#[test]
fn an_entry_holds_the_keys_that_were_found() {
    let found = OwnerSearch::Found { index: 4, owner_key: [3u8; 32], auth_key: [4u8; 32] };
    assert_eq!(found.keys(), Some(([3u8; 32], [4u8; 32])));
    assert_eq!(
        assemble_farming_info([1u8; 32], [2u8; 32], Some([9u8; 32]), found.keys()),
        FarmingInfo {
            farmer_secret_key: [1u8; 32],
            launcher_id: Some([9u8; 32]),
            pool_secret_key: Some([2u8; 32]),
            owner_secret_key: Some([3u8; 32]),
            auth_secret_key: Some([4u8; 32]),
        }
    );
}

#[test]
fn an_entry_without_a_match_holds_the_account_keys_only() {
    let not_found = OwnerSearch::NotFound { attempts: 150 };
    assert_eq!(not_found.keys(), None);
    assert_eq!(
        assemble_farming_info([1u8; 32], [2u8; 32], Some([9u8; 32]), not_found.keys()),
        FarmingInfo {
            farmer_secret_key: [1u8; 32],
            launcher_id: Some([9u8; 32]),
            pool_secret_key: Some([2u8; 32]),
            owner_secret_key: None,
            auth_secret_key: None,
        }
    );
    assert_eq!(
        assemble_farming_info([1u8; 32], [2u8; 32], None, None).launcher_id,
        None
    );
}

fn entry_for(launcher_id: Option<Bytes32>, farmer: u8) -> FarmingInfo {
    FarmingInfo {
        farmer_secret_key: [farmer; 32],
        launcher_id,
        pool_secret_key: Some([farmer; 32]),
        owner_secret_key: None,
        auth_secret_key: None,
    }
}

#[test]
fn an_entry_with_a_new_launcher_id_is_appended() {
    let mut infos = vec![entry_for(Some([1u8; 32]), 10), entry_for(None, 11)];
    record_farming_info(&mut infos, entry_for(Some([2u8; 32]), 12));
    assert_eq!(
        infos,
        vec![entry_for(Some([1u8; 32]), 10), entry_for(None, 11), entry_for(Some([2u8; 32]), 12)]
    );
    let mut empty: Vec<FarmingInfo> = Vec::new();
    record_farming_info(&mut empty, entry_for(Some([2u8; 32]), 12));
    assert_eq!(empty, vec![entry_for(Some([2u8; 32]), 12)]);
}

#[test]
fn an_entry_with_a_known_launcher_id_is_replaced_in_place() {
    let mut infos = vec![
        entry_for(Some([1u8; 32]), 10),
        entry_for(Some([2u8; 32]), 11),
        entry_for(Some([3u8; 32]), 12),
    ];
    record_farming_info(&mut infos, entry_for(Some([2u8; 32]), 99));
    assert_eq!(
        infos,
        vec![
            entry_for(Some([1u8; 32]), 10),
            entry_for(Some([2u8; 32]), 99),
            entry_for(Some([3u8; 32]), 12),
        ]
    );
}

#[test]
fn the_entry_without_a_launcher_id_is_replaced_in_place() {
    let mut infos = vec![entry_for(None, 10), entry_for(Some([1u8; 32]), 11)];
    record_farming_info(&mut infos, entry_for(None, 99));
    assert_eq!(infos, vec![entry_for(None, 99), entry_for(Some([1u8; 32]), 11)]);
}

#[test]
fn merging_a_plot_nft_adds_its_pool_and_its_keys() {
    let master = first_master();
    let (owner_key, owner_pubkey) = derive_owner_key(&master, 5).unwrap();
    let plot_nft = plot_nft_owned_by(owner_pubkey, 7);
    let config = config_paying_to("xch1payout");
    let merged = merge_plot_nft(config.clone(), &master, &plot_nft).unwrap();
    assert_eq!(
        merged.pool_info,
        vec![pool_wallet_config(&plot_nft, &"xch1payout".to_string()).unwrap()]
    );
    assert_eq!(
        merged.farmer_info,
        vec![FarmingInfo {
            farmer_secret_key: farmer_of_first_master(),
            launcher_id: Some([7u8; 32]),
            pool_secret_key: Some(pool_of_first_master()),
            owner_secret_key: Some(owner_key),
            auth_secret_key: Some(synth_bytes32("3d9bd682ba54491857edf84b3772778017204812cae5fd1f11f9c07e682f65a3")),
        }]
    );
    let mut expected = config;
    expected.pool_info = merged.pool_info.clone();
    expected.farmer_info = merged.farmer_info.clone();
    assert_eq!(merged, expected);
}

#[test]
fn merging_a_plot_nft_of_an_unknown_owner_leaves_the_owner_keys_out() {
    let master = first_master();
    let plot_nft = plot_nft_owned_by([0x42u8; 48], 7);
    let merged = merge_plot_nft(config_paying_to("xch1payout"), &master, &plot_nft).unwrap();
    assert_eq!(merged.pool_info.len(), 1);
    assert_eq!(
        merged.farmer_info,
        vec![FarmingInfo {
            farmer_secret_key: farmer_of_first_master(),
            launcher_id: Some([7u8; 32]),
            pool_secret_key: Some(pool_of_first_master()),
            owner_secret_key: None,
            auth_secret_key: None,
        }]
    );
}

#[test]
fn merging_the_same_plot_nft_twice_keeps_one_entry() {
    let first = first_master();
    let second = second_master();
    let (_, owner_pubkey) = derive_owner_key(&second, 2).unwrap();
    let plot_nft = plot_nft_owned_by(owner_pubkey, 7);
    let once = merge_plot_nft(config_paying_to("xch1payout"), &first, &plot_nft).unwrap();
    assert_eq!(once.farmer_info.len(), 1);
    assert_eq!(once.farmer_info[0].owner_secret_key, None);
    let twice = merge_plot_nft(once.clone(), &second, &plot_nft).unwrap();
    assert_eq!(twice.farmer_info.len(), 1);
    let (farmer_key, pool_key) = derive_account_keys(&second).unwrap();
    let (owner_key, _) = derive_owner_key(&second, 2).unwrap();
    assert_eq!(twice.farmer_info[0].launcher_id, Some([7u8; 32]));
    assert_eq!(twice.farmer_info[0].farmer_secret_key, farmer_key);
    assert_eq!(twice.farmer_info[0].pool_secret_key, Some(pool_key));
    assert_eq!(twice.farmer_info[0].owner_secret_key, Some(owner_key));
    assert!(twice.farmer_info[0].auth_secret_key.is_some());
    assert_ne!(twice.farmer_info[0], once.farmer_info[0]);
    assert_eq!(twice.pool_info.len(), 2);
    assert_eq!(twice.pool_info[0], twice.pool_info[1]);
}

#[test]
fn synthesis_with_the_same_plot_nft_twice_keeps_one_entry() {
    let master = first_master();
    let (_, owner_pubkey) = derive_owner_key(&master, 1).unwrap();
    let plot_nfts = vec![plot_nft_owned_by(owner_pubkey, 7)];
    let once = synthesize(config_paying_to("xch1payout"), &master, &plot_nfts).unwrap();
    let twice = synthesize(once.clone(), &master, &plot_nfts).unwrap();
    assert_eq!(once.farmer_info.len(), 1);
    assert_eq!(twice.farmer_info, once.farmer_info);
    assert_eq!(twice.pool_info.len(), 2);
}

#[test]
fn synthesis_merges_every_plot_nft_in_order() {
    let master = first_master();
    let (owner_key, owner_pubkey) = derive_owner_key(&master, 0).unwrap();
    let plot_nfts = vec![
        plot_nft_owned_by(owner_pubkey, 7),
        plot_nft_owned_by([0x42u8; 48], 8),
        plot_nft_owned_by(owner_pubkey, 9),
    ];
    let config = synthesize(config_paying_to("xch1payout"), &master, &plot_nfts).unwrap();
    assert_eq!(config.pool_info.len(), 3);
    assert_eq!(config.farmer_info.len(), 3);
    for (position, launcher) in [7u8, 8, 9].into_iter().enumerate() {
        assert_eq!(config.pool_info[position].launcher_id, [launcher; 32]);
        assert_eq!(config.farmer_info[position].launcher_id, Some([launcher; 32]));
        assert_eq!(config.farmer_info[position].farmer_secret_key, farmer_of_first_master());
    }
    assert_eq!(config.farmer_info[0].owner_secret_key, Some(owner_key));
    assert_eq!(config.farmer_info[1].owner_secret_key, None);
    assert_eq!(config.farmer_info[1].auth_secret_key, None);
    assert_eq!(config.farmer_info[2].owner_secret_key, Some(owner_key));
}

#[test]
fn a_scan_without_findings_leaves_one_entry_without_a_launcher_id() {
    let master = first_master();
    let mut scan = PagedScan::start();
    let mut pages = 0;
    let plot_nfts = loop {
        pages += 1;
        match scan.advance(Vec::new()) {
            ScanProgress::Continue(next) => scan = next,
            ScanProgress::Finished(plot_nfts) => break plot_nfts,
        }
    };
    assert_eq!(pages, 50);
    let config = synthesize(config_paying_to("xch1payout"), &master, &plot_nfts).unwrap();
    assert!(config.pool_info.is_empty());
    assert_eq!(
        config.farmer_info,
        vec![FarmingInfo {
            farmer_secret_key: farmer_of_first_master(),
            launcher_id: None,
            pool_secret_key: Some(pool_of_first_master()),
            owner_secret_key: None,
            auth_secret_key: None,
        }]
    );
    assert_ne!(config.farmer_info[0].farmer_secret_key, [0u8; 32]);
    assert_ne!(config.farmer_info[0].pool_secret_key, Some([0u8; 32]));
}

#[test]
fn the_entry_without_a_launcher_id_is_not_duplicated() {
    let master = first_master();
    let once = synthesize(config_paying_to("xch1payout"), &master, &Vec::new()).unwrap();
    let twice = synthesize(once.clone(), &master, &Vec::new()).unwrap();
    assert_eq!(twice, once);
    assert_eq!(twice.farmer_info.len(), 1);
}

#[test]
fn a_direct_lookup_gives_one_pool_membership() {
    let master = first_master();
    let (_, owner_pubkey) = derive_owner_key(&master, 3).unwrap();
    let launcher_id = [7u8; 32];
    let plot_nfts = resolve_direct(launcher_id, Some(plot_nft_owned_by(owner_pubkey, 7))).unwrap();
    let config = synthesize(config_paying_to("xch1qpayoutaddress"), &master, &plot_nfts).unwrap();
    assert_eq!(config.pool_info.len(), 1);
    assert_eq!(config.pool_info[0].launcher_id, launcher_id);
    assert_eq!(config.pool_info[0].payout_instructions, "xch1qpayoutaddress");
    assert_eq!(config.pool_info[0].payout_instructions, config.payout_address);
    assert_eq!(config.pool_info[0].difficulty, None);
    assert_eq!(config.farmer_info.len(), 1);
    assert_eq!(config.farmer_info[0].launcher_id, Some(launcher_id));
}

#[test]
fn synthesis_changes_no_other_setting() {
    let master = first_master();
    let mut config = config_paying_to("xch1payout");
    config.selected_network = "testnet11".to_string();
    config.fullnode_rpc_port = 1234;
    config.ssl_root_path = Some("/ssl".to_string());
    let result = synthesize(config.clone(), &master, &vec![plot_nft_owned_by([1u8; 48], 7)]).unwrap();
    let mut expected = config;
    expected.pool_info = result.pool_info.clone();
    expected.farmer_info = result.farmer_info.clone();
    assert_eq!(result, expected);
}
