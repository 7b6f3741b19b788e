use farmer_config::bytes::Bytes32;
use farmer_config::error::SetupError;
use farmer_config::locator::{
    lookup_mode, resolve_direct, LookupMode, PagedScan, PlotNft, PoolState, ScanProgress, MAX_PAGES,
};
use farmer_config::walker::{master_key_from_mnemonic, page_candidates, puzzle_hashes};

const LOCATOR_PHRASE: &str =
    "abandon abandon abandon abandon abandon abandon abandon abandon abandon abandon abandon about";

fn locator_plot_nft(tag: u8) -> PlotNft {
    PlotNft {
        launcher_id: [tag; 32],
        pool_state: PoolState {
            pool_url: Some(format!("https://pool{tag}.example")),
            target_puzzle_hash: [tag.wrapping_add(1); 32],
            owner_pubkey: [tag.wrapping_add(2); 48],
        },
        delay_time: 604800,
        delay_puzzle_hash: [tag.wrapping_add(3); 32],
    }
}

#[test]
fn a_launcher_id_selects_the_direct_lookup() {
    assert_eq!(lookup_mode(Some([9u8; 32])), LookupMode::Direct([9u8; 32]));
    assert_eq!(lookup_mode(None), LookupMode::Scan);
}

#[test]
fn a_resolved_launcher_id_gives_one_plot_nft() {
    let plot_nft = locator_plot_nft(1);
    assert_eq!(resolve_direct([1u8; 32], Some(plot_nft.clone())), Ok(vec![plot_nft]));
}

#[test]
fn an_unresolved_launcher_id_is_an_error() {
    assert_eq!(resolve_direct([1u8; 32], None), Err(SetupError::NotFound([1u8; 32])));
}

#[test]
fn a_scan_without_findings_queries_fifty_pages() {
    assert_eq!(MAX_PAGES, 50);
    let mut scan = PagedScan::start();
    let mut pages: Vec<u32> = Vec::new();
    let result = loop {
        pages.push(scan.current_page());
        match scan.advance(Vec::new()) {
            ScanProgress::Continue(next) => scan = next,
            ScanProgress::Finished(plot_nfts) => break plot_nfts,
        }
    };
    assert_eq!(pages, (0..50).collect::<Vec<u32>>());
    assert!(result.is_empty());
}

#[test]
fn a_scan_stops_at_the_first_page_with_findings() {
    let mut scan = PagedScan::start();
    for page in 0..4u32 {
        assert_eq!(scan.current_page(), page);
        scan = match scan.advance(Vec::new()) {
            ScanProgress::Continue(next) => next,
            ScanProgress::Finished(_) => panic!("the scan ended on an empty page"),
        };
    }
    assert_eq!(scan.current_page(), 4);
    let found = vec![locator_plot_nft(1), locator_plot_nft(2)];
    match scan.advance(found.clone()) {
        ScanProgress::Continue(_) => panic!("the scan went on after it had found PlotNFTs"),
        ScanProgress::Finished(plot_nfts) => assert_eq!(plot_nfts, found),
    }
}

#[test]
fn a_scan_can_end_on_its_first_page() {
    let found = vec![locator_plot_nft(7)];
    match PagedScan::start().advance(found.clone()) {
        ScanProgress::Continue(_) => panic!("the scan went on after it had found a PlotNFT"),
        ScanProgress::Finished(plot_nfts) => assert_eq!(plot_nfts, found),
    }
}

#[test]
fn findings_on_the_last_page_are_the_result() {
    let mut scan = PagedScan::start();
    for _ in 0..49 {
        scan = match scan.advance(Vec::new()) {
            ScanProgress::Continue(next) => next,
            ScanProgress::Finished(_) => panic!("the scan ended early"),
        };
    }
    assert_eq!(scan.current_page(), 49);
    let found = vec![locator_plot_nft(3)];
    match scan.advance(found.clone()) {
        ScanProgress::Continue(_) => panic!("the scan went beyond the ceiling"),
        ScanProgress::Finished(plot_nfts) => assert_eq!(plot_nfts, found),
    }
}

#[test]
fn a_query_holds_the_puzzle_hashes_of_the_awaited_page() {
    let master: Bytes32 = master_key_from_mnemonic(LOCATOR_PHRASE).unwrap();
    let scan = PagedScan::start();
    let first = scan.query(&master).unwrap();
    assert_eq!(first.len(), 100);
    assert_eq!(first, puzzle_hashes(&page_candidates(&master, 0).unwrap()));
    let scan = match scan.advance(Vec::new()) {
        ScanProgress::Continue(next) => next,
        ScanProgress::Finished(_) => panic!("the scan ended on an empty page"),
    };
    let second = scan.query(&master).unwrap();
    assert_eq!(second, puzzle_hashes(&page_candidates(&master, 1).unwrap()));
    assert_ne!(first, second);
}
