//! Ownership discovery: which PlotNFTs belong to the master key.
//!
//! The chain-state service is outside this library. A caller sends it the
//! queries that this module asks for and hands the answers back; the module
//! decides what is asked next and when the search is over.

use vstd::prelude::*;
use crate::bytes::{Bytes32, Bytes48};
use crate::error::SetupError;
use crate::walker::{
    candidate_hardened, candidate_index, candidate_puzzle_hash, page_candidates, page_fails_with,
    puzzle_hashes, PAGE_CANDIDATES,
};

verus! {

/// The number of pages after which a scan gives up.
pub const MAX_PAGES: u32 = 50;

/// The part of a PlotNFT's pool state that a configuration is built from.
#[derive(Clone, Debug, PartialEq, Eq)]
pub struct PoolState {
    /// The address of the pool, where the PlotNFT is assigned to one.
    pub pool_url: Option<String>,
    /// The puzzle hash that rewards are paid to.
    pub target_puzzle_hash: Bytes32,
    /// The public key of the singleton owner key that controls the PlotNFT.
    pub owner_pubkey: Bytes48,
}

/// A PlotNFT as the chain-state service reports it.
#[derive(Clone, Debug, PartialEq, Eq)]
pub struct PlotNft {
    /// The identifier minted with the PlotNFT.
    pub launcher_id: Bytes32,
    /// The current pool state.
    pub pool_state: PoolState,
    /// The delay, in seconds, of the delayed puzzle.
    pub delay_time: i32,
    /// The puzzle hash of the delayed puzzle.
    pub delay_puzzle_hash: Bytes32,
}

/// What a `PlotNft` holds, each hash as its sequence of bytes and the pool
/// address as its text.
pub struct PlotNftView {
    pub launcher_id: Seq<u8>,
    pub pool_url: Option<Seq<char>>,
    pub target_puzzle_hash: Seq<u8>,
    pub owner_pubkey: Seq<u8>,
    pub delay_time: i32,
    pub delay_puzzle_hash: Seq<u8>,
}

impl View for PlotNft {
    type V = PlotNftView;

    open spec fn view(&self) -> PlotNftView {
        PlotNftView {
            launcher_id: self.launcher_id@,
            pool_url: match self.pool_state.pool_url {
                Some(url) => Some(url@),
                None => None,
            },
            target_puzzle_hash: self.pool_state.target_puzzle_hash@,
            owner_pubkey: self.pool_state.owner_pubkey@,
            delay_time: self.delay_time,
            delay_puzzle_hash: self.delay_puzzle_hash@,
        }
    }
}

/// How PlotNFTs are looked up.
#[derive(Clone, Copy, Debug, PartialEq, Eq)]
pub enum LookupMode {
    /// Ask for the PlotNFT with this launcher id, and for nothing else.
    Direct(Bytes32),
    /// Scan the wallet keys page by page.
    Scan,
}

/// Chooses the lookup mode: direct where a launcher id was supplied, a scan
/// where none was.
pub fn lookup_mode(launcher_id: Option<Bytes32>) -> (mode: LookupMode)
    ensures
        mode == match launcher_id {
            Some(id) => LookupMode::Direct(id),
            None => LookupMode::Scan,
        },
{
    match launcher_id {
        Some(id) => LookupMode::Direct(id),
        None => LookupMode::Scan,
    }
}

/// Ends a direct lookup. The PlotNFT that the service returned is the whole
/// result; a launcher id that resolves to nothing is an error, and no scan is
/// made in its place.
pub fn resolve_direct(launcher_id: Bytes32, found: Option<PlotNft>) -> (resolved: Result<Vec<PlotNft>, SetupError>)
    ensures
        match found {
            Some(plot_nft) => resolved matches Ok(plot_nfts) && plot_nfts@ == seq![plot_nft],
            None => resolved == Err::<Vec<PlotNft>, SetupError>(SetupError::NotFound(launcher_id)),
        },
{
    match found {
        Some(plot_nft) => {
            let mut plot_nfts: Vec<PlotNft> = Vec::new();
            plot_nfts.push(plot_nft);
            Ok(plot_nfts)
        },
        None => Err(SetupError::NotFound(launcher_id)),
    }
}

/// Whether a scan goes on after `pages_done` pages have been answered and
/// `found` PlotNFTs have come back: only while nothing was found and the page
/// ceiling is not reached.
pub open spec fn scan_continues(pages_done: nat, found: nat) -> bool {
    pages_done < MAX_PAGES && found == 0
}

/// Whether `hashes` are the puzzle hashes of the candidates of `page`, in
/// order.
pub open spec fn is_page_query(hashes: Seq<Bytes32>, master: Seq<u8>, page: u32) -> bool {
    &&& hashes.len() == PAGE_CANDIDATES
    &&& forall|position: int| 0 <= position < PAGE_CANDIDATES ==> candidate_puzzle_hash(
        master,
        candidate_index(page, position) as u32,
        candidate_hardened(position),
    ) == Some((#[trigger] hashes[position])@)
}

/// A scan in progress: the page whose answer is awaited.
pub struct PagedScan {
    page: u32,
}

/// What a scan does once a page has been answered.
pub enum ScanProgress {
    /// The next page is to be queried.
    Continue(PagedScan),
    /// The scan is over, with these PlotNFTs as its result.
    Finished(Vec<PlotNft>),
}

impl PagedScan {
    #[verifier::type_invariant]
    spec fn below_ceiling(self) -> bool {
        self.page < MAX_PAGES
    }

    /// The number of the page whose answer is awaited.
    pub closed spec fn page(self) -> u32 {
        self.page
    }

    /// A scan that starts at page 0.
    pub fn start() -> (scan: PagedScan)
        ensures
            scan.page() == 0,
    {
        PagedScan { page: 0 }
    }

    /// The number of the page whose answer is awaited. It is below the page
    /// ceiling.
    pub fn current_page(&self) -> (page: u32)
        ensures
            page == self.page(),
            page < MAX_PAGES,
    {
        proof {
            use_type_invariant(self);
        }
        self.page
    }

    /// The query for the awaited page: the puzzle hashes of its candidates.
    pub fn query(&self, master: &Bytes32) -> (hashes: Result<Vec<Bytes32>, SetupError>)
        ensures
            match hashes {
                Ok(hashes) => is_page_query(hashes@, master@, self.page()),
                Err(error) => page_fails_with(master@, self.page(), error),
            },
    {
        proof {
            use_type_invariant(self);
        }
        match page_candidates(master, self.page) {
            Ok(candidates) => {
                Ok(puzzle_hashes(&candidates))
            },
            Err(error) => Err(error),
        }
    }

    /// Takes the answer to the awaited page. The scan ends with that answer
    /// where it holds a PlotNFT or where the page was the last one below the
    /// ceiling; else the next page is awaited.
    pub fn advance(self, found: Vec<PlotNft>) -> (progress: ScanProgress)
        ensures
            match progress {
                ScanProgress::Continue(next) => scan_continues((self.page() + 1) as nat, found@.len())
                    && next.page() == self.page() + 1,
                ScanProgress::Finished(plot_nfts) => !scan_continues((self.page() + 1) as nat, found@.len())
                    && plot_nfts == found,
            },
    {
        proof {
            use_type_invariant(&self);
        }
        let next: u32 = self.page + 1;
        if next < MAX_PAGES && found.len() == 0 {
            ScanProgress::Continue(PagedScan { page: next })
        } else {
            ScanProgress::Finished(found)
        }
    }
}

/// The number of pages that a scan queries from `page` on, where the service
/// answers page `p` with `found_on(p)` PlotNFTs.
pub open spec fn pages_queried(found_on: spec_fn(nat) -> nat, page: nat) -> nat
    decreases MAX_PAGES - page,
{
    if scan_continues(page + 1, found_on(page)) {
        pages_queried(found_on, page + 1)
    } else {
        page + 1
    }
}

/// The number of PlotNFTs that a scan from `page` on ends with, where the
/// service answers page `p` with `found_on(p)` PlotNFTs: the answer to the last
/// page queried.
pub open spec fn scan_yield(found_on: spec_fn(nat) -> nat, page: nat) -> nat {
    found_on((pages_queried(found_on, page) - 1) as nat)
}

/// A scan never queries a page at or beyond the ceiling: started on a page
/// below it, the scan ends after at most `MAX_PAGES` pages in all.
pub proof fn scan_is_bounded(found_on: spec_fn(nat) -> nat, page: nat)
    requires
        page < MAX_PAGES,
    ensures
        page < pages_queried(found_on, page) <= MAX_PAGES,
    decreases MAX_PAGES - page,
{
    if scan_continues(page + 1, found_on(page)) {
        scan_is_bounded(found_on, page + 1);
    }
}

/// Whether the derivation index `index` lies in one of the first `pages`
/// pages.
pub open spec fn index_in_pages(index: int, pages: nat) -> bool {
    exists|page: u32, position: int|
        page < pages && 0 <= position < PAGE_CANDIDATES
            && #[trigger] candidate_index(page, position) == index
}

/// Where the service finds nothing on any page, a scan from page 0 queries
/// exactly `MAX_PAGES` pages, which cover the derivation indices from 0 up to,
/// but not including, 2500, and ends with an empty result.
pub proof fn empty_scan_runs_to_the_ceiling(found_on: spec_fn(nat) -> nat)
    requires
        forall|page: nat| #[trigger] found_on(page) == 0,
    ensures
        pages_queried(found_on, 0) == MAX_PAGES,
        scan_yield(found_on, 0) == 0,
        forall|index: int| 0 <= index < 2500 <==> #[trigger] index_in_pages(
            index,
            pages_queried(found_on, 0),
        ),
{
    empty_scan_from(found_on, 0);
    assert forall|index: int| 0 <= index < 2500 implies #[trigger] index_in_pages(
        index,
        pages_queried(found_on, 0),
    ) by {
        let page = (index / 50) as u32;
        let position = 2 * (index % 50);
        assert(candidate_index(page, position) == index);
    }
}

/// Where the service finds nothing on any page, a scan that has reached
/// `page` goes on to the ceiling.
proof fn empty_scan_from(found_on: spec_fn(nat) -> nat, page: nat)
    requires
        page < MAX_PAGES,
        forall|later: nat| #[trigger] found_on(later) == 0,
    ensures
        pages_queried(found_on, page) == MAX_PAGES,
    decreases MAX_PAGES - page,
{
    if page + 1 < MAX_PAGES {
        empty_scan_from(found_on, page + 1);
    }
}

} // verus!
