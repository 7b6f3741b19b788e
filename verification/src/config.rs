//! The farming configuration: the document that a run produces.

use vstd::prelude::*;
use vstd::string::StringExecFns;
use crate::bytes::{opt_view, Bytes32, Bytes48};

verus! {

/// The default of a flag that is on unless it is switched off.
pub fn default_true() -> (value: bool)
    ensures
        value,
{
    true
}

/// The default plot search depth.
pub fn default_0() -> (value: i64)
    ensures
        value == 0,
{
    0
}

/// The port that metrics are served on by default.
pub fn default_metrics_port() -> (port: u16)
    ensures
        port == 8080,
{
    8080
}

/// The default of a limit that is not set.
pub fn default_neg_1() -> (value: i32)
    ensures
        value == -1,
{
    -1
}

/// The default recompute port: none.
pub fn default_recompute() -> (port: u16)
    ensures
        port == 0,
{
    0
}

/// The default of an optional section: absent.
pub fn default_none<T>() -> (value: Option<T>)
    ensures
        value is None,
{
    None
}

/// The keys that a farmer holds for one PlotNFT, or for none.
#[derive(Debug, Clone, PartialEq, Eq)]
pub struct FarmingInfo {
    /// The farmer key of the master key.
    pub farmer_secret_key: Bytes32,
    /// The launcher id of the PlotNFT; `None` marks the entry of a farmer
    /// that has no PlotNFT yet.
    pub launcher_id: Option<Bytes32>,
    /// The pool key of the master key.
    pub pool_secret_key: Option<Bytes32>,
    /// The singleton owner key of the PlotNFT, where it was found.
    pub owner_secret_key: Option<Bytes32>,
    /// The pooling authentication key of the PlotNFT, where its owner key was
    /// found.
    pub auth_secret_key: Option<Bytes32>,
}

/// What a `FarmingInfo` holds, each key as its sequence of bytes.
pub struct FarmingInfoView {
    pub farmer_secret_key: Seq<u8>,
    pub launcher_id: Option<Seq<u8>>,
    pub pool_secret_key: Option<Seq<u8>>,
    pub owner_secret_key: Option<Seq<u8>>,
    pub auth_secret_key: Option<Seq<u8>>,
}

impl View for FarmingInfo {
    type V = FarmingInfoView;

    open spec fn view(&self) -> FarmingInfoView {
        FarmingInfoView {
            farmer_secret_key: self.farmer_secret_key@,
            launcher_id: opt_view(self.launcher_id),
            pool_secret_key: opt_view(self.pool_secret_key),
            owner_secret_key: opt_view(self.owner_secret_key),
            auth_secret_key: opt_view(self.auth_secret_key),
        }
    }
}

/// What a list of `FarmingInfo` holds, entry by entry.
pub open spec fn farmer_views(infos: Seq<FarmingInfo>) -> Seq<FarmingInfoView> {
    Seq::new(infos.len(), |i: int| infos[i]@)
}

/// Whether no launcher id occurs in two entries.
pub open spec fn launchers_unique(infos: Seq<FarmingInfoView>) -> bool {
    forall|i: int, j: int|
        0 <= i < infos.len() && 0 <= j < infos.len() && i != j && infos[i].launcher_id is Some
            ==> #[trigger] infos[i].launcher_id != #[trigger] infos[j].launcher_id
}

impl Default for FarmingInfo {
    fn default() -> (info: FarmingInfo)
        ensures
            info.farmer_secret_key@ == Seq::new(32, |i: int| 0u8),
            info.launcher_id is None,
            info.pool_secret_key is None,
            info.owner_secret_key is None,
            info.auth_secret_key is None,
    {
        let zero: Bytes32 = [0u8; 32];
        FarmingInfo {
            farmer_secret_key: zero,
            launcher_id: None,
            pool_secret_key: None,
            owner_secret_key: None,
            auth_secret_key: None,
        }
    }
}

/// The pool membership that one PlotNFT stands for.
#[derive(Debug, Clone, PartialEq, Eq)]
pub struct PoolWalletConfig {
    /// The launcher id of the PlotNFT.
    pub launcher_id: Bytes32,
    /// The address of the pool; empty where the PlotNFT names none.
    pub pool_url: String,
    /// The puzzle hash that rewards are paid to.
    pub target_puzzle_hash: Bytes32,
    /// The payout address of the farmer.
    pub payout_instructions: String,
    /// The pay-to-singleton puzzle hash of the PlotNFT.
    pub p2_singleton_puzzle_hash: Bytes32,
    /// The public key of the owner of the PlotNFT.
    pub owner_public_key: Bytes48,
    /// The difficulty that the pool has assigned; none at first.
    pub difficulty: Option<u64>,
}

/// What a `PoolWalletConfig` holds, each hash as its sequence of bytes and each
/// string as its text.
pub struct PoolWalletConfigView {
    pub launcher_id: Seq<u8>,
    pub pool_url: Seq<char>,
    pub target_puzzle_hash: Seq<u8>,
    pub payout_instructions: Seq<char>,
    pub p2_singleton_puzzle_hash: Seq<u8>,
    pub owner_public_key: Seq<u8>,
    pub difficulty: Option<u64>,
}

impl View for PoolWalletConfig {
    type V = PoolWalletConfigView;

    open spec fn view(&self) -> PoolWalletConfigView {
        PoolWalletConfigView {
            launcher_id: self.launcher_id@,
            pool_url: self.pool_url@,
            target_puzzle_hash: self.target_puzzle_hash@,
            payout_instructions: self.payout_instructions@,
            p2_singleton_puzzle_hash: self.p2_singleton_puzzle_hash@,
            owner_public_key: self.owner_public_key@,
            difficulty: self.difficulty,
        }
    }
}

/// What a list of `PoolWalletConfig` holds, entry by entry.
pub open spec fn pool_views(pools: Seq<PoolWalletConfig>) -> Seq<PoolWalletConfigView> {
    Seq::new(pools.len(), |i: int| pools[i]@)
}

/// Whether and where metrics are served.
#[derive(Debug, Clone, PartialEq, Eq)]
pub struct MetricsConfig {
    pub enabled: bool,
    pub port: u16,
}

impl Default for MetricsConfig {
    fn default() -> (metrics: MetricsConfig)
        ensures
            metrics.enabled,
            metrics.port == 8080,
    {
        MetricsConfig { enabled: true, port: 8080 }
    }
}

/// The settings of the built-in harvester.
#[derive(Debug, Clone, PartialEq, Eq)]
pub struct DruidGardenHarvesterConfig {
    pub plot_directories: Vec<String>,
}

impl Default for DruidGardenHarvesterConfig {
    fn default() -> (harvester: DruidGardenHarvesterConfig)
        ensures
            harvester.plot_directories@.len() == 0,
    {
        DruidGardenHarvesterConfig { plot_directories: Vec::new() }
    }
}

/// The settings of the Gigahorse harvester.
#[derive(Debug, Clone, PartialEq, Eq)]
pub struct GigahorseHarvesterConfig {
    pub plot_directories: Vec<String>,
    pub parallel_read: bool,
    pub plot_search_depth: i64,
    pub max_cpu_cores: i32,
    pub max_cuda_devices: i32,
    pub max_opencl_devices: i32,
    pub cuda_device_list: Vec<u8>,
    pub opencl_device_list: Vec<u8>,
    pub recompute_host: String,
    pub recompute_port: u16,
}

impl GigahorseHarvesterConfig {
    /// Whether every setting but the plot directories and the search depth
    /// has its default: reads in parallel, no limit on cores or devices, no
    /// device lists and no recompute server.
    pub open spec fn has_default_devices(self) -> bool {
        &&& self.parallel_read
        &&& self.max_cpu_cores == -1
        &&& self.max_cuda_devices == -1
        &&& self.max_opencl_devices == -1
        &&& self.cuda_device_list@.len() == 0
        &&& self.opencl_device_list@.len() == 0
        &&& self.recompute_host@.len() == 0
        &&& self.recompute_port == 0
    }

    /// The harvester settings that a generated configuration starts with:
    /// the given plot directories, searched two levels deep.
    pub fn for_plot_directories(plot_directories: Vec<String>) -> (harvester: GigahorseHarvesterConfig)
        ensures
            harvester.plot_directories == plot_directories,
            harvester.plot_search_depth == 2,
            harvester.has_default_devices(),
    {
        GigahorseHarvesterConfig {
            plot_directories,
            parallel_read: true,
            plot_search_depth: 2,
            max_cpu_cores: -1,
            max_cuda_devices: -1,
            max_opencl_devices: -1,
            cuda_device_list: Vec::new(),
            opencl_device_list: Vec::new(),
            recompute_host: String::new(),
            recompute_port: 0,
        }
    }
}

impl Default for GigahorseHarvesterConfig {
    fn default() -> (harvester: GigahorseHarvesterConfig)
        ensures
            harvester.plot_directories@.len() == 0,
            harvester.plot_search_depth == 0,
            harvester.has_default_devices(),
    {
        GigahorseHarvesterConfig {
            plot_directories: Vec::new(),
            parallel_read: true,
            plot_search_depth: 0,
            max_cpu_cores: -1,
            max_cuda_devices: -1,
            max_opencl_devices: -1,
            cuda_device_list: Vec::new(),
            opencl_device_list: Vec::new(),
            recompute_host: String::new(),
            recompute_port: 0,
        }
    }
}

/// The harvesters that a farmer runs.
#[derive(Debug, Clone, PartialEq, Eq)]
pub struct HarvesterConfig {
    pub druid_garden: Option<DruidGardenHarvesterConfig>,
    pub gigahorse: Option<GigahorseHarvesterConfig>,
}

impl Default for HarvesterConfig {
    fn default() -> (harvesters: HarvesterConfig)
        ensures
            harvesters.druid_garden is None,
            harvesters.gigahorse is None,
    {
        HarvesterConfig { druid_garden: None, gigahorse: None }
    }
}

/// The farming configuration.
#[derive(Debug, Clone, PartialEq, Eq)]
pub struct Config {
    pub selected_network: String,
    pub ssl_root_path: Option<String>,
    pub fullnode_ws_host: String,
    pub fullnode_ws_port: u16,
    pub fullnode_rpc_host: String,
    pub fullnode_rpc_port: u16,
    pub farmer_info: Vec<FarmingInfo>,
    pub pool_info: Vec<PoolWalletConfig>,
    pub payout_address: String,
    pub harvester_configs: HarvesterConfig,
    pub metrics: Option<MetricsConfig>,
}

/// The part of a configuration that PlotNFTs are merged into.
pub struct Holdings {
    /// The pool memberships, in the order in which they were added.
    pub pool_info: Seq<PoolWalletConfigView>,
    /// The keys of the farmer, one entry for each launcher id.
    pub farmer_info: Seq<FarmingInfoView>,
}

impl Config {
    /// The pool memberships and farmer keys of the configuration.
    pub open spec fn holdings(self) -> Holdings {
        Holdings {
            pool_info: pool_views(self.pool_info@),
            farmer_info: farmer_views(self.farmer_info@),
        }
    }

    /// Whether the configuration has at most one entry of farmer keys for each
    /// launcher id.
    pub open spec fn well_formed(self) -> bool {
        launchers_unique(farmer_views(self.farmer_info@))
    }

    /// Whether two configurations agree on every setting but the pool
    /// memberships and the farmer keys.
    pub open spec fn same_settings(self, other: Config) -> bool {
        &&& self.selected_network == other.selected_network
        &&& self.ssl_root_path == other.ssl_root_path
        &&& self.fullnode_ws_host == other.fullnode_ws_host
        &&& self.fullnode_ws_port == other.fullnode_ws_port
        &&& self.fullnode_rpc_host == other.fullnode_rpc_host
        &&& self.fullnode_rpc_port == other.fullnode_rpc_port
        &&& self.payout_address == other.payout_address
        &&& self.harvester_configs == other.harvester_configs
        &&& self.metrics == other.metrics
    }
}

impl Default for Config {
    fn default() -> (config: Config)
        ensures
            config.selected_network@ == "mainnet"@,
            config.ssl_root_path is None,
            config.fullnode_ws_host@ == "localhost"@,
            config.fullnode_ws_port == 8444,
            config.fullnode_rpc_host@ == "localhost"@,
            config.fullnode_rpc_port == 8555,
            config.farmer_info@.len() == 0,
            config.pool_info@.len() == 0,
            config.payout_address@.len() == 0,
            config.harvester_configs.druid_garden is None,
            config.harvester_configs.gigahorse matches Some(harvester)
                && harvester.plot_directories@.len() == 0
                && harvester.plot_search_depth == 0
                && harvester.has_default_devices(),
            config.metrics == Some(MetricsConfig { enabled: true, port: 8080 }),
            config.well_formed(),
    {
        Config {
            selected_network: String::from_str("mainnet"),
            ssl_root_path: None,
            fullnode_rpc_host: String::from_str("localhost"),
            fullnode_rpc_port: 8555,
            fullnode_ws_host: String::from_str("localhost"),
            fullnode_ws_port: 8444,
            farmer_info: Vec::new(),
            pool_info: Vec::new(),
            payout_address: String::new(),
            harvester_configs: HarvesterConfig {
                druid_garden: None,
                gigahorse: Some(GigahorseHarvesterConfig::default()),
            },
            metrics: Some(MetricsConfig { enabled: true, port: 8080 }),
        }
    }
}

} // verus!
