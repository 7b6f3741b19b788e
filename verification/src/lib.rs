//! Key-derivation walk, PlotNFT ownership discovery and farming-configuration
//! synthesis for a proof-of-space farming client.

pub mod bytes;
pub mod config;
pub mod error;
pub mod hosts;
pub mod keys;
pub mod locator;
pub mod matcher;
pub mod network;
pub mod synthesizer;
pub mod walker;
