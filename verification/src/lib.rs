//! Structure placement, decoration-seed and loot-table logic for Minecraft
//! Java 26.1.2 container prediction, with its contracts proved by Verus.

pub mod legacy_random;
pub mod xoroshiro;
pub mod catalog;
pub mod error;
pub mod decoration_seed;
pub mod placement;
pub mod strings;
pub mod output;
pub mod rust_core;
pub mod cli;
pub mod rust_cli;
pub mod binary32;
pub mod loot;
pub mod worldgen;
pub mod surface_jigsaw;
pub mod template_data;
pub mod template_scan;
pub mod commands;
pub mod jigsaw;
