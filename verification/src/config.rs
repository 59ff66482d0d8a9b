//! The storage settings with which a database is opened.
use vstd::prelude::*;

verus! {

/// The storage settings of PoloDB Core.
#[derive(Clone, Copy)]
pub struct DatabaseConfig {
    pub init_block_count: u64,
    pub journal_full_size: u64,
    pub lsm_page_size: u32,
    pub lsm_block_size: u32,
    pub sync_log_count: u64,
}

/// The settings that a database is opened with when none are given; they
/// are PoloDB Core's own defaults.
pub open spec fn default_config() -> DatabaseConfig {
    DatabaseConfig {
        init_block_count: 16,
        journal_full_size: 1000,
        lsm_page_size: 4096,
        lsm_block_size: 4194304,
        sync_log_count: 1000,
    }
}

impl Default for DatabaseConfig {
    fn default() -> (config: DatabaseConfig)
        ensures
            config == default_config(),
    {
        DatabaseConfig {
            init_block_count: 16,
            journal_full_size: 1000,
            lsm_page_size: 4096,
            lsm_block_size: 4 * 1024 * 1024,
            sync_log_count: 1000,
        }
    }
}

} // verus!
