//! Chunked, content-addressed storage of cartridges (blobs of at most 6 MiB)
//! on a ledger whose writes carry a few hundred bytes each, with a paginated
//! catalog of the sealed ones.
//!
//! The library holds the state machine: how a blob is split into chunks, how
//! chunk writes are checked, how a cartridge is finalized into the catalog,
//! and how the catalog's pages and counters evolve. Every operation is an
//! all-or-nothing step over the accounts that it names.

pub mod pubkey;
pub mod config;
pub mod chunking;
pub mod error;
pub mod accounts;
pub mod instructions;
pub mod addressing;
pub mod laws;

pub use instructions::{
    initialize_catalog,
    create_catalog_page,
    create_manifest,
    write_chunk,
    finalize_cartridge,
    update_admin,
};
