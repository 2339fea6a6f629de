//! Constants fixed for a deployment.

use vstd::prelude::*;

verus! {

/// Largest cartridge that a manifest may declare, in bytes (6 MiB).
pub const MAX_CARTRIDGE_SIZE: u64 = 6 * 1024 * 1024;

/// Largest chunk, in bytes: what fits in one transaction beside its overhead.
pub const DEFAULT_CHUNK_SIZE: u32 = 800;

/// Number of entries that one catalog page holds.
pub const ENTRIES_PER_PAGE: usize = 16;

/// Stride of one catalog entry in a page's byte layout.
pub const CATALOG_ENTRY_SIZE: usize = 32 + 32 + 8 + 32 + 8 + 1 + 7;

/// Largest opaque metadata that a manifest may carry, in bytes.
pub const MAX_METADATA_LEN: usize = 256;

} // verus!
