//! The records that the ledger keeps: the catalog's root and pages, and each
//! cartridge's manifest and chunks.

use vstd::prelude::*;
use crate::pubkey::Pubkey;
use crate::config::{DEFAULT_CHUNK_SIZE, ENTRIES_PER_PAGE, MAX_METADATA_LEN};
use crate::chunking::{valid_sizes, spec_num_chunks, num_chunks};

verus! {

/// The catalog's singleton: who administers it, and its counters.
#[derive(Clone, Copy, Debug)]
pub struct CatalogRoot {
    /// The identity allowed to create pages and to hand the role over.
    pub admin: Pubkey,
    /// How many cartridges were finalized.
    pub total_cartridges: u64,
    /// How many pages were created.
    pub page_count: u32,
    /// The page that accepts new entries.
    pub latest_page_index: u32,
}

impl CatalogRoot {
    /// The active page is the last one created (page 0 before any is).
    pub open spec fn wf(self) -> bool {
        if self.page_count == 0 {
            self.latest_page_index == 0
        } else {
            self.latest_page_index == self.page_count - 1
        }
    }
}

/// One entry of a catalog page, written once when a cartridge is finalized.
#[derive(Clone, Copy, Debug)]
pub struct CatalogEntry {
    /// Content hash that identifies the cartridge.
    pub cartridge_id: [u8; 32],
    /// Address of the cartridge's manifest.
    pub manifest_pubkey: Pubkey,
    /// Size of the cartridge in bytes.
    pub zip_size: u64,
    /// Hash of the whole cartridge, as its publisher declared it.
    pub sha256: [u8; 32],
    /// Slot at which the manifest was created.
    pub created_slot: u64,
    /// Reserved bits (bit 0: retired); no operation sets them.
    pub flags: u8,
}

/// A page of the catalog: its entries in the order in which they came.
#[derive(Clone, Debug)]
pub struct CatalogPage {
    /// Position of the page in the catalog (from 0).
    pub page_index: u32,
    /// Number of entries held.
    pub entry_count: u32,
    /// The entries, oldest first.
    pub entries: Vec<CatalogEntry>,
}

impl CatalogPage {
    /// The count matches the entries, and stays within the page's capacity.
    pub open spec fn wf(&self) -> bool {
        self.entries@.len() == self.entry_count as int && self.entry_count as int
            <= ENTRIES_PER_PAGE as int
    }

    /// An empty page at position `page_index`.
    pub fn new(page_index: u32) -> (r: CatalogPage)
        ensures
            r.page_index == page_index,
            r.entry_count == 0,
            r.entries@ == Seq::<CatalogEntry>::empty(),
            r.wf(),
    {
        CatalogPage { page_index, entry_count: 0, entries: Vec::new() }
    }
}

/// What is known of one cartridge, keyed by its content hash.
#[derive(Clone, Debug)]
pub struct CartridgeManifest {
    /// Content hash that identifies the cartridge.
    pub cartridge_id: [u8; 32],
    /// Declared size of the cartridge in bytes.
    pub zip_size: u64,
    /// Size of every chunk but possibly the last.
    pub chunk_size: u32,
    /// Number of chunks, fixed at creation.
    pub num_chunks: u32,
    /// Hash of the whole cartridge, as its publisher declared it.
    pub sha256: [u8; 32],
    /// Whether the cartridge is sealed; set once, never cleared.
    pub finalized: bool,
    /// Slot at which the manifest was created.
    pub created_slot: u64,
    /// The identity that created the manifest, the only one that may write
    /// its chunks and finalize it.
    pub publisher: Pubkey,
    /// Length of the metadata.
    pub metadata_len: u16,
    /// Opaque metadata.
    pub metadata: Vec<u8>,
}

impl CartridgeManifest {
    /// The sizes are in bounds and the chunk count follows from them.
    pub open spec fn wf(&self) -> bool {
        &&& valid_sizes(self.zip_size as int, self.chunk_size as int)
        &&& self.num_chunks as int == spec_num_chunks(self.zip_size as int, self.chunk_size as int)
        &&& self.metadata@.len() <= MAX_METADATA_LEN
        &&& self.metadata_len as int == self.metadata@.len()
    }

    /// Whether the manifest holds together, as every manifest that
    /// `create_manifest` writes does.
    pub fn is_well_formed(&self) -> (r: bool)
        ensures
            r == self.wf(),
    {
        if !(0 < self.zip_size && self.zip_size <= crate::config::MAX_CARTRIDGE_SIZE && 0
            < self.chunk_size && self.chunk_size <= DEFAULT_CHUNK_SIZE) {
            return false;
        }
        self.num_chunks == num_chunks(self.zip_size, self.chunk_size) && self.metadata.len()
            <= MAX_METADATA_LEN && self.metadata_len as usize == self.metadata.len()
    }
}

/// One chunk of a cartridge, keyed by the cartridge and the chunk's index.
#[derive(Clone, Debug)]
pub struct CartridgeChunk {
    /// The cartridge that the chunk belongs to.
    pub cartridge_id: [u8; 32],
    /// Position of the chunk in the cartridge (from 0).
    pub chunk_index: u32,
    /// Length of the data.
    pub data_len: u32,
    /// Whether the chunk was written; set once, never cleared.
    pub written: bool,
    /// The chunk's bytes.
    pub data: Vec<u8>,
}

impl CartridgeChunk {
    /// Bytes to allocate for a chunk account: its fixed fields, a full
    /// chunk's data and room to spare, whatever the data's size.
    pub fn space(_data_size: u32) -> (r: usize)
        ensures
            r == 8 + 32 + 4 + 4 + 1 + 1 + 6 + DEFAULT_CHUNK_SIZE + 32,
    {
        8 + 32 + 4 + 4 + 1 + 1 + 6 + DEFAULT_CHUNK_SIZE as usize + 32
    }
}

} // verus!
