//! Properties that relate several calls: what one operation leaves behind
//! decides how the next one on the same accounts ends.

use vstd::prelude::*;
use crate::config::ENTRIES_PER_PAGE;
use crate::error::CartridgeError;
use crate::instructions::{
    WriteChunk,
    FinalizeCartridge,
    CreateCatalogPage,
    write_chunk_step,
    finalize_cartridge_step,
    create_catalog_page_step,
    catalog_entry_of,
};

verus! {

/// A chunk is written once: after a successful write, a second write of the
/// same chunk by the publisher is rejected with `ChunkAlreadyWritten`, and
/// any second write is rejected and changes nothing.
pub proof fn lemma_chunk_written_once(
    first: WriteChunk,
    cartridge_id: [u8; 32],
    chunk_index: u32,
    data: Seq<u8>,
    after_first: WriteChunk,
    second: WriteChunk,
    data2: Seq<u8>,
    r2: Result<(), CartridgeError>,
    after_second: WriteChunk,
)
    requires
        write_chunk_step(first, cartridge_id, chunk_index, data, Ok(()), after_first),
        second.manifest == after_first.manifest,
        second.chunk == after_first.chunk,
        write_chunk_step(second, cartridge_id, chunk_index, data2, r2, after_second),
    ensures
        r2 is Err,
        after_second == second,
        second.publisher == first.publisher ==> r2 == Err::<(), CartridgeError>(
            CartridgeError::ChunkAlreadyWritten,
        ),
{
}

/// No chunk of a finalized cartridge can be written: after a successful
/// finalize, every write against its manifest is rejected, with
/// `CartridgeFinalized` where the publisher makes it.
pub proof fn lemma_no_write_after_finalize(
    fin: FinalizeCartridge,
    cartridge_id: [u8; 32],
    page_index: u32,
    after_fin: FinalizeCartridge,
    write: WriteChunk,
    chunk_index: u32,
    data: Seq<u8>,
    r: Result<(), CartridgeError>,
    after_write: WriteChunk,
)
    requires
        finalize_cartridge_step(fin, cartridge_id, page_index, Ok(()), after_fin),
        write.manifest == after_fin.manifest,
        write_chunk_step(write, cartridge_id, chunk_index, data, r, after_write),
    ensures
        r is Err,
        after_write == write,
        write.publisher == fin.publisher ==> r == Err::<(), CartridgeError>(
            CartridgeError::CartridgeFinalized,
        ),
{
}

/// A cartridge is finalized once: after a successful finalize, a second one
/// against the same manifest is rejected, with `CartridgeFinalized` where the
/// publisher makes it, and leaves the counters and the page as they were.
pub proof fn lemma_finalize_once(
    first: FinalizeCartridge,
    cartridge_id: [u8; 32],
    page_index: u32,
    after_first: FinalizeCartridge,
    second: FinalizeCartridge,
    cartridge_id2: [u8; 32],
    page_index2: u32,
    r2: Result<(), CartridgeError>,
    after_second: FinalizeCartridge,
)
    requires
        first.catalog_root.total_cartridges < u64::MAX,
        finalize_cartridge_step(first, cartridge_id, page_index, Ok(()), after_first),
        second.manifest == after_first.manifest,
        finalize_cartridge_step(second, cartridge_id2, page_index2, r2, after_second),
    ensures
        after_first.catalog_root.total_cartridges == first.catalog_root.total_cartridges + 1,
        after_first.catalog_page.entry_count == first.catalog_page.entry_count + 1,
        r2 is Err,
        after_second == second,
        second.publisher == first.publisher ==> r2 == Err::<(), CartridgeError>(
            CartridgeError::CartridgeFinalized,
        ),
{
}

/// A full page takes no more entries: a finalize aimed at it is rejected,
/// with `PageFull` where nothing else is wrong.
pub proof fn lemma_full_page_rejects(
    fin: FinalizeCartridge,
    cartridge_id: [u8; 32],
    page_index: u32,
    r: Result<(), CartridgeError>,
    after: FinalizeCartridge,
)
    requires
        fin.catalog_page.entry_count == ENTRIES_PER_PAGE,
        finalize_cartridge_step(fin, cartridge_id, page_index, r, after),
    ensures
        r is Err,
        after == fin,
        fin.publisher == fin.manifest.publisher && !fin.manifest.finalized && page_index
            == fin.catalog_root.latest_page_index && page_index == fin.catalog_page.page_index
            ==> r == Err::<(), CartridgeError>(CartridgeError::PageFull),
{
}

/// Once the next page is created, a finalize aimed at it by the publisher of
/// an unsealed cartridge succeeds, and its entry is the new page's first.
pub proof fn lemma_next_page_accepts(
    create: CreateCatalogPage,
    page_index: u32,
    after_create: CreateCatalogPage,
    fin: FinalizeCartridge,
    cartridge_id: [u8; 32],
    r: Result<(), CartridgeError>,
    after_fin: FinalizeCartridge,
)
    requires
        create_catalog_page_step(create, page_index, Ok(()), after_create),
        fin.catalog_root == after_create.catalog_root,
        fin.catalog_page == after_create.catalog_page,
        fin.publisher == fin.manifest.publisher,
        !fin.manifest.finalized,
        finalize_cartridge_step(fin, cartridge_id, page_index, r, after_fin),
    ensures
        r is Ok,
        after_fin.catalog_page.page_index == page_index,
        after_fin.catalog_page.entries@ == seq![catalog_entry_of(fin, cartridge_id)],
        after_fin.catalog_page.entry_count == 1,
{
    assert(seq![catalog_entry_of(fin, cartridge_id)] =~= fin.catalog_page.entries@.push(
        catalog_entry_of(fin, cartridge_id),
    ));
}

} // verus!
