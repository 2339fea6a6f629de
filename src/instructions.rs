//! The six operations. Each takes the accounts that it reads and writes,
//! with the caller's identity, and either applies all of its effects or
//! rejects the call and leaves the accounts as they were.

use vstd::prelude::*;
use crate::pubkey::Pubkey;
use crate::config::{DEFAULT_CHUNK_SIZE, ENTRIES_PER_PAGE, MAX_CARTRIDGE_SIZE, MAX_METADATA_LEN};
use crate::chunking::{num_chunks, expected_chunk_size, spec_num_chunks, spec_expected_chunk_size};
use crate::accounts::{CatalogRoot, CatalogEntry, CatalogPage, CartridgeManifest, CartridgeChunk};
use crate::error::CartridgeError;

verus! {

/// Accounts of `initialize_catalog`: the root being created and its creator.
#[derive(Clone, Copy, Debug)]
pub struct InitializeCatalog {
    pub catalog_root: CatalogRoot,
    pub admin: Pubkey,
}

/// Accounts of `create_catalog_page`: the root, the page being created and
/// the caller.
#[derive(Clone, Debug)]
pub struct CreateCatalogPage {
    pub catalog_root: CatalogRoot,
    pub catalog_page: CatalogPage,
    pub admin: Pubkey,
}

/// Accounts of `create_manifest`: the manifest being created, the caller,
/// and the current slot.
#[derive(Clone, Debug)]
pub struct CreateManifest {
    pub manifest: CartridgeManifest,
    pub publisher: Pubkey,
    pub slot: u64,
}

/// Accounts of `write_chunk`: the cartridge's manifest, the chunk being
/// written and the caller.
#[derive(Clone, Debug)]
pub struct WriteChunk {
    pub manifest: CartridgeManifest,
    pub chunk: CartridgeChunk,
    pub publisher: Pubkey,
}

/// Accounts of `finalize_cartridge`: the manifest and its address, the root,
/// the page addressed by the call and the caller.
#[derive(Clone, Debug)]
pub struct FinalizeCartridge {
    pub manifest: CartridgeManifest,
    pub manifest_address: Pubkey,
    pub catalog_root: CatalogRoot,
    pub catalog_page: CatalogPage,
    pub publisher: Pubkey,
}

/// Accounts of `update_admin`: the root and the caller.
#[derive(Clone, Copy, Debug)]
pub struct UpdateAdmin {
    pub catalog_root: CatalogRoot,
    pub admin: Pubkey,
}

/// Why `create_catalog_page` rejects a call, if it does.
pub open spec fn create_catalog_page_error(ctx: CreateCatalogPage, page_index: u32) -> Option<
    CartridgeError,
> {
    if ctx.admin != ctx.catalog_root.admin {
        Some(CartridgeError::Unauthorized)
    } else if page_index != ctx.catalog_root.page_count {
        Some(CartridgeError::InvalidPageIndex)
    } else {
        None
    }
}

/// Why `create_manifest` rejects a call, if it does.
pub open spec fn create_manifest_error(zip_size: u64, chunk_size: u32, metadata_len: int) -> Option<
    CartridgeError,
> {
    if zip_size == 0 {
        Some(CartridgeError::InvalidSize)
    } else if zip_size > MAX_CARTRIDGE_SIZE {
        Some(CartridgeError::CartridgeTooLarge)
    } else if chunk_size == 0 || chunk_size > DEFAULT_CHUNK_SIZE {
        Some(CartridgeError::InvalidChunkSize)
    } else if metadata_len > MAX_METADATA_LEN {
        Some(CartridgeError::MetadataTooLarge)
    } else {
        None
    }
}

/// Why `write_chunk` rejects a call, if it does.
pub open spec fn write_chunk_error(ctx: WriteChunk, chunk_index: u32, data_len: int) -> Option<
    CartridgeError,
> {
    let m = ctx.manifest;
    if ctx.publisher != m.publisher {
        Some(CartridgeError::Unauthorized)
    } else if m.finalized {
        Some(CartridgeError::CartridgeFinalized)
    } else if chunk_index >= m.num_chunks {
        Some(CartridgeError::InvalidChunkIndex)
    } else if ctx.chunk.written {
        Some(CartridgeError::ChunkAlreadyWritten)
    } else if data_len != spec_expected_chunk_size(
        m.zip_size as int,
        m.chunk_size as int,
        chunk_index as int,
    ) {
        Some(CartridgeError::InvalidChunkSize)
    } else {
        None
    }
}

/// Why `finalize_cartridge` rejects a call, if it does.
pub open spec fn finalize_cartridge_error(ctx: FinalizeCartridge, page_index: u32) -> Option<
    CartridgeError,
> {
    if ctx.publisher != ctx.manifest.publisher {
        Some(CartridgeError::Unauthorized)
    } else if ctx.manifest.finalized {
        Some(CartridgeError::CartridgeFinalized)
    } else if page_index != ctx.catalog_root.latest_page_index || page_index
        != ctx.catalog_page.page_index {
        Some(CartridgeError::InvalidPageIndex)
    } else if ctx.catalog_page.entry_count >= ENTRIES_PER_PAGE {
        Some(CartridgeError::PageFull)
    } else {
        None
    }
}

/// Why `update_admin` rejects a call, if it does.
pub open spec fn update_admin_error(ctx: UpdateAdmin) -> Option<CartridgeError> {
    if ctx.admin != ctx.catalog_root.admin {
        Some(CartridgeError::Unauthorized)
    } else {
        None
    }
}

/// The outcome of `create_catalog_page` on `pre`: the result and the
/// accounts after the call.
pub open spec fn create_catalog_page_step(
    pre: CreateCatalogPage,
    page_index: u32,
    r: Result<(), CartridgeError>,
    post: CreateCatalogPage,
) -> bool {
    match create_catalog_page_error(pre, page_index) {
        Some(e) => r == Err::<(), CartridgeError>(e) && post == pre,
        None => {
            &&& r is Ok
            &&& post.admin == pre.admin
            &&& post.catalog_page.page_index == page_index
            &&& post.catalog_page.entry_count == 0
            &&& post.catalog_page.entries@ == Seq::<CatalogEntry>::empty()
            &&& post.catalog_root.admin == pre.catalog_root.admin
            &&& post.catalog_root.total_cartridges == pre.catalog_root.total_cartridges
            &&& post.catalog_root.page_count == pre.catalog_root.page_count + 1
            &&& post.catalog_root.latest_page_index == page_index
        },
    }
}

/// The manifest that `create_manifest` writes.
pub open spec fn created_manifest(
    ctx: CreateManifest,
    cartridge_id: [u8; 32],
    zip_size: u64,
    chunk_size: u32,
    sha256: [u8; 32],
    metadata: Seq<u8>,
    m: CartridgeManifest,
) -> bool {
    &&& m.cartridge_id == cartridge_id
    &&& m.zip_size == zip_size
    &&& m.chunk_size == chunk_size
    &&& m.num_chunks as int == spec_num_chunks(zip_size as int, chunk_size as int)
    &&& m.sha256 == sha256
    &&& !m.finalized
    &&& m.created_slot == ctx.slot
    &&& m.publisher == ctx.publisher
    &&& m.metadata_len as int == metadata.len()
    &&& m.metadata@ == metadata
}

/// The outcome of `write_chunk` on `pre`: the result and the accounts after
/// the call.
pub open spec fn write_chunk_step(
    pre: WriteChunk,
    cartridge_id: [u8; 32],
    chunk_index: u32,
    data: Seq<u8>,
    r: Result<(), CartridgeError>,
    post: WriteChunk,
) -> bool {
    match write_chunk_error(pre, chunk_index, data.len() as int) {
        Some(e) => r == Err::<(), CartridgeError>(e) && post == pre,
        None => {
            &&& r is Ok
            &&& post.manifest == pre.manifest
            &&& post.publisher == pre.publisher
            &&& post.chunk.cartridge_id == cartridge_id
            &&& post.chunk.chunk_index == chunk_index
            &&& post.chunk.data_len as int == data.len()
            &&& post.chunk.written
            &&& post.chunk.data@ == data
        },
    }
}

/// The entry that finalizing the manifest of `ctx` appends to the catalog.
pub open spec fn catalog_entry_of(ctx: FinalizeCartridge, cartridge_id: [u8; 32]) -> CatalogEntry {
    CatalogEntry {
        cartridge_id,
        manifest_pubkey: ctx.manifest_address,
        zip_size: ctx.manifest.zip_size,
        sha256: ctx.manifest.sha256,
        created_slot: ctx.manifest.created_slot,
        flags: 0,
    }
}

/// The outcome of `finalize_cartridge` on `pre`: the result and the
/// accounts after the call.
pub open spec fn finalize_cartridge_step(
    pre: FinalizeCartridge,
    cartridge_id: [u8; 32],
    page_index: u32,
    r: Result<(), CartridgeError>,
    post: FinalizeCartridge,
) -> bool {
    match finalize_cartridge_error(pre, page_index) {
        Some(e) => r == Err::<(), CartridgeError>(e) && post == pre,
        None => {
            &&& r is Ok
            &&& post.manifest == (CartridgeManifest { finalized: true, ..pre.manifest })
            &&& post.manifest_address == pre.manifest_address
            &&& post.publisher == pre.publisher
            &&& post.catalog_page.page_index == pre.catalog_page.page_index
            &&& post.catalog_page.entry_count == pre.catalog_page.entry_count + 1
            &&& post.catalog_page.entries@ == pre.catalog_page.entries@.push(
                catalog_entry_of(pre, cartridge_id),
            )
            &&& post.catalog_root == (CatalogRoot {
                total_cartridges: (pre.catalog_root.total_cartridges + 1) as u64,
                ..pre.catalog_root
            })
        },
    }
}

/// Creates the catalog's root, administered by its creator, with every
/// counter at zero.
pub fn initialize_catalog(ctx: &mut InitializeCatalog) -> (r: Result<(), CartridgeError>)
    ensures
        r is Ok,
        final(ctx).admin == old(ctx).admin,
        final(ctx).catalog_root == (CatalogRoot {
            admin: old(ctx).admin,
            total_cartridges: 0,
            page_count: 0,
            latest_page_index: 0,
        }),
        final(ctx).catalog_root.wf(),
{
    ctx.catalog_root = CatalogRoot {
        admin: ctx.admin,
        total_cartridges: 0,
        page_count: 0,
        latest_page_index: 0,
    };
    Ok(())
}

/// Opens page `page_index`, which must be the next one, and makes it the
/// active page. Only the administrator may call it.
pub fn create_catalog_page(ctx: &mut CreateCatalogPage, page_index: u32) -> (r: Result<
    (),
    CartridgeError,
>)
    requires
        old(ctx).catalog_root.page_count < u32::MAX,
    ensures
        create_catalog_page_step(*old(ctx), page_index, r, *final(ctx)),
        old(ctx).admin != old(ctx).catalog_root.admin ==> r == Err::<(), CartridgeError>(
            CartridgeError::Unauthorized,
        ),
        page_index != old(ctx).catalog_root.page_count ==> r is Err,
        old(ctx).catalog_root.wf() ==> final(ctx).catalog_root.wf(),
        r is Ok ==> final(ctx).catalog_page.wf(),
{
    if !ctx.admin.same_as(&ctx.catalog_root.admin) {
        return Err(CartridgeError::Unauthorized);
    }
    if page_index != ctx.catalog_root.page_count {
        return Err(CartridgeError::InvalidPageIndex);
    }
    ctx.catalog_page = CatalogPage::new(page_index);
    ctx.catalog_root.page_count = ctx.catalog_root.page_count + 1;
    ctx.catalog_root.latest_page_index = page_index;
    Ok(())
}

/// Reserves a cartridge id: writes its manifest, unsealed, published by the
/// caller, with the chunk count derived from the sizes.
pub fn create_manifest(
    ctx: &mut CreateManifest,
    cartridge_id: [u8; 32],
    zip_size: u64,
    chunk_size: u32,
    sha256: [u8; 32],
    metadata: Vec<u8>,
) -> (r: Result<(), CartridgeError>)
    ensures
        match create_manifest_error(zip_size, chunk_size, metadata@.len() as int) {
            Some(e) => r == Err::<(), CartridgeError>(e) && *final(ctx) == *old(ctx),
            None => {
                &&& r is Ok
                &&& final(ctx).publisher == old(ctx).publisher
                &&& final(ctx).slot == old(ctx).slot
                &&& created_manifest(
                    *old(ctx),
                    cartridge_id,
                    zip_size,
                    chunk_size,
                    sha256,
                    metadata@,
                    final(ctx).manifest,
                )
                &&& final(ctx).manifest.wf()
            },
        },
{
    if zip_size == 0 {
        return Err(CartridgeError::InvalidSize);
    }
    if zip_size > MAX_CARTRIDGE_SIZE {
        return Err(CartridgeError::CartridgeTooLarge);
    }
    if chunk_size == 0 || chunk_size > DEFAULT_CHUNK_SIZE {
        return Err(CartridgeError::InvalidChunkSize);
    }
    if metadata.len() > MAX_METADATA_LEN {
        return Err(CartridgeError::MetadataTooLarge);
    }
    let n = num_chunks(zip_size, chunk_size);
    let metadata_len = metadata.len() as u16;
    ctx.manifest = CartridgeManifest {
        cartridge_id,
        zip_size,
        chunk_size,
        num_chunks: n,
        sha256,
        finalized: false,
        created_slot: ctx.slot,
        publisher: ctx.publisher,
        metadata_len,
        metadata,
    };
    Ok(())
}

/// Writes chunk `chunk_index` of an unsealed cartridge, once: the data must
/// have exactly the expected length of that chunk. Only the manifest's
/// publisher may call it.
pub fn write_chunk(
    ctx: &mut WriteChunk,
    cartridge_id: [u8; 32],
    chunk_index: u32,
    data: Vec<u8>,
) -> (r: Result<(), CartridgeError>)
    requires
        old(ctx).manifest.wf(),
    ensures
        write_chunk_step(*old(ctx), cartridge_id, chunk_index, data@, r, *final(ctx)),
        old(ctx).publisher != old(ctx).manifest.publisher ==> r == Err::<(), CartridgeError>(
            CartridgeError::Unauthorized,
        ),
        old(ctx).manifest.finalized ==> r is Err,
        old(ctx).chunk.written ==> r is Err,
{
    if !ctx.publisher.same_as(&ctx.manifest.publisher) {
        return Err(CartridgeError::Unauthorized);
    }
    if ctx.manifest.finalized {
        return Err(CartridgeError::CartridgeFinalized);
    }
    if chunk_index >= ctx.manifest.num_chunks {
        return Err(CartridgeError::InvalidChunkIndex);
    }
    if ctx.chunk.written {
        return Err(CartridgeError::ChunkAlreadyWritten);
    }
    let expected = expected_chunk_size(ctx.manifest.zip_size, ctx.manifest.chunk_size, chunk_index);
    if data.len() != expected as usize {
        return Err(CartridgeError::InvalidChunkSize);
    }
    let data_len = data.len() as u32;
    ctx.chunk = CartridgeChunk { cartridge_id, chunk_index, data_len, written: true, data };
    Ok(())
}

/// Seals a cartridge and appends its entry to the active catalog page,
/// which `page_index` must name and which must have room. Only the
/// manifest's publisher may call it. Whether every chunk was written, and
/// whether the chunks hash to the declared hash, is not checked: finalizing
/// is the publisher's assertion that the upload is complete.
pub fn finalize_cartridge(ctx: &mut FinalizeCartridge, cartridge_id: [u8; 32], page_index: u32) -> (r:
    Result<(), CartridgeError>)
    requires
        old(ctx).catalog_root.total_cartridges < u64::MAX,
    ensures
        finalize_cartridge_step(*old(ctx), cartridge_id, page_index, r, *final(ctx)),
        old(ctx).publisher != old(ctx).manifest.publisher ==> r == Err::<(), CartridgeError>(
            CartridgeError::Unauthorized,
        ),
        old(ctx).manifest.finalized ==> r is Err,
        page_index != old(ctx).catalog_root.latest_page_index ==> r is Err,
        r is Ok ==> final(ctx).catalog_root.total_cartridges == old(ctx).catalog_root.total_cartridges
            + 1,
        r is Ok ==> final(ctx).catalog_page.entry_count == old(ctx).catalog_page.entry_count + 1,
        r is Err ==> *final(ctx) == *old(ctx),
        old(ctx).catalog_root.wf() ==> final(ctx).catalog_root.wf(),
        old(ctx).catalog_page.wf() ==> final(ctx).catalog_page.wf(),
{
    if !ctx.publisher.same_as(&ctx.manifest.publisher) {
        return Err(CartridgeError::Unauthorized);
    }
    if ctx.manifest.finalized {
        return Err(CartridgeError::CartridgeFinalized);
    }
    if page_index != ctx.catalog_root.latest_page_index || page_index
        != ctx.catalog_page.page_index {
        return Err(CartridgeError::InvalidPageIndex);
    }
    if ctx.catalog_page.entry_count as usize >= ENTRIES_PER_PAGE {
        return Err(CartridgeError::PageFull);
    }
    let entry = CatalogEntry {
        cartridge_id,
        manifest_pubkey: ctx.manifest_address,
        zip_size: ctx.manifest.zip_size,
        sha256: ctx.manifest.sha256,
        created_slot: ctx.manifest.created_slot,
        flags: 0,
    };
    ctx.manifest.finalized = true;
    ctx.catalog_page.entries.push(entry);
    ctx.catalog_page.entry_count = ctx.catalog_page.entry_count + 1;
    ctx.catalog_root.total_cartridges = ctx.catalog_root.total_cartridges + 1;
    Ok(())
}

/// Hands the administrator role to `new_admin`. Only the administrator may
/// call it.
pub fn update_admin(ctx: &mut UpdateAdmin, new_admin: Pubkey) -> (r: Result<(), CartridgeError>)
    ensures
        match update_admin_error(*old(ctx)) {
            Some(e) => r == Err::<(), CartridgeError>(e) && *final(ctx) == *old(ctx),
            None => r is Ok && *final(ctx) == (UpdateAdmin {
                catalog_root: CatalogRoot { admin: new_admin, ..old(ctx).catalog_root },
                ..*old(ctx)
            }),
        },
{
    if !ctx.admin.same_as(&ctx.catalog_root.admin) {
        return Err(CartridgeError::Unauthorized);
    }
    ctx.catalog_root.admin = new_admin;
    Ok(())
}

} // verus!
