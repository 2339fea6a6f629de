use cartridge_storage::accounts::{CartridgeChunk, CartridgeManifest, CatalogPage, CatalogRoot};
use cartridge_storage::addressing::{
    catalog_page_address, catalog_root_address, chunk_address, le_bytes, manifest_address,
    manifest_seed,
};
use cartridge_storage::chunking::{expected_chunk_size, num_chunks};
use cartridge_storage::config::{DEFAULT_CHUNK_SIZE, ENTRIES_PER_PAGE, MAX_CARTRIDGE_SIZE};
use cartridge_storage::error::CartridgeError;
use cartridge_storage::instructions::{
    create_catalog_page, create_manifest, finalize_cartridge, initialize_catalog, update_admin,
    write_chunk, CreateCatalogPage, CreateManifest, FinalizeCartridge, InitializeCatalog,
    UpdateAdmin, WriteChunk,
};
use cartridge_storage::pubkey::Pubkey;

fn key(b: u8) -> Pubkey {
    Pubkey::new_from_array([b; 32])
}

fn blank_root() -> CatalogRoot {
    CatalogRoot { admin: key(0), total_cartridges: 0, page_count: 0, latest_page_index: 0 }
}

fn blank_manifest() -> CartridgeManifest {
    CartridgeManifest {
        cartridge_id: [0; 32],
        zip_size: 0,
        chunk_size: 0,
        num_chunks: 0,
        sha256: [0; 32],
        finalized: false,
        created_slot: 0,
        publisher: key(0),
        metadata_len: 0,
        metadata: Vec::new(),
    }
}

fn blank_chunk() -> CartridgeChunk {
    CartridgeChunk { cartridge_id: [0; 32], chunk_index: 0, data_len: 0, written: false, data: Vec::new() }
}

fn manifest(publisher: Pubkey, id: u8, zip_size: u64, chunk_size: u32) -> CartridgeManifest {
    let mut ctx = CreateManifest { manifest: blank_manifest(), publisher, slot: 77 };
    create_manifest(&mut ctx, [id; 32], zip_size, chunk_size, [9; 32], vec![1, 2, 3]).unwrap();
    ctx.manifest
}

fn catalog_with_page(admin: Pubkey) -> (CatalogRoot, CatalogPage) {
    let mut init = InitializeCatalog { catalog_root: blank_root(), admin };
    initialize_catalog(&mut init).unwrap();
    let mut page = CreateCatalogPage {
        catalog_root: init.catalog_root,
        catalog_page: CatalogPage::new(0),
        admin,
    };
    create_catalog_page(&mut page, 0).unwrap();
    (page.catalog_root, page.catalog_page)
}

fn finalize_ctx(m: CartridgeManifest, root: CatalogRoot, page: CatalogPage, caller: Pubkey) -> FinalizeCartridge {
    FinalizeCartridge { manifest: m, manifest_address: key(50), catalog_root: root, catalog_page: page, publisher: caller }
}

#[test]
fn last_chunk_holds_remainder() {
    assert_eq!(num_chunks(2050, 800), 3);
    let sizes: Vec<u32> = (0..3).map(|i| expected_chunk_size(2050, 800, i)).collect();
    assert_eq!(sizes, vec![800, 800, 450]);
}

#[test]
fn exact_division_has_full_last_chunk() {
    assert_eq!(num_chunks(1600, 800), 2);
    let sizes: Vec<u32> = (0..2).map(|i| expected_chunk_size(1600, 800, i)).collect();
    assert_eq!(sizes, vec![800, 800]);
}

#[test]
fn chunk_sizes_add_up_to_cartridge() {
    for &(zip, chunk) in &[(1u64, 1u32), (1, 800), (799, 800), (801, 800), (MAX_CARTRIDGE_SIZE, DEFAULT_CHUNK_SIZE), (12345, 7)] {
        let n = num_chunks(zip, chunk);
        assert_eq!(n as u64, (zip + chunk as u64 - 1) / chunk as u64);
        let total: u64 = (0..n).map(|i| expected_chunk_size(zip, chunk, i) as u64).sum();
        assert_eq!(total, zip);
    }
    assert_eq!(num_chunks(MAX_CARTRIDGE_SIZE, DEFAULT_CHUNK_SIZE), 7865);
}

#[test]
fn create_manifest_records_declaration() {
    let m = manifest(key(1), 4, 2050, 800);
    assert_eq!(m.cartridge_id, [4; 32]);
    assert_eq!(m.zip_size, 2050);
    assert_eq!(m.chunk_size, 800);
    assert_eq!(m.num_chunks, 3);
    assert_eq!(m.sha256, [9; 32]);
    assert!(!m.finalized);
    assert_eq!(m.created_slot, 77);
    assert!(m.publisher.same_as(&key(1)));
    assert_eq!(m.metadata_len, 3);
    assert_eq!(m.metadata, vec![1, 2, 3]);
    assert!(m.is_well_formed());
}

#[test]
fn create_manifest_rejects_bad_bounds() {
    let cases: Vec<(u64, u32, usize, CartridgeError)> = vec![
        (0, 800, 0, CartridgeError::InvalidSize),
        (MAX_CARTRIDGE_SIZE + 1, 800, 0, CartridgeError::CartridgeTooLarge),
        (100, 0, 0, CartridgeError::InvalidChunkSize),
        (100, 801, 0, CartridgeError::InvalidChunkSize),
        (100, 800, 257, CartridgeError::MetadataTooLarge),
    ];
    for (zip, chunk, meta, err) in cases {
        let mut ctx = CreateManifest { manifest: blank_manifest(), publisher: key(1), slot: 5 };
        assert_eq!(create_manifest(&mut ctx, [1; 32], zip, chunk, [0; 32], vec![0; meta]), Err(err));
        assert_eq!(ctx.manifest.zip_size, 0);
    }
    let mut ctx = CreateManifest { manifest: blank_manifest(), publisher: key(1), slot: 5 };
    assert_eq!(create_manifest(&mut ctx, [1; 32], MAX_CARTRIDGE_SIZE, 800, [0; 32], vec![0; 256]), Ok(()));
}

#[test]
fn write_chunk_stores_data_once() {
    let m = manifest(key(1), 4, 2050, 800);
    let mut ctx = WriteChunk { manifest: m, chunk: blank_chunk(), publisher: key(1) };
    assert_eq!(write_chunk(&mut ctx, [4; 32], 2, vec![7; 450]), Ok(()));
    assert!(ctx.chunk.written);
    assert_eq!(ctx.chunk.chunk_index, 2);
    assert_eq!(ctx.chunk.data_len, 450);
    assert_eq!(ctx.chunk.data, vec![7; 450]);
    assert_eq!(ctx.chunk.cartridge_id, [4; 32]);
    assert_eq!(write_chunk(&mut ctx, [4; 32], 2, vec![8; 450]), Err(CartridgeError::ChunkAlreadyWritten));
    assert_eq!(ctx.chunk.data, vec![7; 450]);
}

#[test]
fn write_chunk_rejects_wrong_index_and_length() {
    let m = manifest(key(1), 4, 2050, 800);
    let mut ctx = WriteChunk { manifest: m, chunk: blank_chunk(), publisher: key(1) };
    assert_eq!(write_chunk(&mut ctx, [4; 32], 3, vec![0; 450]), Err(CartridgeError::InvalidChunkIndex));
    assert_eq!(write_chunk(&mut ctx, [4; 32], 2, vec![0; 800]), Err(CartridgeError::InvalidChunkSize));
    assert_eq!(write_chunk(&mut ctx, [4; 32], 0, vec![0; 450]), Err(CartridgeError::InvalidChunkSize));
    assert!(!ctx.chunk.written);
    assert_eq!(write_chunk(&mut ctx, [4; 32], 0, vec![0; 800]), Ok(()));
}

#[test]
fn only_publisher_writes_and_finalizes() {
    let m = manifest(key(1), 4, 1600, 800);
    let mut w = WriteChunk { manifest: m.clone(), chunk: blank_chunk(), publisher: key(2) };
    assert_eq!(write_chunk(&mut w, [4; 32], 0, vec![0; 800]), Err(CartridgeError::Unauthorized));
    assert!(!w.chunk.written);
    let (root, page) = catalog_with_page(key(9));
    let mut f = finalize_ctx(m, root, page, key(2));
    assert_eq!(finalize_cartridge(&mut f, [4; 32], 0), Err(CartridgeError::Unauthorized));
    assert!(!f.manifest.finalized);
    assert_eq!(f.catalog_page.entry_count, 0);
    assert_eq!(f.catalog_root.total_cartridges, 0);
}

#[test]
fn finalize_appends_entry_once() {
    let m = manifest(key(1), 4, 2050, 800);
    let (root, page) = catalog_with_page(key(9));
    let mut f = finalize_ctx(m, root, page, key(1));
    assert_eq!(finalize_cartridge(&mut f, [4; 32], 0), Ok(()));
    assert!(f.manifest.finalized);
    assert_eq!(f.catalog_root.total_cartridges, 1);
    assert_eq!(f.catalog_page.entry_count, 1);
    let e = f.catalog_page.entries[0];
    assert_eq!(e.cartridge_id, [4; 32]);
    assert!(e.manifest_pubkey.same_as(&key(50)));
    assert_eq!(e.zip_size, 2050);
    assert_eq!(e.sha256, [9; 32]);
    assert_eq!(e.created_slot, 77);
    assert_eq!(e.flags, 0);
    assert_eq!(finalize_cartridge(&mut f, [4; 32], 0), Err(CartridgeError::CartridgeFinalized));
    assert_eq!(f.catalog_root.total_cartridges, 1);
    assert_eq!(f.catalog_page.entry_count, 1);
}

#[test]
fn no_write_after_finalize() {
    let m = manifest(key(1), 4, 2050, 800);
    let (root, page) = catalog_with_page(key(9));
    let mut f = finalize_ctx(m, root, page, key(1));
    finalize_cartridge(&mut f, [4; 32], 0).unwrap();
    let mut w = WriteChunk { manifest: f.manifest, chunk: blank_chunk(), publisher: key(1) };
    assert_eq!(write_chunk(&mut w, [4; 32], 0, vec![0; 800]), Err(CartridgeError::CartridgeFinalized));
}

#[test]
fn full_page_then_next_page() {
    let admin = key(9);
    let (mut root, mut page) = catalog_with_page(admin);
    for id in 0..ENTRIES_PER_PAGE as u8 {
        let mut f = finalize_ctx(manifest(key(1), id, 100, 10), root, page, key(1));
        assert_eq!(finalize_cartridge(&mut f, [id; 32], 0), Ok(()));
        root = f.catalog_root;
        page = f.catalog_page;
    }
    assert_eq!(page.entry_count as usize, ENTRIES_PER_PAGE);
    let extra = manifest(key(1), 200, 100, 10);
    let mut f = finalize_ctx(extra.clone(), root, page.clone(), key(1));
    assert_eq!(finalize_cartridge(&mut f, [200; 32], 0), Err(CartridgeError::PageFull));
    assert!(!f.manifest.finalized);

    let mut c = CreateCatalogPage { catalog_root: root, catalog_page: CatalogPage::new(0), admin };
    assert_eq!(create_catalog_page(&mut c, 1), Ok(()));
    assert_eq!(c.catalog_root.page_count, 2);
    assert_eq!(c.catalog_root.latest_page_index, 1);
    let mut f = finalize_ctx(extra.clone(), c.catalog_root, page, key(1));
    assert_eq!(finalize_cartridge(&mut f, [200; 32], 0), Err(CartridgeError::InvalidPageIndex));
    let mut f = finalize_ctx(extra, c.catalog_root, c.catalog_page, key(1));
    assert_eq!(finalize_cartridge(&mut f, [200; 32], 1), Ok(()));
    assert_eq!(f.catalog_page.entry_count, 1);
    assert_eq!(f.catalog_page.entries[0].cartridge_id, [200; 32]);
    assert_eq!(f.catalog_root.total_cartridges, ENTRIES_PER_PAGE as u64 + 1);
}

#[test]
fn pages_are_created_in_order_by_admin() {
    let admin = key(9);
    let (root, _) = catalog_with_page(admin);
    for bad in [0u32, 2, 5] {
        let mut c = CreateCatalogPage { catalog_root: root, catalog_page: CatalogPage::new(0), admin };
        assert_eq!(create_catalog_page(&mut c, bad), Err(CartridgeError::InvalidPageIndex));
        assert_eq!(c.catalog_root.page_count, 1);
    }
    let mut c = CreateCatalogPage { catalog_root: root, catalog_page: CatalogPage::new(0), admin: key(3) };
    assert_eq!(create_catalog_page(&mut c, 1), Err(CartridgeError::Unauthorized));
    assert_eq!(c.catalog_root.page_count, 1);
}

#[test]
fn initialize_sets_caller_as_admin() {
    let mut init = InitializeCatalog { catalog_root: CatalogRoot { admin: key(5), total_cartridges: 3, page_count: 2, latest_page_index: 1 }, admin: key(7) };
    assert_eq!(initialize_catalog(&mut init), Ok(()));
    assert!(init.catalog_root.admin.same_as(&key(7)));
    assert_eq!(init.catalog_root.total_cartridges, 0);
    assert_eq!(init.catalog_root.page_count, 0);
    assert_eq!(init.catalog_root.latest_page_index, 0);
}

#[test]
fn admin_handover() {
    let (root, _) = catalog_with_page(key(9));
    let mut u = UpdateAdmin { catalog_root: root, admin: key(3) };
    assert_eq!(update_admin(&mut u, key(3)), Err(CartridgeError::Unauthorized));
    assert!(u.catalog_root.admin.same_as(&key(9)));
    let mut u = UpdateAdmin { catalog_root: root, admin: key(9) };
    assert_eq!(update_admin(&mut u, key(3)), Ok(()));
    assert!(u.catalog_root.admin.same_as(&key(3)));
    assert_eq!(u.catalog_root.page_count, 1);
    let mut c = CreateCatalogPage { catalog_root: u.catalog_root, catalog_page: CatalogPage::new(0), admin: key(9) };
    assert_eq!(create_catalog_page(&mut c, 1), Err(CartridgeError::Unauthorized));
}

#[test]
fn error_messages() {
    assert_eq!(CartridgeError::PageFull.message(), "Catalog page is full");
    assert_eq!(CartridgeError::HashMismatch.message(), "SHA256 hash mismatch");
}

#[test]
fn seeds_and_index_bytes() {
    assert_eq!(manifest_seed(), b"manifest".to_vec());
    assert_eq!(le_bytes(0x0403_0201), vec![1, 2, 3, 4]);
    assert_eq!(le_bytes(7), 7u32.to_le_bytes().to_vec());
}

#[test]
fn addresses_are_derived_from_seeds() {
    let program = key(42);
    let (a, _) = manifest_address(&program, [4; 32]).unwrap();
    let (b, _) = manifest_address(&program, [4; 32]).unwrap();
    let (c, _) = manifest_address(&program, [5; 32]).unwrap();
    assert!(a.same_as(&b));
    assert!(!a.same_as(&c));
    assert!(!a.same_as(&program));
    let (p0, _) = catalog_page_address(&program, 0).unwrap();
    let (p1, _) = catalog_page_address(&program, 1).unwrap();
    assert!(!p0.same_as(&p1));
    let (r, _) = catalog_root_address(&program).unwrap();
    let (k0, _) = chunk_address(&program, [4; 32], 0).unwrap();
    let (k1, _) = chunk_address(&program, [4; 32], 1).unwrap();
    assert!(!r.same_as(&p0));
    assert!(!k0.same_as(&k1));
}
