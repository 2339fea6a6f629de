//! Where each account lives: an address derived from a namespace tag and the
//! account's key fields, so that anyone can compute it without a directory.

use vstd::prelude::*;
use crate::pubkey::Pubkey;
use anchor_lang::solana_program::pubkey::Pubkey as LedgerKey;

verus! {

/// The namespace tag of catalog root accounts: the bytes of `catalog_root`.
pub open spec fn spec_catalog_root_seed() -> Seq<u8> {
    seq![99u8, 97u8, 116u8, 97u8, 108u8, 111u8, 103u8, 95u8, 114u8, 111u8, 111u8, 116u8]
}

/// The namespace tag of catalog root accounts.
pub fn catalog_root_seed() -> (r: Vec<u8>)
    ensures
        r@ == spec_catalog_root_seed(),
{
    let r: Vec<u8> = vec![99u8, 97u8, 116u8, 97u8, 108u8, 111u8, 103u8, 95u8, 114u8, 111u8, 111u8, 116u8];
    assert(r@ =~= spec_catalog_root_seed());
    r
}

/// The namespace tag of catalog page accounts: the bytes of `catalog_page`.
pub open spec fn spec_catalog_page_seed() -> Seq<u8> {
    seq![99u8, 97u8, 116u8, 97u8, 108u8, 111u8, 103u8, 95u8, 112u8, 97u8, 103u8, 101u8]
}

/// The namespace tag of catalog page accounts.
pub fn catalog_page_seed() -> (r: Vec<u8>)
    ensures
        r@ == spec_catalog_page_seed(),
{
    let r: Vec<u8> = vec![99u8, 97u8, 116u8, 97u8, 108u8, 111u8, 103u8, 95u8, 112u8, 97u8, 103u8, 101u8];
    assert(r@ =~= spec_catalog_page_seed());
    r
}

/// The namespace tag of manifest accounts: the bytes of `manifest`.
pub open spec fn spec_manifest_seed() -> Seq<u8> {
    seq![109u8, 97u8, 110u8, 105u8, 102u8, 101u8, 115u8, 116u8]
}

/// The namespace tag of manifest accounts.
pub fn manifest_seed() -> (r: Vec<u8>)
    ensures
        r@ == spec_manifest_seed(),
{
    let r: Vec<u8> = vec![109u8, 97u8, 110u8, 105u8, 102u8, 101u8, 115u8, 116u8];
    assert(r@ =~= spec_manifest_seed());
    r
}

/// The namespace tag of chunk accounts: the bytes of `chunk`.
pub open spec fn spec_chunk_seed() -> Seq<u8> {
    seq![99u8, 104u8, 117u8, 110u8, 107u8]
}

/// The namespace tag of chunk accounts.
pub fn chunk_seed() -> (r: Vec<u8>)
    ensures
        r@ == spec_chunk_seed(),
{
    let r: Vec<u8> = vec![99u8, 104u8, 117u8, 110u8, 107u8];
    assert(r@ =~= spec_chunk_seed());
    r
}

/// The four bytes of `x`, least significant first.
pub open spec fn spec_le_bytes(x: u32) -> Seq<u8> {
    seq![
        (x % 256) as u8,
        ((x / 256) % 256) as u8,
        ((x / 65536) % 256) as u8,
        ((x / 16777216) % 256) as u8,
    ]
}

/// The four bytes of `x`, least significant first.
pub fn le_bytes(x: u32) -> (r: Vec<u8>)
    ensures
        r@ == spec_le_bytes(x),
{
    let r: Vec<u8> = vec![
        (x % 256) as u8,
        ((x / 256) % 256) as u8,
        ((x / 65536) % 256) as u8,
        ((x / 16777216) % 256) as u8,
    ];
    assert(r@ =~= spec_le_bytes(x));
    r
}

/// The seeds of the catalog root: its tag alone.
pub open spec fn catalog_root_seeds() -> Seq<Seq<u8>> {
    seq![spec_catalog_root_seed()]
}

/// The seeds of catalog page `page_index`: the tag, then the index.
pub open spec fn catalog_page_seeds(page_index: u32) -> Seq<Seq<u8>> {
    seq![spec_catalog_page_seed(), spec_le_bytes(page_index)]
}

/// The seeds of the manifest of `cartridge_id`: the tag, then the id.
pub open spec fn manifest_seeds(cartridge_id: [u8; 32]) -> Seq<Seq<u8>> {
    seq![spec_manifest_seed(), cartridge_id@]
}

/// The seeds of chunk `chunk_index` of `cartridge_id`: the tag, the id, then
/// the index.
pub open spec fn chunk_seeds(cartridge_id: [u8; 32], chunk_index: u32) -> Seq<Seq<u8>> {
    seq![spec_chunk_seed(), cartridge_id@, spec_le_bytes(chunk_index)]
}

/// The address that the ledger derives for `seeds` under `program_id`, with
/// its bump seed; none where no bump gives an address off the curve or the
/// seeds are too many or too long.
pub uninterp spec fn program_address(seeds: Seq<Seq<u8>>, program_id: Seq<u8>) -> Option<(Seq<u8>, u8)>;

/// Relies on `Pubkey::try_find_program_address` of anchor-lang's
/// solana-program: a hash of the seeds, a bump and the program id, tried
/// from bump 255 down until the result lies off the curve. It depends on its
/// arguments alone.
#[verifier::external_body]
fn find_address(seeds: &Vec<Vec<u8>>, program_id: &Pubkey) -> (r: Option<(Pubkey, u8)>)
    ensures
        address_matches(r, program_address(seeds.deep_view(), program_id.bytes@)),
{
    let refs: Vec<&[u8]> = seeds.iter().map(|s| s.as_slice()).collect();
    let program = LedgerKey::new_from_array(program_id.bytes);
    LedgerKey::try_find_program_address(&refs, &program).map(
        |(k, b)| (Pubkey { bytes: k.to_bytes() }, b),
    )
}

/// `r` is the address and bump `derived`, or none where `derived` is none.
pub open spec fn address_matches(r: Option<(Pubkey, u8)>, derived: Option<(Seq<u8>, u8)>) -> bool {
    match r {
        Some((k, b)) => derived == Some((k.bytes@, b)),
        None => derived is None,
    }
}

/// Address and bump of the catalog root.
pub fn catalog_root_address(program_id: &Pubkey) -> (r: Option<(Pubkey, u8)>)
    ensures
        address_matches(r, program_address(catalog_root_seeds(), program_id.bytes@)),
{
    let mut seeds: Vec<Vec<u8>> = Vec::new();
    seeds.push(catalog_root_seed());
    proof {
        lemma_seeds_deep_view(&seeds);
    }
    assert(seeds.deep_view() =~= catalog_root_seeds());
    find_address(&seeds, program_id)
}

/// Address and bump of catalog page `page_index`.
pub fn catalog_page_address(program_id: &Pubkey, page_index: u32) -> (r: Option<(Pubkey, u8)>)
    ensures
        address_matches(r, program_address(catalog_page_seeds(page_index), program_id.bytes@)),
{
    let mut seeds: Vec<Vec<u8>> = Vec::new();
    seeds.push(catalog_page_seed());
    seeds.push(le_bytes(page_index));
    proof {
        lemma_seeds_deep_view(&seeds);
    }
    assert(seeds.deep_view() =~= catalog_page_seeds(page_index));
    find_address(&seeds, program_id)
}

/// Address and bump of the manifest of `cartridge_id`.
pub fn manifest_address(program_id: &Pubkey, cartridge_id: [u8; 32]) -> (r: Option<(Pubkey, u8)>)
    ensures
        address_matches(r, program_address(manifest_seeds(cartridge_id), program_id.bytes@)),
{
    let mut seeds: Vec<Vec<u8>> = Vec::new();
    seeds.push(manifest_seed());
    seeds.push(array_to_vec(&cartridge_id));
    proof {
        lemma_seeds_deep_view(&seeds);
    }
    assert(seeds.deep_view() =~= manifest_seeds(cartridge_id));
    find_address(&seeds, program_id)
}

/// Address and bump of chunk `chunk_index` of `cartridge_id`.
pub fn chunk_address(program_id: &Pubkey, cartridge_id: [u8; 32], chunk_index: u32) -> (r: Option<
    (Pubkey, u8),
>)
    ensures
        address_matches(
            r,
            program_address(chunk_seeds(cartridge_id, chunk_index), program_id.bytes@),
        ),
{
    let mut seeds: Vec<Vec<u8>> = Vec::new();
    seeds.push(chunk_seed());
    seeds.push(array_to_vec(&cartridge_id));
    seeds.push(le_bytes(chunk_index));
    proof {
        lemma_seeds_deep_view(&seeds);
    }
    assert(seeds.deep_view() =~= chunk_seeds(cartridge_id, chunk_index));
    find_address(&seeds, program_id)
}

/// The seeds in ghost form are the views of the seed vectors.
proof fn lemma_seeds_deep_view(seeds: &Vec<Vec<u8>>)
    ensures
        seeds.deep_view().len() == seeds@.len(),
        forall|i: int| 0 <= i < seeds@.len() ==> #[trigger] seeds.deep_view()[i] == seeds@[i]@,
{
    assert forall|i: int| 0 <= i < seeds@.len() implies #[trigger] seeds.deep_view()[i]
        == seeds@[i]@ by {
        assert(seeds@[i].deep_view() =~= seeds@[i]@);
    }
}

/// The 32 bytes of an id, as a vector.
fn array_to_vec(a: &[u8; 32]) -> (r: Vec<u8>)
    ensures
        r@ == a@,
{
    let mut r: Vec<u8> = Vec::new();
    let mut i: usize = 0;
    while i < 32
        invariant
            0 <= i <= 32,
            r@ == a@.subrange(0, i as int),
        decreases 32 - i,
    {
        r.push(a[i]);
        i = i + 1;
        assert(r@ =~= a@.subrange(0, i as int));
    }
    assert(a@.subrange(0, 32) =~= a@);
    r
}

} // verus!
