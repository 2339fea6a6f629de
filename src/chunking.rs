//! How a cartridge of `zip_size` bytes is split into chunks of `chunk_size`
//! bytes: every chunk is full but the last, which holds the remainder, or a
//! full chunk where the size divides exactly.

use vstd::prelude::*;
use vstd::arithmetic::div_mod::{
    lemma_fundamental_div_mod,
    lemma_div_multiples_vanish_fancy,
    lemma_mod_multiples_vanish,
    lemma_small_mod,
};
use vstd::arithmetic::mul::{lemma_mul_is_distributive_add_other_way, lemma_mul_is_commutative};
use crate::config::{MAX_CARTRIDGE_SIZE, DEFAULT_CHUNK_SIZE};

verus! {

/// A cartridge size and a chunk size that a manifest may declare.
pub open spec fn valid_sizes(zip_size: int, chunk_size: int) -> bool {
    0 < zip_size <= MAX_CARTRIDGE_SIZE && 0 < chunk_size <= DEFAULT_CHUNK_SIZE
}

/// The number of chunks: `zip_size / chunk_size`, rounded up.
pub open spec fn spec_num_chunks(zip_size: int, chunk_size: int) -> int {
    (zip_size + chunk_size - 1) / chunk_size
}

/// The length that chunk `index` must have.
pub open spec fn spec_expected_chunk_size(zip_size: int, chunk_size: int, index: int) -> int {
    if index == spec_num_chunks(zip_size, chunk_size) - 1 && zip_size % chunk_size != 0 {
        zip_size % chunk_size
    } else {
        chunk_size
    }
}

/// The total length of chunks `0..k`.
pub open spec fn sum_expected_sizes(zip_size: int, chunk_size: int, k: nat) -> int
    decreases k,
{
    if k == 0 {
        0
    } else {
        sum_expected_sizes(zip_size, chunk_size, (k - 1) as nat) + spec_expected_chunk_size(
            zip_size,
            chunk_size,
            k - 1,
        )
    }
}

/// Writes `zip_size` as `q * chunk_size + r` and the chunk count as `q` or `q + 1`.
proof fn lemma_chunk_count(zip_size: int, chunk_size: int)
    requires
        zip_size > 0,
        chunk_size > 0,
    ensures
        zip_size == (zip_size / chunk_size) * chunk_size + zip_size % chunk_size,
        0 <= zip_size % chunk_size < chunk_size,
        zip_size % chunk_size == 0 ==> spec_num_chunks(zip_size, chunk_size) == zip_size / chunk_size,
        zip_size % chunk_size != 0 ==> spec_num_chunks(zip_size, chunk_size) == zip_size / chunk_size + 1,
        spec_num_chunks(zip_size, chunk_size) >= 1,
{
    let q = zip_size / chunk_size;
    let r = zip_size % chunk_size;
    lemma_fundamental_div_mod(zip_size, chunk_size);
    lemma_mul_is_commutative(chunk_size, q);
    if r == 0 {
        lemma_div_multiples_vanish_fancy(q, chunk_size - 1, chunk_size);
        assert(zip_size + chunk_size - 1 == chunk_size * q + (chunk_size - 1));
    } else {
        lemma_div_multiples_vanish_fancy(q + 1, r - 1, chunk_size);
        lemma_mul_is_distributive_add_other_way(chunk_size, q, 1);
        assert(zip_size + chunk_size - 1 == chunk_size * (q + 1) + (r - 1));
    }
    assert(q >= 0) by (nonlinear_arith)
        requires
            zip_size > 0,
            chunk_size > 0,
            q == zip_size / chunk_size,
    ;
    if r == 0 {
        assert(q >= 1) by (nonlinear_arith)
            requires
                zip_size > 0,
                zip_size == q * chunk_size,
                q >= 0,
        ;
    }
}

/// Chunks `0..k`, all before the last, are full.
proof fn lemma_sum_full_chunks(zip_size: int, chunk_size: int, k: nat)
    requires
        zip_size > 0,
        chunk_size > 0,
        k < spec_num_chunks(zip_size, chunk_size),
    ensures
        sum_expected_sizes(zip_size, chunk_size, k) == k * chunk_size,
    decreases k,
{
    if k > 0 {
        let j = (k - 1) as nat;
        lemma_sum_full_chunks(zip_size, chunk_size, j);
        assert(spec_expected_chunk_size(zip_size, chunk_size, j as int) == chunk_size);
        assert(sum_expected_sizes(zip_size, chunk_size, k) == sum_expected_sizes(
            zip_size,
            chunk_size,
            j,
        ) + chunk_size);
        assert(j * chunk_size + chunk_size == k * chunk_size) by (nonlinear_arith)
            requires
                j + 1 == k,
        ;
    } else {
        assert(k * chunk_size == 0) by (nonlinear_arith)
            requires
                k == 0,
        ;
    }
}

/// Splitting then reassembling reproduces the cartridge's length: the
/// expected sizes of all chunks, each at least one byte and at most a full
/// chunk, add up to the declared size exactly.
pub proof fn lemma_chunk_sizes_cover_cartridge(zip_size: int, chunk_size: int)
    requires
        valid_sizes(zip_size, chunk_size),
    ensures
        spec_num_chunks(zip_size, chunk_size) >= 1,
        spec_num_chunks(zip_size, chunk_size) * chunk_size >= zip_size,
        (spec_num_chunks(zip_size, chunk_size) - 1) * chunk_size < zip_size,
        sum_expected_sizes(zip_size, chunk_size, spec_num_chunks(zip_size, chunk_size) as nat)
            == zip_size,
        forall|i: int|
            0 <= i < spec_num_chunks(zip_size, chunk_size) ==> 0 < #[trigger] spec_expected_chunk_size(
                zip_size,
                chunk_size,
                i,
            ) <= chunk_size,
{
    lemma_chunk_count(zip_size, chunk_size);
    let n = spec_num_chunks(zip_size, chunk_size);
    let q = zip_size / chunk_size;
    let r = zip_size % chunk_size;
    lemma_sum_full_chunks(zip_size, chunk_size, (n - 1) as nat);
    lemma_mul_is_distributive_add_other_way(chunk_size, n - 1, 1);
    lemma_mul_is_commutative(chunk_size, n - 1);
    lemma_mul_is_commutative(chunk_size, n);
    if r != 0 {
        assert(n - 1 == q);
    } else {
        assert(n == q);
        lemma_mul_is_distributive_add_other_way(chunk_size, q - 1, 1);
        lemma_mul_is_commutative(chunk_size, q - 1);
        lemma_mul_is_commutative(chunk_size, q);
    }
}

/// Number of chunks of a cartridge: `zip_size / chunk_size`, rounded up.
pub fn num_chunks(zip_size: u64, chunk_size: u32) -> (r: u32)
    requires
        valid_sizes(zip_size as int, chunk_size as int),
    ensures
        r as int == spec_num_chunks(zip_size as int, chunk_size as int),
        r >= 1,
{
    proof {
        lemma_chunk_count(zip_size as int, chunk_size as int);
        assert(spec_num_chunks(zip_size as int, chunk_size as int) <= zip_size) by (nonlinear_arith)
            requires
                zip_size > 0,
                chunk_size > 0,
                spec_num_chunks(zip_size as int, chunk_size as int) == (zip_size + chunk_size - 1)
                    / (chunk_size as int),
        ;
    }
    let c = chunk_size as u64;
    ((zip_size + c - 1) / c) as u32
}

/// The length that chunk `chunk_index` of a cartridge must have: the
/// remainder for the last chunk where the size does not divide exactly, a
/// full chunk otherwise.
pub fn expected_chunk_size(zip_size: u64, chunk_size: u32, chunk_index: u32) -> (r: u32)
    requires
        valid_sizes(zip_size as int, chunk_size as int),
        chunk_index < spec_num_chunks(zip_size as int, chunk_size as int),
    ensures
        r as int == spec_expected_chunk_size(zip_size as int, chunk_size as int, chunk_index as int),
{
    let n = num_chunks(zip_size, chunk_size);
    let remainder = zip_size % (chunk_size as u64);
    if chunk_index == n - 1 && remainder != 0 {
        remainder as u32
    } else {
        chunk_size
    }
}

} // verus!
