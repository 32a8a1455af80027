//! Chunk layout: how a file of a given size is split into byte ranges.
use vstd::arithmetic::div_mod::lemma_fundamental_div_mod;
use vstd::prelude::*;

verus! {

pub const KIB: u64 = 1024;

pub const MIB: u64 = 1024 * 1024;

pub const GIB: u64 = 1024 * 1024 * 1024;

/// The chunk size that the tiered policy picks for a file of `total` bytes.
pub open spec fn chunk_size_for(total: int) -> int {
    if total < 100 * MIB {
        512 * KIB
    } else if total < GIB {
        4 * MIB
    } else if total < 10 * GIB {
        16 * MIB
    } else {
        64 * MIB
    }
}

/// Number of chunks: `ceil(total / chunk_size)`.
pub open spec fn chunk_count(total: int) -> int {
    let cs = chunk_size_for(total);
    total / cs + if total % cs == 0 { 0int } else { 1int }
}

/// First byte offset of chunk `i`, clamped to the file size.
pub open spec fn chunk_begin(total: int, i: int) -> int {
    let s = i * chunk_size_for(total);
    if s < total { s } else { total }
}

/// Number of bytes of chunk `i`; zero for indices past the last chunk.
pub open spec fn chunk_len(total: int, i: int) -> int {
    chunk_begin(total, i + 1) - chunk_begin(total, i)
}

/// Inclusive last byte offset of chunk `i`.
pub open spec fn chunk_last(total: int, i: int) -> int {
    chunk_begin(total, i + 1) - 1
}

/// Bytes covered by the chunks `0 .. k`.
pub open spec fn prefix_bytes(total: int, k: nat) -> int
    decreases k,
{
    if k == 0 {
        0
    } else {
        prefix_bytes(total, (k - 1) as nat) + chunk_len(total, k - 1)
    }
}

/// The chunk count is the least `n` with `n * chunk_size >= total`.
pub proof fn lemma_chunk_count_bounds(total: int)
    requires
        total >= 0,
    ensures
        chunk_count(total) >= 0,
        chunk_count(total) * chunk_size_for(total) >= total,
        total > 0 ==> (chunk_count(total) - 1) * chunk_size_for(total) < total,
        total == 0 <==> chunk_count(total) == 0,
{
    let cs = chunk_size_for(total);
    lemma_fundamental_div_mod(total, cs);
    let q = total / cs;
    let r = total % cs;
    assert(total == cs * q + r);
    assert(0 <= r < cs);
    assert(q >= 0) by (nonlinear_arith)
        requires total == cs * q + r, 0 <= r < cs, total >= 0, cs > 0;
    if r == 0 {
        assert(chunk_count(total) * cs == total) by (nonlinear_arith)
            requires chunk_count(total) == q, total == cs * q + r, r == 0;
        assert((chunk_count(total) - 1) * cs == cs * q - cs) by (nonlinear_arith)
            requires chunk_count(total) == q;
    } else {
        assert(chunk_count(total) * cs == cs * q + cs) by (nonlinear_arith)
            requires chunk_count(total) == q + 1;
        assert((chunk_count(total) - 1) * cs == cs * q) by (nonlinear_arith)
            requires chunk_count(total) == q + 1;
    }
    if total == 0 {
        assert(q == 0) by (nonlinear_arith)
            requires 0 == cs * q + r, 0 <= r < cs, cs > 0;
    }
    if chunk_count(total) == 0 {
        let n = chunk_count(total);
        assert(n * cs == 0) by (nonlinear_arith)
            requires n == 0;
    }
}

/// Begin offsets never decrease with the index.
pub proof fn lemma_begin_monotone(total: int, i: int, j: int)
    requires
        0 <= i <= j,
        total >= 0,
    ensures
        0 <= chunk_begin(total, i) <= chunk_begin(total, j) <= total,
{
    let cs = chunk_size_for(total);
    assert(0 <= i * cs <= j * cs) by (nonlinear_arith)
        requires 0 <= i <= j, cs > 0;
}

/// The prefix of `k` chunks covers exactly the first `chunk_begin(total, k)` bytes.
pub proof fn lemma_prefix_bytes(total: int, k: nat)
    requires
        total >= 0,
    ensures
        prefix_bytes(total, k) == chunk_begin(total, k as int),
    decreases k,
{
    if k == 0 {
        assert(chunk_begin(total, 0) == 0);
    } else {
        lemma_prefix_bytes(total, (k - 1) as nat);
    }
}

/// The whole layout covers the file exactly.
pub proof fn lemma_layout_covers_file(total: int)
    requires
        total >= 0,
    ensures
        prefix_bytes(total, chunk_count(total) as nat) == total,
{
    lemma_chunk_count_bounds(total);
    lemma_prefix_bytes(total, chunk_count(total) as nat);
}

/// Facts about one chunk inside the layout.
pub proof fn lemma_chunk_in_layout(total: int, i: int)
    requires
        total >= 0,
        0 <= i < chunk_count(total),
    ensures
        chunk_begin(total, i) == i * chunk_size_for(total),
        i * chunk_size_for(total) < total,
        1 <= chunk_len(total, i) <= chunk_size_for(total),
        chunk_last(total, i) == if total - i * chunk_size_for(total) >= chunk_size_for(total) {
            i * chunk_size_for(total) + chunk_size_for(total) - 1
        } else {
            total - 1
        },
{
    let cs = chunk_size_for(total);
    lemma_chunk_count_bounds(total);
    let n = chunk_count(total);
    assert(i * cs <= (n - 1) * cs) by (nonlinear_arith)
        requires i <= n - 1, cs > 0;
    assert((i + 1) * cs == i * cs + cs) by (nonlinear_arith);
}

pub open spec fn chunk_size_spec(total: u64) -> u64 {
    chunk_size_for(total as int) as u64
}

/// Chunk size for a file of `total_size` bytes, by tier:
/// under 100 MiB 512 KiB, under 1 GiB 4 MiB, under 10 GiB 16 MiB, else 64 MiB.
pub fn calculate_chunk_size(total_size: u64) -> (r: u64)
    ensures
        r as int == chunk_size_for(total_size as int),
        r == (if total_size < 100 * MIB {
            512 * KIB
        } else if total_size < GIB {
            4 * MIB
        } else if total_size < 10 * GIB {
            16 * MIB
        } else {
            64 * MIB
        }),
{
    if total_size < 100 * MIB {
        512 * KIB
    } else if total_size < GIB {
        4 * MIB
    } else if total_size < 10 * GIB {
        16 * MIB
    } else {
        64 * MIB
    }
}

/// Number of chunks of a file of `total_size` bytes, `ceil(total_size / chunk_size)`.
pub fn total_chunks(total_size: u64) -> (r: u64)
    ensures
        r as int == chunk_count(total_size as int),
{
    let cs = calculate_chunk_size(total_size);
    let q = total_size / cs;
    if total_size % cs == 0 {
        q
    } else {
        assert(q < total_size) by (nonlinear_arith)
            requires q == total_size / cs, cs > 1, total_size % cs != 0, total_size >= 0;
        q + 1
    }
}

/// Inclusive byte range `(start, end)` of chunk `index`, and its length.
pub fn chunk_range(total_size: u64, index: u64) -> (r: (u64, u64, u64))
    requires
        (index as int) < chunk_count(total_size as int),
    ensures
        r.0 as int == index * chunk_size_for(total_size as int),
        r.0 as int == chunk_begin(total_size as int, index as int),
        r.1 as int == chunk_last(total_size as int, index as int),
        r.2 as int == chunk_len(total_size as int, index as int),
        r.1 == (if r.0 + chunk_size_spec(total_size) - 1 < total_size {
            (r.0 + chunk_size_spec(total_size) - 1) as u64
        } else {
            (total_size - 1) as u64
        }),
        r.1 as int == r.0 + r.2 - 1,
        r.2 >= 1,
{
    let cs = calculate_chunk_size(total_size);
    proof {
        lemma_chunk_in_layout(total_size as int, index as int);
    }
    let start = index * cs;
    let end = if total_size - start >= cs {
        start + cs - 1
    } else {
        total_size - 1
    };
    (start, end, end - start + 1)
}

/// Chunk size is a monotone function of the file size: a larger file never gets
/// smaller chunks.
pub proof fn lemma_chunk_size_monotone(a: u64, b: u64)
    requires
        a <= b,
    ensures
        chunk_size_spec(a) <= chunk_size_spec(b),
        chunk_size_for(a as int) <= chunk_size_for(b as int),
{
}

/// When the file size is not a multiple of the chunk size, the last chunk is
/// strictly shorter than the others and ends on the last byte of the file.
pub proof fn lemma_last_chunk_shorter(total: u64)
    requires
        total > 0,
        total as int % chunk_size_for(total as int) != 0,
    ensures
        chunk_len(total as int, chunk_count(total as int) - 1) < chunk_size_for(total as int),
        chunk_last(total as int, chunk_count(total as int) - 1) == total - 1,
        forall|i: int|
            0 <= i < chunk_count(total as int) - 1 ==> #[trigger] chunk_len(total as int, i)
                == chunk_size_for(total as int),
{
    let t = total as int;
    let cs = chunk_size_for(t);
    let n = chunk_count(t);
    lemma_chunk_count_bounds(t);
    lemma_fundamental_div_mod(t, cs);
    assert(n == t / cs + 1);
    assert((n - 1) * cs == cs * (t / cs)) by (nonlinear_arith)
        requires n == t / cs + 1;
    assert forall|i: int| 0 <= i < n - 1 implies #[trigger] chunk_len(t, i) == cs by {
        assert((i + 1) * cs <= (n - 1) * cs) by (nonlinear_arith)
            requires i + 1 <= n - 1, cs > 0;
        assert((i + 1) * cs == i * cs + cs) by (nonlinear_arith);
    }
}

/// Every byte of the file lies in exactly one chunk: chunk `o / chunk_size`
/// holds offset `o`, and no other chunk does.
pub proof fn lemma_offset_in_one_chunk(total: u64, o: int, i: int)
    requires
        0 <= o < total,
        0 <= i < chunk_count(total as int),
    ensures
        (chunk_begin(total as int, i) <= o <= chunk_last(total as int, i)) <==> i == o
            / chunk_size_for(total as int),
{
    let t = total as int;
    let cs = chunk_size_for(t);
    lemma_chunk_in_layout(t, i);
    lemma_fundamental_div_mod(o, cs);
    let q = o / cs;
    assert((i + 1) * cs == i * cs + cs) by (nonlinear_arith);
    if i < q {
        assert(i * cs + cs <= q * cs) by (nonlinear_arith)
            requires i + 1 <= q, cs > 0;
    }
    if i > q {
        assert(q * cs + cs <= i * cs) by (nonlinear_arith)
            requires q + 1 <= i, cs > 0;
    }
    assert(cs * q == q * cs) by (nonlinear_arith);
}

} // verus!
