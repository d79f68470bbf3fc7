//! The guest-physical memory layout: RAM below the MMIO gap, and what does not fit
//! there above 4 GiB.

use vstd::prelude::*;
use crate::error::GuestMemoryError;
use crate::mmio::MMIO_MEM_START;

verus! {

/// First guest-physical address above 4 GiB.
pub const FIRST_ADDR_PAST_32BITS: u64 = 0x1_0000_0000;

/// A contiguous guest RAM region.
#[derive(Clone, Copy, Debug, PartialEq, Eq, Structural)]
pub struct MemoryRegion {
    /// Guest-physical base.
    pub gpa: u64,
    /// Size in bytes.
    pub size: u64,
    /// Offset of the region in the backing file, when the memory is file-backed.
    pub file_offset: u64,
}

/// The regions of `size` bytes of RAM: one region from 0 when it fits below the MMIO
/// gap, else the gap's lower part and the rest from 4 GiB on.
pub open spec fn arch_regions(size: u64) -> Seq<(u64, u64)> {
    if size <= MMIO_MEM_START {
        seq![(0u64, size)]
    } else {
        seq![(0u64, MMIO_MEM_START), (FIRST_ADDR_PAST_32BITS, (size - MMIO_MEM_START) as u64)]
    }
}

/// Lays out `size` bytes of guest RAM.
pub fn arch_memory_regions(size: u64) -> (r: Vec<(u64, u64)>)
    requires
        size <= u64::MAX - FIRST_ADDR_PAST_32BITS,
    ensures
        r@ == arch_regions(size),
{
    if size <= MMIO_MEM_START {
        vec![(0u64, size)]
    } else {
        let rest = size - MMIO_MEM_START;
        vec![(0u64, MMIO_MEM_START), (FIRST_ADDR_PAST_32BITS, rest)]
    }
}

/// The largest memory size, in MiB, whose layout fits in the address space.
pub const MAX_MEM_SIZE_MIB: u64 = 0xfff_ffff_efff;

/// The byte size of `mem_size_mib` MiB.
pub open spec fn mib_bytes(mem_size_mib: nat) -> nat {
    mem_size_mib * 0x10_0000
}

/// The RAM regions of a guest of `mem_size_mib` MiB, each with its offset in a backing
/// file whose memory part starts at `memory_offset` and holds the regions back to back.
pub open spec fn guest_regions(mem_size_mib: nat, memory_offset: u64) -> Seq<MemoryRegion> {
    let size = mib_bytes(mem_size_mib) as u64;
    let a = arch_regions(size);
    if a.len() == 1 {
        seq![MemoryRegion { gpa: a[0].0, size: a[0].1, file_offset: memory_offset }]
    } else {
        seq![
            MemoryRegion { gpa: a[0].0, size: a[0].1, file_offset: memory_offset },
            MemoryRegion { gpa: a[1].0, size: a[1].1, file_offset: (memory_offset + a[0].1) as u64 },
        ]
    }
}

/// Lays out the RAM of a guest of `mem_size_mib` MiB. A size of zero, one too large for
/// the address space, or one that would push the backing file past `u64::MAX`, is
/// refused.
pub fn guest_memory_layout(mem_size_mib: usize, memory_offset: u64) -> (r: Result<Vec<MemoryRegion>, GuestMemoryError>)
    ensures
        mem_size_mib == 0 ==> r == Err::<Vec<MemoryRegion>, GuestMemoryError>(GuestMemoryError::NoMemoryRegions),
        r is Ok <==> mem_size_mib > 0 && mem_size_mib <= MAX_MEM_SIZE_MIB
            && memory_offset + mib_bytes(mem_size_mib as nat) <= u64::MAX,
        r is Ok ==> r->Ok_0@ == guest_regions(mem_size_mib as nat, memory_offset),
        mem_size_mib > 0 && r is Err ==> r == Err::<Vec<MemoryRegion>, GuestMemoryError>(GuestMemoryError::MemoryRegionOverlap),
{
    if mem_size_mib == 0 {
        return Err(GuestMemoryError::NoMemoryRegions);
    }
    if mem_size_mib as u64 > MAX_MEM_SIZE_MIB {
        return Err(GuestMemoryError::MemoryRegionOverlap);
    }
    let size: u64 = (mem_size_mib as u64) * 0x10_0000;
    if memory_offset > u64::MAX - size {
        return Err(GuestMemoryError::MemoryRegionOverlap);
    }
    let regions = arch_memory_regions(size);
    let mut out: Vec<MemoryRegion> = Vec::new();
    out.push(MemoryRegion { gpa: regions[0].0, size: regions[0].1, file_offset: memory_offset });
    if regions.len() == 2 {
        out.push(MemoryRegion { gpa: regions[1].0, size: regions[1].1, file_offset: memory_offset + regions[0].1 });
    }
    assert(out@ =~= guest_regions(mem_size_mib as nat, memory_offset));
    Ok(out)
}

/// The number of set bits of `n`.
pub open spec fn popcount(n: nat) -> nat
    decreases n,
{
    if n == 0 {
        0
    } else {
        n % 2 + popcount(n / 2)
    }
}

/// The number of set bits of the words of `ws`.
pub open spec fn words_popcount(ws: Seq<u64>) -> nat
    decreases ws.len(),
{
    if ws.len() == 0 {
        0
    } else {
        words_popcount(ws.drop_last()) + popcount(ws.last() as nat)
    }
}

/// The number of set bits of all the bitmaps of `bs`.
pub open spec fn bitmaps_popcount(bs: Seq<Seq<u64>>) -> nat
    decreases bs.len(),
{
    if bs.len() == 0 {
        0
    } else {
        bitmaps_popcount(bs.drop_last()) + words_popcount(bs.last())
    }
}

proof fn lemma_popcount_le(n: nat)
    ensures
        popcount(n) <= n,
    decreases n,
{
    if n > 0 {
        lemma_popcount_le(n / 2);
    }
}

/// The number of set bits of a word.
pub fn count_ones(w: u64) -> (r: u64)
    ensures
        r == popcount(w as nat),
{
    let mut v = w;
    let mut count: u64 = 0;
    proof {
        lemma_popcount_le(w as nat);
    }
    while v > 0
        invariant
            count + popcount(v as nat) == popcount(w as nat),
            popcount(w as nat) <= w,
        decreases v,
    {
        count = count + v % 2;
        v = v / 2;
    }
    count
}

/// The number of dirty pages in the dirty bitmaps of the memory regions (one bit per
/// page), saturated at `u64::MAX`.
pub fn dirty_page_count(bitmaps: &Vec<Vec<u64>>) -> (r: u64)
    ensures
        r == if bitmaps_popcount(bitmaps@.map_values(|b: Vec<u64>| b@)) <= u64::MAX {
            bitmaps_popcount(bitmaps@.map_values(|b: Vec<u64>| b@))
        } else {
            u64::MAX as nat
        },
{
    let ghost bs = bitmaps@.map_values(|b: Vec<u64>| b@);
    let mut total: u64 = 0;
    let n = bitmaps.len();
    let mut i: usize = 0;
    assert(bs.subrange(0, 0) =~= Seq::<Seq<u64>>::empty());
    while i < n
        invariant
            n == bitmaps@.len(),
            bs == bitmaps@.map_values(|b: Vec<u64>| b@),
            i <= n,
            total == if bitmaps_popcount(bs.subrange(0, i as int)) <= u64::MAX {
                bitmaps_popcount(bs.subrange(0, i as int))
            } else {
                u64::MAX as nat
            },
        decreases n - i,
    {
        let words = &bitmaps[i];
        let m = words.len();
        let mut j: usize = 0;
        let ghost before = bitmaps_popcount(bs.subrange(0, i as int));
        assert(words@.subrange(0, 0) =~= Seq::<u64>::empty());
        while j < m
            invariant
                m == words@.len(),
                j <= m,
                total == if before + words_popcount(words@.subrange(0, j as int)) <= u64::MAX {
                    before + words_popcount(words@.subrange(0, j as int))
                } else {
                    u64::MAX as nat
                },
            decreases m - j,
        {
            let c = count_ones(words[j]);
            assert(words@.subrange(0, j + 1).drop_last() =~= words@.subrange(0, j as int));
            total = if total > u64::MAX - c { u64::MAX } else { total + c };
            j = j + 1;
        }
        assert(words@.subrange(0, m as int) =~= words@);
        assert(bs.subrange(0, i + 1).drop_last() =~= bs.subrange(0, i as int));
        assert(bs[i as int] == words@);
        i = i + 1;
    }
    assert(bs.subrange(0, n as int) =~= bs);
    total
}

} // verus!
