//! Physical memory accounting: the summary of the boot memory map, and the
//! number of pages a loaded file occupies.

use vstd::prelude::*;

verus! {

/// The size of a page in bytes.
pub const PAGE_SIZE: u64 = 4096;

/// The UEFI memory type of conventional memory, free for the kernel to use.
pub const CONVENTIONAL_MEMORY: u32 = 7;

/// One region of the boot memory map: its UEFI memory type and its length
/// in pages.
#[derive(Clone, Copy, Debug, PartialEq, Eq, Structural)]
pub struct MemoryRegion {
    pub ty: u32,
    pub page_count: u64,
}

/// The page counts of a memory map: all pages, and the usable ones.
#[derive(Clone, Copy, Debug, PartialEq, Eq, Structural)]
pub struct MemorySummary {
    pub total_pages: u64,
    pub usable_pages: u64,
}

/// The number of pages in all regions of `map`.
pub open spec fn total_pages(map: Seq<MemoryRegion>) -> nat
    decreases map.len(),
{
    if map.len() == 0 {
        0
    } else {
        total_pages(map.drop_last()) + map.last().page_count as nat
    }
}

/// The number of pages in the conventional-memory regions of `map`.
pub open spec fn usable_pages(map: Seq<MemoryRegion>) -> nat
    decreases map.len(),
{
    if map.len() == 0 {
        0
    } else {
        usable_pages(map.drop_last()) + if map.last().ty == CONVENTIONAL_MEMORY {
            map.last().page_count as nat
        } else {
            0
        }
    }
}

/// The usable pages of a map never outnumber all its pages.
pub proof fn lemma_usable_within_total(map: Seq<MemoryRegion>)
    ensures
        usable_pages(map) <= total_pages(map),
    decreases map.len(),
{
    if map.len() > 0 {
        lemma_usable_within_total(map.drop_last());
    }
}

/// The page counts of a prefix of a map are no greater than those of the
/// whole map.
pub proof fn lemma_prefix_pages(map: Seq<MemoryRegion>, n: int)
    requires
        0 <= n <= map.len(),
    ensures
        total_pages(map.take(n)) <= total_pages(map),
        usable_pages(map.take(n)) <= usable_pages(map),
    decreases map.len() - n,
{
    if n < map.len() {
        lemma_prefix_pages(map, n + 1);
        assert(map.take(n + 1).drop_last() =~= map.take(n));
    } else {
        assert(map.take(n) =~= map);
    }
}

/// Appending a region adds its pages to the total, and to the usable count
/// exactly when it is conventional memory (type 7).
pub proof fn lemma_pages_of_push(map: Seq<MemoryRegion>, r: MemoryRegion)
    ensures
        total_pages(map.push(r)) == total_pages(map) + r.page_count,
        usable_pages(map.push(r)) == usable_pages(map) + if r.ty == 7 {
            r.page_count as nat
        } else {
            0
        },
{
    assert(map.push(r).drop_last() =~= map);
}

/// The page counts of two maps joined are the sums of their counts: every
/// region counts once, wherever it stands.
pub proof fn lemma_pages_of_concat(a: Seq<MemoryRegion>, b: Seq<MemoryRegion>)
    ensures
        total_pages(a + b) == total_pages(a) + total_pages(b),
        usable_pages(a + b) == usable_pages(a) + usable_pages(b),
    decreases b.len(),
{
    if b.len() == 0 {
        assert(a + b =~= a);
    } else {
        lemma_pages_of_concat(a, b.drop_last());
        assert((a + b).drop_last() =~= a + b.drop_last());
    }
}

/// A single region has all its pages counted, and all of them usable
/// exactly when it is conventional memory (type 7).
pub proof fn lemma_pages_of_single(r: MemoryRegion)
    ensures
        total_pages(seq![r]) == r.page_count,
        usable_pages(seq![r]) == if r.ty == 7 {
            r.page_count as nat
        } else {
            0
        },
{
    lemma_pages_of_push(Seq::empty(), r);
    assert(Seq::<MemoryRegion>::empty().push(r) =~= seq![r]);
}

/// Counts the pages of the boot memory map: all of them, and those of
/// conventional memory.
pub fn summarize_memory(map: &[MemoryRegion]) -> (s: MemorySummary)
    requires
        total_pages(map@) <= u64::MAX,
    ensures
        s.total_pages == total_pages(map@),
        s.usable_pages == usable_pages(map@),
{
    let mut total: u64 = 0;
    let mut usable: u64 = 0;
    let mut i: usize = 0;
    while i < map.len()
        invariant
            i <= map@.len(),
            total_pages(map@) <= u64::MAX,
            total == total_pages(map@.take(i as int)),
            usable == usable_pages(map@.take(i as int)),
        decreases map@.len() - i,
    {
        let region = map[i];
        proof {
            assert(map@.take(i + 1).drop_last() =~= map@.take(i as int));
            lemma_prefix_pages(map@, i + 1);
            lemma_usable_within_total(map@.take(i + 1));
        }
        total = total + region.page_count;
        if region.ty == CONVENTIONAL_MEMORY {
            usable = usable + region.page_count;
        }
        i = i + 1;
    }
    assert(map@.take(map@.len() as int) =~= map@);
    MemorySummary { total_pages: total, usable_pages: usable }
}

/// The number of pages allocated to hold a file of `size` bytes: one more
/// than the number of whole pages it fills.
pub fn pages_for_file(size: usize) -> (pages: usize)
    ensures
        pages == size / PAGE_SIZE as usize + 1,
        pages as nat * PAGE_SIZE > size,
{
    assert(size / 4096 < usize::MAX) by (nonlinear_arith);
    let pages = size / 4096 + 1;
    assert(pages as nat * 4096 > size) by (nonlinear_arith)
        requires
            pages == size / 4096 + 1,
    ;
    pages
}

} // verus!
