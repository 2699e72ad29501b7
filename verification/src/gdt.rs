//! Interrupt stack table (IST) layout of the task-state segment.

use vstd::prelude::*;

verus! {

/// The IST entry that the double-fault handler runs on.
pub const DOUBLE_FAULT_IST_INDEX: u16 = 0;

/// The IST entry that the page-fault handler runs on.
pub const PAGE_FAULT_IST_INDEX: u16 = 1;

/// The sizes in bytes of the privilege stack and the two interrupt stacks.
pub const IST_SIZES: [usize; 3] = [0x1000, 0x1000, 0x1000];

/// The sum of `sizes`.
pub open spec fn total_size(sizes: Seq<usize>) -> nat
    decreases sizes.len(),
{
    if sizes.len() == 0 {
        0
    } else {
        total_size(sizes.drop_last()) + sizes.last() as nat
    }
}

proof fn lemma_total_size_prefix(sizes: Seq<usize>, n: int)
    requires
        0 <= n <= sizes.len(),
    ensures
        total_size(sizes.take(n)) <= total_size(sizes),
    decreases sizes.len() - n,
{
    if n < sizes.len() {
        lemma_total_size_prefix(sizes, n + 1);
        assert(sizes.take(n + 1).drop_last() =~= sizes.take(n));
    } else {
        assert(sizes.take(n) =~= sizes);
    }
}

/// The total size of the stacks with the given sizes.
pub fn stack_size_total(sizes: &[usize]) -> (total: usize)
    requires
        total_size(sizes@) <= usize::MAX,
    ensures
        total == total_size(sizes@),
{
    let mut total: usize = 0;
    let mut i: usize = 0;
    while i < sizes.len()
        invariant
            i <= sizes@.len(),
            total_size(sizes@) <= usize::MAX,
            total == total_size(sizes@.take(i as int)),
        decreases sizes@.len() - i,
    {
        proof {
            assert(sizes@.take(i + 1).drop_last() =~= sizes@.take(i as int));
            lemma_total_size_prefix(sizes@, i + 1);
        }
        total = total + sizes[i];
        i = i + 1;
    }
    assert(sizes@.take(sizes@.len() as int) =~= sizes@);
    total
}

/// The total size of the kernel's interrupt stacks.
pub fn ist_total_size() -> (total: usize)
    ensures
        total == 0x3000,
{
    let sizes = IST_SIZES;
    assert(sizes@ =~= seq![0x1000usize, 0x1000, 0x1000]);
    assert(total_size(sizes@) == 0x3000) by {
        reveal_with_fuel(total_size, 4);
        assert(sizes@.drop_last() =~= seq![0x1000usize, 0x1000]);
        assert(sizes@.drop_last().drop_last() =~= seq![0x1000usize]);
        assert(sizes@.drop_last().drop_last().drop_last() =~= Seq::<usize>::empty());
    }
    stack_size_total(&sizes)
}

} // verus!
