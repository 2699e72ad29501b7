use ysos::gdt::{ist_total_size, stack_size_total, IST_SIZES};
use ysos::memory::{pages_for_file, summarize_memory, MemoryRegion, CONVENTIONAL_MEMORY};

#[test]
fn memory_summary_counts_conventional_pages() {
    let map = [
        MemoryRegion { ty: CONVENTIONAL_MEMORY, page_count: 10 },
        MemoryRegion { ty: 2, page_count: 5 },
        MemoryRegion { ty: CONVENTIONAL_MEMORY, page_count: 7 },
        MemoryRegion { ty: 11, page_count: 1 },
    ];
    let s = summarize_memory(&map);
    assert_eq!(s.total_pages, 23);
    assert_eq!(s.usable_pages, 17);
    let s = summarize_memory(&[]);
    assert_eq!((s.total_pages, s.usable_pages), (0, 0));
}

#[test]
fn file_pages() {
    assert_eq!(pages_for_file(0), 1);
    assert_eq!(pages_for_file(4095), 1);
    assert_eq!(pages_for_file(4096), 2);
    assert_eq!(pages_for_file(10000), 3);
}

#[test]
fn ist_sizes_total() {
    assert_eq!(ist_total_size(), 0x3000);
    assert_eq!(stack_size_total(&IST_SIZES), 0x3000);
    assert_eq!(stack_size_total(&[1, 2, 3]), 6);
}
