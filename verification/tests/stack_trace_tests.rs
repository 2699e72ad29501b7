use ysos::stack_trace::{is_canonical, StackTrace, StackWalker, MAX_STACK_FRAMES};

#[test]
fn canonical_addresses() {
    assert!(is_canonical(0));
    assert!(is_canonical(0x0000_7fff_ffff_ffff));
    assert!(!is_canonical(0x0000_8000_0000_0000));
    assert!(!is_canonical(0xffff_7fff_ffff_ffff));
    assert!(is_canonical(0xffff_8000_0000_0000));
    assert!(is_canonical(usize::MAX));
}

#[test]
fn trace_drops_pushes_beyond_capacity() {
    let mut t = StackTrace::new();
    assert!(t.is_empty());
    for i in 0..40usize {
        t.push(i + 1);
    }
    assert_eq!(t.len(), MAX_STACK_FRAMES);
    let frames = t.iter();
    assert_eq!(frames, (1..=32usize).collect::<Vec<_>>());
}

// A fake stack: frame address -> (saved frame pointer, return address).
fn read(mem: &[(usize, usize, usize)], addr: usize) -> (usize, usize) {
    let e = mem.iter().find(|e| e.0 == addr).unwrap();
    (e.1, e.2)
}

fn walk(mem: &[(usize, usize, usize)], max: usize, rbp: usize) -> Vec<usize> {
    let mut w = StackWalker::new(max, rbp);
    while let Some(frame) = w.next_frame() {
        let (next, ret) = read(mem, frame);
        w.advance(next, ret);
    }
    w.finish().iter()
}

#[test]
fn walker_follows_increasing_frames() {
    let mem = [(0x1000, 0x2000, 0xaaa), (0x2000, 0x3000, 0xbbb), (0x3000, 0x10, 0xccc)];
    // the last saved pointer is below its frame: recorded, then the walk ends
    assert_eq!(walk(&mem, 32, 0x1000), vec![0xaaa, 0xbbb, 0xccc]);
}

#[test]
fn walker_stops_at_null_return_address() {
    let mem = [(0x1000, 0x2000, 0xaaa), (0x2000, 0x3000, 0)];
    assert_eq!(walk(&mem, 32, 0x1000), vec![0xaaa]);
}

#[test]
fn walker_stops_at_non_canonical_frame_or_return() {
    let mem = [(0x1000, 0x0000_8000_0000_0000, 0xaaa)];
    assert_eq!(walk(&mem, 32, 0x1000), vec![0xaaa]);
    let mem = [(0x1000, 0x2000, 0x0000_9000_0000_0000)];
    assert_eq!(walk(&mem, 32, 0x1000), Vec::<usize>::new());
}

#[test]
fn walker_respects_depth_limit_and_low_frames() {
    let mem = [(0x1000, 0x2000, 0xaaa), (0x2000, 0x3000, 0xbbb), (0x3000, 0x4000, 0xccc)];
    assert_eq!(walk(&mem, 2, 0x1000), vec![0xaaa, 0xbbb]);
    assert_eq!(walk(&mem, 32, 4), Vec::<usize>::new());
    assert_eq!(walk(&mem, 0, 0x1000), Vec::<usize>::new());
}
