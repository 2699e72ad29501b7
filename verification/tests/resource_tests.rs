use ysos::resource::{InputBuffer, OutputSink, Resource, StdIO, WriteOutcome};

fn buffer_with(bytes: &[u8], capacity: usize) -> InputBuffer {
    let mut b = InputBuffer::new(capacity);
    for &x in bytes {
        assert!(b.push(x));
    }
    b
}

#[test]
fn input_buffer_is_fifo_and_bounded() {
    let mut b = InputBuffer::new(2);
    assert!(b.push(1));
    assert!(b.push(2));
    assert!(!b.push(3));
    assert_eq!(b.len(), 2);
    assert_eq!(b.try_pop(), Some(1));
    assert_eq!(b.try_pop(), Some(2));
    assert_eq!(b.try_pop(), None);
}

#[test]
fn stdin_read_takes_what_fits() {
    let mut input = buffer_with(b"hello", 128);
    let mut buf = [0u8; 3];
    let r = Resource::Console(StdIO::Stdin).read(&mut buf, &mut input);
    assert_eq!(r, Some(3));
    assert_eq!(&buf, b"hel");
    assert_eq!(input.len(), 2);
    let mut buf = [9u8; 4];
    let r = Resource::Console(StdIO::Stdin).read(&mut buf, &mut input);
    assert_eq!(r, Some(2));
    assert_eq!(buf, [b'l', b'o', 9, 9]);
    let r = Resource::Console(StdIO::Stdin).read(&mut buf, &mut input);
    assert_eq!(r, Some(0));
}

#[test]
fn other_resources_read() {
    let mut input = buffer_with(b"x", 8);
    let mut buf = [7u8; 2];
    assert_eq!(Resource::Console(StdIO::Stdout).read(&mut buf, &mut input), None);
    assert_eq!(Resource::Console(StdIO::Stderr).read(&mut buf, &mut input), None);
    assert_eq!(Resource::Null.read(&mut buf, &mut input), Some(0));
    assert_eq!(buf, [7, 7]);
    assert_eq!(input.len(), 1);
}

#[test]
fn resource_writes() {
    let data = b"abc";
    assert_eq!(
        Resource::Console(StdIO::Stdin).write(data),
        WriteOutcome { written: None, sink: None }
    );
    assert_eq!(
        Resource::Console(StdIO::Stdout).write(data),
        WriteOutcome { written: Some(3), sink: Some(OutputSink::Console) }
    );
    assert_eq!(
        Resource::Console(StdIO::Stderr).write(data),
        WriteOutcome { written: Some(3), sink: Some(OutputSink::Warning) }
    );
    assert_eq!(Resource::Null.write(data), WriteOutcome { written: Some(3), sink: None });
}
