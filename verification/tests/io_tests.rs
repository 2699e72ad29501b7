use ysos::io::{stderr, stdin, stdout, STDERR_FD, STDOUT_FD};

fn type_keys(keys: &[u8]) -> (String, Vec<u8>, bool) {
    let mut reader = stdin().read_line();
    let mut echoed = Vec::new();
    for &k in keys {
        if reader.is_finished() {
            break;
        }
        echoed.extend(reader.feed(k));
    }
    let finished = reader.is_finished();
    (reader.into_line(), echoed, finished)
}

#[test]
fn read_line_until_enter() {
    let (line, echo, finished) = type_keys(b"42\r");
    assert_eq!(line, "42");
    assert_eq!(echo, b"42\n");
    assert!(finished);
}

#[test]
fn read_line_handles_backspace() {
    let (line, echo, finished) = type_keys(b"ab\x08c\x7f\x7f\x08d\n");
    assert_eq!(line, "d");
    assert_eq!(echo, b"ab\x08 \x08c\x08 \x08\x08 \x08d\n".to_vec());
    assert!(finished);
}

#[test]
fn read_line_unfinished_without_enter() {
    let (line, _, finished) = type_keys(b"xy");
    assert_eq!(line, "xy");
    assert!(!finished);
}

#[test]
fn write_calls_use_stream_descriptors() {
    let (fd, bytes) = stdout().write("héllo");
    assert_eq!(fd, STDOUT_FD);
    assert_eq!(bytes, "héllo".as_bytes());
    let (fd, bytes) = stderr().write("oops");
    assert_eq!(fd, STDERR_FD);
    assert_eq!(bytes, b"oops");
    assert_eq!((STDOUT_FD, STDERR_FD), (1, 2));
}
