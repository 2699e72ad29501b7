use ysos::panic::{panic_banner, panic_location, stack_trace_report, PanicLocation};
use ysos::stack_trace::StackTrace;
use ysos::text::{decimal_string, frame_line, hex_string, location_string};

#[test]
fn hex_and_decimal_formats() {
    assert_eq!(hex_string(0xfe, 2), format!("0x{:02x}", 0xfe));
    assert_eq!(hex_string(0x3f, 4), "0x003f");
    assert_eq!(hex_string(0x12345, 2), "0x12345");
    assert_eq!(hex_string(0, 0), "0x0");
    assert_eq!(hex_string(u64::MAX, 16), format!("{:#018x}", u64::MAX));
    assert_eq!(decimal_string(0, 0), "0");
    assert_eq!(decimal_string(7, 2), "07");
    assert_eq!(decimal_string(12345, 2), "12345");
    assert_eq!(decimal_string(u64::MAX, 0), u64::MAX.to_string());
}

#[test]
fn location_and_frame_lines() {
    assert_eq!(location_string("src/main.rs", ":", 42, 7), "src/main.rs:42:7");
    assert_eq!(frame_line(3, 0xffff_8000_0000_1234), "  #03: 0xffff800000001234");
    assert_eq!(frame_line(3, 0xdead), format!("  #{:02}: {:#018x}", 3, 0xdead));
}

#[test]
fn panic_texts() {
    let loc = PanicLocation { file: "lib.rs", line: 10, column: 5 };
    assert_eq!(panic_location(Some(loc), "@"), "lib.rs@10:5");
    assert_eq!(panic_location(None, "@"), "Unknown location");
    assert_eq!(panic_banner("a:1:2", "boom"), "\n\n\rERROR: panicked at a:1:2\n\n\rboom");
}

#[test]
fn stack_trace_reports() {
    let empty = StackTrace::new();
    assert_eq!(
        stack_trace_report(&empty),
        vec!["Stack trace unavailable (frame-pointer chain empty).".to_string()]
    );
    let mut t = StackTrace::new();
    t.push(0x1000);
    t.push(0xffff_8000_0000_0000);
    assert_eq!(
        stack_trace_report(&t),
        vec![
            "Stack trace (most recent call last):".to_string(),
            "  #00: 0x0000000000001000".to_string(),
            "  #01: 0xffff800000000000".to_string(),
        ]
    );
}
