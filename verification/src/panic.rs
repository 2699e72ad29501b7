//! The text printed when the kernel or a user program panics.

use vstd::prelude::*;
use vstd::string::StringExecFns;
use crate::stack_trace::StackTrace;
use crate::text::{decimal_text, hex_text, frame_line, location_string};

verus! {

/// Where a panic happened, as the panic handler is given it: the file, the
/// line and the column, when known.
pub struct PanicLocation<'a> {
    pub file: &'a str,
    pub line: u32,
    pub column: u32,
}

/// The text of a panic location: the file, `separator`, the line, a colon
/// and the column; or `Unknown location` when it is not known. The kernel
/// separates file and line by a colon, the user library by `@`.
pub fn panic_location(location: Option<PanicLocation>, separator: &str) -> (s: String)
    ensures
        location matches Some(l) ==> s@ == l.file@ + separator@ + decimal_text(l.line as nat, 0)
            + seq![':'] + decimal_text(l.column as nat, 0),
        location is None ==> s@ == "Unknown location"@,
{
    match location {
        Some(l) => location_string(l.file, separator, l.line, l.column),
        None => "Unknown location".to_owned(),
    }
}

/// The error line of a panic: two newlines and a carriage return, `ERROR:
/// panicked at`, the location, then two newlines, a carriage return and
/// the panic message.
pub fn panic_banner(location: &str, message: &str) -> (s: String)
    ensures
        s@ == "\n\n\rERROR: panicked at "@ + location@ + "\n\n\r"@ + message@,
{
    let mut s = "\n\n\rERROR: panicked at ".to_owned();
    s.append(location);
    s.append("\n\n\r");
    s.append(message);
    s
}

/// The lines that print a stack trace: a heading and one
/// [`frame_line`] per return address, numbered from zero; or a single line
/// saying that no trace is available when it is empty.
pub fn stack_trace_report(trace: &StackTrace) -> (lines: Vec<String>)
    ensures
        trace@.len() == 0 ==> lines@.len() == 1 && lines@[0]@
            == "Stack trace unavailable (frame-pointer chain empty)."@,
        trace@.len() > 0 ==> {
            &&& lines@.len() == trace@.len() + 1
            &&& lines@[0]@ == "Stack trace (most recent call last):"@
            &&& forall|i: int|
                0 <= i < trace@.len() ==> #[trigger] lines@[i + 1]@ == seq![' ', ' ', '#']
                    + decimal_text(i as nat, 2) + seq![':', ' '] + hex_text(
                    trace@[i] as nat,
                    16,
                )
        },
{
    let mut lines: Vec<String> = Vec::new();
    if trace.is_empty() {
        lines.push("Stack trace unavailable (frame-pointer chain empty).".to_owned());
        return lines;
    }
    lines.push("Stack trace (most recent call last):".to_owned());
    let frames = trace.iter();
    let mut i: usize = 0;
    while i < frames.len()
        invariant
            frames@ == trace@,
            i <= frames@.len(),
            lines@.len() == i + 1,
            lines@[0]@ == "Stack trace (most recent call last):"@,
            forall|k: int|
                0 <= k < i ==> #[trigger] lines@[k + 1]@ == seq![' ', ' ', '#'] + decimal_text(
                    k as nat,
                    2,
                ) + seq![':', ' '] + hex_text(trace@[k] as nat, 16),
        decreases frames@.len() - i,
    {
        let line = frame_line(i, frames[i]);
        lines.push(line);
        i = i + 1;
    }
    lines
}

} // verus!
