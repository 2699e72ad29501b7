//! Building strings from characters, and the number formats used in kernel
//! messages.

use vstd::prelude::*;
use vstd::string::StringExecFns;

verus! {

/// The string made of `chars`, in order.
#[verifier::external_body]
pub(crate) fn string_from_chars(chars: &Vec<char>) -> (s: String)
    ensures
        s@ == chars@,
{
    chars.iter().collect()
}

/// The lowercase hexadecimal (and decimal) digit for `d < 16`.
pub open spec fn digit_char(d: nat) -> char {
    if d < 10 {
        (48 + d) as char
    } else {
        (87 + d) as char
    }
}

/// The digits of `v` in `base`, most significant first, without leading
/// zeros (a single `0` for zero).
pub open spec fn digits(v: nat, base: nat) -> Seq<char>
    recommends
        2 <= base <= 16,
    decreases v,
{
    if base < 2 || v < base {
        seq![digit_char(v % 16)]
    } else {
        proof {
            assert(v / base < v) by (nonlinear_arith)
                requires
                    v >= base >= 2,
            ;
        }
        digits(v / base, base).push(digit_char(v % base))
    }
}

/// `s` with zeros in front to make it at least `width` characters long.
pub open spec fn zero_padded(s: Seq<char>, width: nat) -> Seq<char> {
    if s.len() >= width {
        s
    } else {
        Seq::new((width - s.len()) as nat, |i: int| '0') + s
    }
}

/// `v` in lowercase hexadecimal with a `0x` prefix, its digits padded with
/// zeros to at least `width`.
pub open spec fn hex_text(v: nat, width: nat) -> Seq<char> {
    seq!['0', 'x'] + zero_padded(digits(v, 16), width)
}

/// `v` in decimal, padded with zeros to at least `width` digits.
pub open spec fn decimal_text(v: nat, width: nat) -> Seq<char> {
    zero_padded(digits(v, 10), width)
}

fn digit(d: u64) -> (c: char)
    requires
        d < 16,
    ensures
        c == digit_char(d as nat),
{
    if d < 10 {
        (48 + d as u8) as char
    } else {
        (87 + d as u8) as char
    }
}

fn push_digits(out: &mut Vec<char>, v: u64, base: u64)
    requires
        2 <= base <= 16,
    ensures
        final(out)@ == old(out)@ + digits(v as nat, base as nat),
    decreases v,
{
    if v >= base {
        assert(v / base < v) by (nonlinear_arith)
            requires
                v >= base >= 2,
        ;
        push_digits(out, v / base, base);
    }
    out.push(digit(v % base));
    proof {
        if v < base {
            assert(v % base == v) by (nonlinear_arith)
                requires
                    v < base,
            ;
            assert(digits(v as nat, base as nat) == seq![digit_char(v as nat % 16)]);
        }
    }
}

fn push_padded(out: &mut Vec<char>, v: u64, base: u64, width: usize)
    requires
        2 <= base <= 16,
    ensures
        final(out)@ == old(out)@ + zero_padded(digits(v as nat, base as nat), width as nat),
{
    let mut ds: Vec<char> = Vec::new();
    push_digits(&mut ds, v, base);
    assert(ds@ =~= digits(v as nat, base as nat));
    let ghost start = out@;
    if ds.len() < width {
        let pad = width - ds.len();
        let mut i: usize = 0;
        while i < pad
            invariant
                i <= pad,
                out@ == start + Seq::new(i as nat, |k: int| '0'),
            decreases pad - i,
        {
            out.push('0');
            i = i + 1;
            assert(out@ =~= start + Seq::new(i as nat, |k: int| '0'));
        }
    }
    let ghost mid = out@;
    let mut j: usize = 0;
    while j < ds.len()
        invariant
            j <= ds@.len(),
            out@ == mid + ds@.take(j as int),
        decreases ds@.len() - j,
    {
        out.push(ds[j]);
        j = j + 1;
        assert(out@ =~= mid + ds@.take(j as int));
    }
    assert(ds@.take(ds@.len() as int) =~= ds@);
    assert(out@ =~= start + zero_padded(digits(v as nat, base as nat), width as nat));
}

/// `v` in lowercase hexadecimal with a `0x` prefix and at least `width`
/// digits, as the `{:#0w$x}` format writes it for `w = width + 2`.
pub fn hex_string(v: u64, width: usize) -> (s: String)
    ensures
        s@ == hex_text(v as nat, width as nat),
{
    let mut out: Vec<char> = Vec::new();
    out.push('0');
    out.push('x');
    push_padded(&mut out, v, 16, width);
    assert(out@ =~= hex_text(v as nat, width as nat));
    string_from_chars(&out)
}

/// `v` in decimal with at least `width` digits.
pub fn decimal_string(v: u64, width: usize) -> (s: String)
    ensures
        s@ == decimal_text(v as nat, width as nat),
{
    let mut out: Vec<char> = Vec::new();
    push_padded(&mut out, v, 10, width);
    assert(out@ =~= decimal_text(v as nat, width as nat));
    string_from_chars(&out)
}

/// The text of a source location: the file, `separator`, the line, a
/// colon and the column.
pub fn location_string(file: &str, separator: &str, line: u32, column: u32) -> (s: String)
    ensures
        s@ == file@ + separator@ + decimal_text(line as nat, 0) + seq![':'] + decimal_text(
            column as nat,
            0,
        ),
{
    let mut s = file.to_owned();
    s.append(separator);
    let line_text = decimal_string(line as u64, 0);
    s.append(line_text.as_str());
    let colon: Vec<char> = vec![':'];
    let colon_text = string_from_chars(&colon);
    s.append(colon_text.as_str());
    let column_text = decimal_string(column as u64, 0);
    s.append(column_text.as_str());
    s
}

/// One line of a printed stack trace: two spaces, `#`, the frame index in
/// at least two decimal digits, a colon and a space, and the return address
/// in hexadecimal with sixteen digits.
pub fn frame_line(index: usize, addr: usize) -> (s: String)
    ensures
        s@ == seq![' ', ' ', '#'] + decimal_text(index as nat, 2) + seq![':', ' '] + hex_text(
            addr as nat,
            16,
        ),
{
    let mut out: Vec<char> = Vec::new();
    out.push(' ');
    out.push(' ');
    out.push('#');
    push_padded(&mut out, index as u64, 10, 2);
    out.push(':');
    out.push(' ');
    out.push('0');
    out.push('x');
    push_padded(&mut out, addr as u64, 16, 16);
    assert(out@ =~= seq![' ', ' ', '#'] + decimal_text(index as nat, 2) + seq![':', ' ']
        + hex_text(addr as nat, 16));
    string_from_chars(&out)
}

} // verus!
