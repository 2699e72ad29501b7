//! The standard streams of the user library.
//!
//! Writing to a stream is a `write` system call on the stream's file
//! descriptor; reading a line is a loop, run by the caller, that reads one
//! byte at a time and echoes what [`LineReader::feed`] gives back.

use vstd::prelude::*;
use crate::text::string_from_chars;
use vstd::string::StringSliceAdditionalSpecFns;

verus! {

/// The file descriptor of standard input.
pub const STDIN_FD: u8 = 0;

/// The file descriptor of standard output.
pub const STDOUT_FD: u8 = 1;

/// The file descriptor of standard error.
pub const STDERR_FD: u8 = 2;

/// The backspace key.
pub const BACKSPACE: u8 = 0x08;

/// The delete key, treated as backspace.
pub const DELETE: u8 = 0x7F;

/// Carriage return.
pub const CARRIAGE_RETURN: u8 = 0x0D;

/// Line feed.
pub const LINE_FEED: u8 = 0x0A;

/// Space.
pub const SPACE: u8 = 0x20;

/// What the terminal is sent to erase the character before the cursor.
pub open spec fn erase_echo() -> Seq<u8> {
    seq![BACKSPACE, SPACE, BACKSPACE]
}

/// Whether `key` ends a line (carriage return or line feed).
pub open spec fn is_line_end(key: u8) -> bool {
    key == CARRIAGE_RETURN || key == LINE_FEED
}

/// Whether `key` erases the last character (backspace or delete).
pub open spec fn is_erase(key: u8) -> bool {
    key == BACKSPACE || key == DELETE
}

/// The line after typing `key` (which does not end the line) into `line`:
/// an erase key removes the last character if there is one; any other key
/// is appended as the character with that code.
pub open spec fn type_key(line: Seq<char>, key: u8) -> Seq<char> {
    if is_erase(key) {
        if line.len() > 0 {
            line.drop_last()
        } else {
            line
        }
    } else {
        line.push(key as char)
    }
}

/// What the terminal is sent when `key` is typed into `line`.
pub open spec fn key_echo(line: Seq<char>, key: u8) -> Seq<u8> {
    if is_line_end(key) {
        seq![LINE_FEED]
    } else if is_erase(key) {
        if line.len() > 0 {
            erase_echo()
        } else {
            Seq::empty()
        }
    } else {
        seq![key]
    }
}

/// The line that results from typing `keys`, none of which ends the line,
/// into an empty line.
pub open spec fn typed_line(keys: Seq<u8>) -> Seq<char>
    decreases keys.len(),
{
    if keys.len() == 0 {
        Seq::empty()
    } else {
        type_key(typed_line(keys.drop_last()), keys.last())
    }
}

/// The standard input stream.
pub struct Stdin;

/// The standard output stream.
pub struct Stdout;

/// The standard error stream.
pub struct Stderr;

/// A line being read from standard input, one key at a time.
pub struct LineReader {
    line: Vec<char>,
    keys: Ghost<Seq<u8>>,
    finished: bool,
}

impl LineReader {
    /// The characters of the line so far.
    pub closed spec fn view(&self) -> Seq<char> {
        self.line@
    }

    /// The keys typed so far, not counting the one that ended the line.
    pub closed spec fn keys(&self) -> Seq<u8> {
        self.keys@
    }

    /// The line holds what typing its keys gives, and none of its keys
    /// ends a line.
    pub closed spec fn wf(&self) -> bool {
        &&& self.line@ == typed_line(self.keys@)
        &&& forall|i: int| 0 <= i < self.keys@.len() ==> !is_line_end(#[trigger] self.keys@[i])
    }

    /// Whether the line has been ended.
    pub closed spec fn finished(&self) -> bool {
        self.finished
    }

    /// Whether the line has been ended by a carriage return or line feed.
    pub fn is_finished(&self) -> (r: bool)
        ensures
            r == self.finished(),
    {
        self.finished
    }

    /// Takes the next key and gives the bytes to echo to the terminal. A
    /// carriage return or line feed ends the line and echoes a line feed;
    /// backspace and delete erase the last character, if any, on the
    /// terminal too; any other key is appended and echoed.
    pub fn feed(&mut self, key: u8) -> (echo: Vec<u8>)
        requires
            !old(self).finished(),
            old(self).wf(),
        ensures
            final(self).wf(),
            echo@ == key_echo(old(self)@, key),
            final(self).finished() == is_line_end(key),
            is_line_end(key) ==> final(self)@ == old(self)@ && final(self).keys() == old(
                self,
            ).keys(),
            !is_line_end(key) ==> final(self)@ == type_key(old(self)@, key) && final(self).keys()
                == old(self).keys().push(key),
            final(self)@ == typed_line(final(self).keys()),
            (key == 0x08 || key == 0x7F) && old(self)@.len() > 0 ==> final(self)@ == old(
                self,
            )@.subrange(0, old(self)@.len() - 1),
            (key == 0x08 || key == 0x7F) && old(self)@.len() == 0 ==> final(self)@.len() == 0,
    {
        proof {
            if !is_line_end(key) {
                lemma_typed_line_step(self.keys@, key);
                self.keys@ = self.keys@.push(key);
            }
        }
        let mut echo: Vec<u8> = Vec::new();
        if key == CARRIAGE_RETURN || key == LINE_FEED {
            self.finished = true;
            echo.push(LINE_FEED);
        } else if key == BACKSPACE || key == DELETE {
            if self.line.len() > 0 {
                self.line.pop();
                echo.push(BACKSPACE);
                echo.push(SPACE);
                echo.push(BACKSPACE);
                assert(echo@ =~= erase_echo());
            } else {
                assert(echo@ =~= Seq::<u8>::empty());
            }
        } else {
            self.line.push(key as char);
            echo.push(key);
            assert(echo@ =~= seq![key]);
        }
        echo
    }

    /// The line read, without its ending: what typing its keys gives.
    pub fn into_line(self) -> (s: String)
        requires
            self.wf(),
        ensures
            s@ == self@,
            s@ == typed_line(self.keys()),
    {
        string_from_chars(&self.line)
    }
}

impl Stdin {
    fn new() -> Self {
        Stdin
    }

    /// Starts reading a line: an empty, unfinished line that the caller
    /// feeds key by key until it is finished.
    pub fn read_line(&self) -> (r: LineReader)
        ensures
            r@ == Seq::<char>::empty(),
            r.keys() == Seq::<u8>::empty(),
            r.wf(),
            !r.finished(),
    {
        LineReader { line: Vec::new(), keys: Ghost(Seq::empty()), finished: false }
    }
}

impl Stdout {
    fn new() -> Self {
        Stdout
    }

    /// The `write` system call that prints `s`: the file descriptor of
    /// standard output and the UTF-8 bytes of `s`.
    pub fn write<'a>(&self, s: &'a str) -> (call: (u8, &'a [u8]))
        ensures
            call.0 == STDOUT_FD,
            call.1@ == s.spec_bytes(),
    {
        (STDOUT_FD, s.as_bytes())
    }
}

impl Stderr {
    fn new() -> Self {
        Stderr
    }

    /// The `write` system call that prints `s` as an error: the file
    /// descriptor of standard error and the UTF-8 bytes of `s`.
    pub fn write<'a>(&self, s: &'a str) -> (call: (u8, &'a [u8]))
        ensures
            call.0 == STDERR_FD,
            call.1@ == s.spec_bytes(),
    {
        (STDERR_FD, s.as_bytes())
    }
}

/// The standard input stream.
pub fn stdin() -> Stdin {
    Stdin::new()
}

/// The standard output stream.
pub fn stdout() -> Stdout {
    Stdout::new()
}

/// The standard error stream.
pub fn stderr() -> Stderr {
    Stderr::new()
}

/// Typing one more key that does not end the line into the line that
/// some keys give yields the line that the keys followed by that key give.
pub proof fn lemma_typed_line_step(keys: Seq<u8>, key: u8)
    requires
        !is_line_end(key),
    ensures
        typed_line(keys.push(key)) == type_key(typed_line(keys), key),
{
    assert(keys.push(key).drop_last() =~= keys);
}

/// Erasing undoes typing: typing any key that neither ends the line nor
/// erases, then backspace (or delete), gives back the line the earlier keys
/// gave.
pub proof fn lemma_erase_undoes_key(keys: Seq<u8>, key: u8, erase: u8)
    requires
        key != 0x0D && key != 0x0A && key != 0x08 && key != 0x7F,
        erase == 0x08 || erase == 0x7F,
    ensures
        typed_line(keys.push(key).push(erase)) == typed_line(keys),
        typed_line(keys.push(key)).len() == typed_line(keys).len() + 1,
        typed_line(keys.push(key)).last() == key as char,
{
    lemma_typed_line_step(keys, key);
    lemma_typed_line_step(keys.push(key), erase);
    assert(typed_line(keys).push(key as char).drop_last() =~= typed_line(keys));
}

/// Erasing a non-empty line keeps all of its characters but the last, in
/// order; erasing an empty line leaves it empty.
pub proof fn lemma_erase_drops_last(keys: Seq<u8>, erase: u8)
    requires
        erase == 0x08 || erase == 0x7F,
    ensures
        typed_line(keys).len() > 0 ==> typed_line(keys.push(erase)).len() == typed_line(keys).len()
            - 1,
        typed_line(keys).len() > 0 ==> forall|i: int|
            0 <= i < typed_line(keys).len() - 1 ==> #[trigger] typed_line(keys.push(erase))[i]
                == typed_line(keys)[i],
        typed_line(keys).len() == 0 ==> typed_line(keys.push(erase)).len() == 0,
{
    lemma_typed_line_step(keys, erase);
}

/// Typing a key that neither ends the line nor erases appends exactly that
/// character and keeps the line before it.
pub proof fn lemma_key_appends(keys: Seq<u8>, key: u8)
    requires
        key != 0x0D && key != 0x0A && key != 0x08 && key != 0x7F,
    ensures
        typed_line(keys.push(key)).len() == typed_line(keys).len() + 1,
        forall|i: int|
            0 <= i < typed_line(keys).len() ==> #[trigger] typed_line(keys.push(key))[i]
                == typed_line(keys)[i],
        typed_line(keys.push(key))[typed_line(keys).len() as int] == key as char,
{
    lemma_typed_line_step(keys, key);
}

} // verus!
