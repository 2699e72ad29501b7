//! Per-process I/O resources (file descriptors) and the kernel input buffer
//! that standard input reads from.

use vstd::prelude::*;
use std::collections::VecDeque;

verus! {

/// The keyboard / serial input that has arrived and not yet been read: a
/// first-in first-out queue of bytes with a fixed capacity. Bytes that
/// arrive while it is full are dropped.
pub struct InputBuffer {
    queue: VecDeque<u8>,
    capacity: usize,
}

impl InputBuffer {
    #[verifier::type_invariant]
    spec fn inv(self) -> bool {
        self.queue@.len() <= self.capacity
    }

    /// The waiting bytes, oldest first.
    pub closed spec fn view(&self) -> Seq<u8> {
        self.queue@
    }

    /// The greatest number of bytes the buffer holds.
    pub closed spec fn capacity(&self) -> usize {
        self.capacity
    }

    /// An empty buffer holding at most `capacity` bytes.
    pub fn new(capacity: usize) -> (b: Self)
        ensures
            b@ == Seq::<u8>::empty(),
            b.capacity() == capacity,
    {
        InputBuffer { queue: VecDeque::new(), capacity }
    }

    /// The number of waiting bytes.
    pub fn len(&self) -> (n: usize)
        ensures
            n == self@.len(),
            n <= self.capacity(),
    {
        proof {
            use_type_invariant(self);
        }
        self.queue.len()
    }

    /// Appends `key` when there is room and says whether it was kept; a
    /// full buffer is left unchanged.
    pub fn push(&mut self, key: u8) -> (kept: bool)
        ensures
            final(self).capacity() == old(self).capacity(),
            kept == (old(self)@.len() < old(self).capacity()),
            kept ==> final(self)@ == old(self)@.push(key),
            !kept ==> final(self)@ == old(self)@,
    {
        proof {
            use_type_invariant(&*self);
        }
        if self.queue.len() < self.capacity {
            let mut queue = VecDeque::new();
            std::mem::swap(&mut queue, &mut self.queue);
            queue.push_back(key);
            self.queue = queue;
            true
        } else {
            false
        }
    }

    /// Takes the oldest waiting byte without waiting: `None` when empty.
    pub fn try_pop(&mut self) -> (key: Option<u8>)
        ensures
            final(self).capacity() == old(self).capacity(),
            old(self)@.len() == 0 ==> key is None && final(self)@ == old(self)@,
            old(self)@.len() > 0 ==> key == Some(old(self)@[0]) && final(self)@ == old(
                self,
            )@.drop_first(),
    {
        proof {
            use_type_invariant(&*self);
        }
        let mut queue = VecDeque::new();
        std::mem::swap(&mut queue, &mut self.queue);
        let key = queue.pop_front();
        self.queue = queue;
        key
    }
}

/// The standard streams a console resource stands for.
#[derive(Clone, Copy, Debug, PartialEq, Eq, Structural)]
pub enum StdIO {
    Stdin,
    Stdout,
    Stderr,
}

/// An I/O resource of a process.
#[derive(Clone, Copy, Debug, PartialEq, Eq, Structural)]
pub enum Resource {
    Console(StdIO),
    Null,
}

/// Where the bytes written to a resource are shown.
#[derive(Clone, Copy, Debug, PartialEq, Eq, Structural)]
pub enum OutputSink {
    /// Printed to the console as they are.
    Console,
    /// Logged as a warning.
    Warning,
}

/// What a write to a resource does: how many bytes it reports written
/// (`None` when the resource cannot be written) and where they are shown.
#[derive(Clone, Copy, Debug, PartialEq, Eq, Structural)]
pub struct WriteOutcome {
    pub written: Option<usize>,
    pub sink: Option<OutputSink>,
}

/// The number of bytes a read into a buffer of `buf_len` bytes takes from
/// standard input when `available` bytes are waiting.
pub open spec fn stdin_read_count(buf_len: nat, available: nat) -> nat {
    if buf_len < available {
        buf_len
    } else {
        available
    }
}

impl Resource {
    /// Whether the resource can be read.
    pub open spec fn readable(self) -> bool {
        match self {
            Resource::Console(StdIO::Stdin) => true,
            Resource::Console(_) => false,
            Resource::Null => true,
        }
    }

    /// Reads into `buf` without waiting.
    ///
    /// Standard input moves the waiting input bytes into the front of
    /// `buf`, as many as both hold, and returns their number; the null
    /// resource reads nothing and returns `Some(0)`; standard output and
    /// standard error cannot be read and return `None`, changing nothing.
    pub fn read(&self, buf: &mut [u8], input: &mut InputBuffer) -> (r: Option<usize>)
        ensures
            final(input).capacity() == old(input).capacity(),
            !self.readable() ==> r is None && final(buf)@ == old(buf)@ && final(input)@ == old(
                input,
            )@,
            *self == Resource::Null ==> r == Some(0usize) && final(buf)@ == old(buf)@
                && final(input)@ == old(input)@,
            *self == Resource::Console(StdIO::Stdin) ==> {
                let n = stdin_read_count(old(buf)@.len(), old(input)@.len());
                &&& r == Some(n as usize)
                &&& final(buf)@ == old(input)@.take(n as int) + old(buf)@.skip(n as int)
                &&& final(input)@ == old(input)@.skip(n as int)
                &&& old(input)@ == final(buf)@.take(n as int) + final(input)@
            },
    {
        match self {
            Resource::Console(StdIO::Stdin) => {
                let ghost buf0 = buf@;
                let ghost in0 = input@;
                let available = input.len();
                let n = if buf.len() < available {
                    buf.len()
                } else {
                    available
                };
                let mut count: usize = 0;
                while count < n
                    invariant
                        count <= n <= buf0.len() == buf@.len(),
                        n <= in0.len(),
                        n == stdin_read_count(buf0.len(), in0.len()),
                        input.capacity() == old(input).capacity(),
                        in0 == old(input)@,
                        buf@ == in0.take(count as int) + buf0.skip(count as int),
                        input@ == in0.skip(count as int),
                    decreases n - count,
                {
                    let key = input.try_pop();
                    assert(key == Some(in0[count as int]));
                    buf[count] = key.unwrap();
                    count = count + 1;
                    assert(buf@ =~= in0.take(count as int) + buf0.skip(count as int));
                    assert(input@ =~= in0.skip(count as int));
                }
                assert(in0 =~= buf@.take(n as int) + input@);
                Some(count)
            },
            Resource::Console(_) => None,
            Resource::Null => Some(0),
        }
    }

    /// Writes `buf`: standard output prints it and standard error logs it
    /// as a warning, both reporting every byte written; the null resource
    /// discards it, also reporting every byte written; standard input
    /// cannot be written.
    pub fn write(&self, buf: &[u8]) -> (r: WriteOutcome)
        ensures
            *self == Resource::Console(StdIO::Stdin) ==> r == (WriteOutcome {
                written: None,
                sink: None,
            }),
            *self == Resource::Console(StdIO::Stdout) ==> r == (WriteOutcome {
                written: Some(buf@.len() as usize),
                sink: Some(OutputSink::Console),
            }),
            *self == Resource::Console(StdIO::Stderr) ==> r == (WriteOutcome {
                written: Some(buf@.len() as usize),
                sink: Some(OutputSink::Warning),
            }),
            *self == Resource::Null ==> r == (WriteOutcome {
                written: Some(buf@.len() as usize),
                sink: None,
            }),
    {
        match self {
            Resource::Console(StdIO::Stdin) => WriteOutcome { written: None, sink: None },
            Resource::Console(StdIO::Stdout) => WriteOutcome {
                written: Some(buf.len()),
                sink: Some(OutputSink::Console),
            },
            Resource::Console(StdIO::Stderr) => WriteOutcome {
                written: Some(buf.len()),
                sink: Some(OutputSink::Warning),
            },
            Resource::Null => WriteOutcome { written: Some(buf.len()), sink: None },
        }
    }
}

} // verus!
