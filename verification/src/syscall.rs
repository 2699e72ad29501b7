//! System-call numbers shared by the user library and the kernel.

use vstd::prelude::*;

verus! {

/// The system calls, each identified by a 16-bit number.
///
/// A number that names no system call stands for [`Syscall::Unknown`]
/// (number 65535).
#[derive(Clone, Copy, Debug, PartialEq, Eq, Structural)]
pub enum Syscall {
    Read,
    Write,
    Spawn,
    Exit,
    WaitPid,
    ListApp,
    Stat,
    Allocate,
    Deallocate,
    Unknown,
}

/// The number of each system call.
pub open spec fn syscall_number(s: Syscall) -> u16 {
    match s {
        Syscall::Read => 0,
        Syscall::Write => 1,
        Syscall::Spawn => 59,
        Syscall::Exit => 60,
        Syscall::WaitPid => 61,
        Syscall::ListApp => 65531,
        Syscall::Stat => 65532,
        Syscall::Allocate => 65533,
        Syscall::Deallocate => 65534,
        Syscall::Unknown => 65535,
    }
}

/// Whether `n` is the number of some system call.
pub open spec fn is_syscall_number(n: u16) -> bool {
    n == 0 || n == 1 || n == 59 || n == 60 || n == 61 || n >= 65531
}

/// The system call that a number stands for: the one with that number,
/// or [`Syscall::Unknown`] when there is none.
pub open spec fn syscall_from_number(n: u16) -> Syscall {
    if n == 0 {
        Syscall::Read
    } else if n == 1 {
        Syscall::Write
    } else if n == 59 {
        Syscall::Spawn
    } else if n == 60 {
        Syscall::Exit
    } else if n == 61 {
        Syscall::WaitPid
    } else if n == 65531 {
        Syscall::ListApp
    } else if n == 65532 {
        Syscall::Stat
    } else if n == 65533 {
        Syscall::Allocate
    } else if n == 65534 {
        Syscall::Deallocate
    } else {
        Syscall::Unknown
    }
}

impl Syscall {
    /// The number of this system call.
    pub fn as_u16(&self) -> (n: u16)
        ensures
            n == syscall_number(*self),
    {
        match self {
            Syscall::Read => 0,
            Syscall::Write => 1,
            Syscall::Spawn => 59,
            Syscall::Exit => 60,
            Syscall::WaitPid => 61,
            Syscall::ListApp => 65531,
            Syscall::Stat => 65532,
            Syscall::Allocate => 65533,
            Syscall::Deallocate => 65534,
            Syscall::Unknown => 65535,
        }
    }

    /// The system call with number `n`; any other number gives
    /// [`Syscall::Unknown`].
    pub fn from_u16(n: u16) -> (s: Syscall)
        ensures
            s == syscall_from_number(n),
    {
        if n == 0 {
            Syscall::Read
        } else if n == 1 {
            Syscall::Write
        } else if n == 59 {
            Syscall::Spawn
        } else if n == 60 {
            Syscall::Exit
        } else if n == 61 {
            Syscall::WaitPid
        } else if n == 65531 {
            Syscall::ListApp
        } else if n == 65532 {
            Syscall::Stat
        } else if n == 65533 {
            Syscall::Allocate
        } else if n == 65534 {
            Syscall::Deallocate
        } else {
            Syscall::Unknown
        }
    }
}

impl Default for Syscall {
    fn default() -> (s: Self)
        ensures
            s == Syscall::Unknown,
    {
        Syscall::Unknown
    }
}

/// Converting a system call to its number and back gives the same system
/// call.
pub proof fn lemma_number_round_trip(s: Syscall)
    ensures
        syscall_from_number(syscall_number(s)) == s,
        is_syscall_number(syscall_number(s)),
{
}

/// A number names a system call exactly when converting it to a system call
/// and back gives the same number; every other number stands for
/// [`Syscall::Unknown`].
pub proof fn lemma_from_number_round_trip(n: u16)
    ensures
        is_syscall_number(n) <==> syscall_number(syscall_from_number(n)) == n,
        !is_syscall_number(n) ==> syscall_from_number(n) == Syscall::Unknown,
{
}

/// Distinct system calls have distinct numbers.
pub proof fn lemma_numbers_distinct(a: Syscall, b: Syscall)
    ensures
        syscall_number(a) == syscall_number(b) ==> a == b,
{
}

} // verus!
