//! System call numbers and the routing of a trap to its handler.
use vstd::prelude::*;
use axerrno::LinuxError;
use crate::errno::syscall_return;

verus! {

pub const SYS_IOCTL: usize = 29;
pub const SYS_OPENAT: usize = 56;
pub const SYS_CLOSE: usize = 57;
pub const SYS_READ: usize = 63;
pub const SYS_WRITE: usize = 64;
pub const SYS_WRITEV: usize = 66;
pub const SYS_EXIT: usize = 93;
pub const SYS_EXIT_GROUP: usize = 94;
pub const SYS_SET_TID_ADDRESS: usize = 96;
pub const SYS_MMAP: usize = 222;

/// The directory descriptor `openat` accepts: the current directory.
pub const AT_FDCWD: i32 = -100;

/// The handler a system call number routes to.
#[derive(Clone, Copy, Debug, PartialEq, Eq, Structural)]
pub enum Syscall {
    Ioctl,
    Openat,
    Close,
    Read,
    Write,
    Writev,
    Exit,
    ExitGroup,
    SetTidAddress,
    Mmap,
    /// A number with no handler.
    Unknown,
}

pub open spec fn syscall_of_spec(num: usize) -> Syscall {
    if num == SYS_IOCTL {
        Syscall::Ioctl
    } else if num == SYS_OPENAT {
        Syscall::Openat
    } else if num == SYS_CLOSE {
        Syscall::Close
    } else if num == SYS_READ {
        Syscall::Read
    } else if num == SYS_WRITE {
        Syscall::Write
    } else if num == SYS_WRITEV {
        Syscall::Writev
    } else if num == SYS_EXIT {
        Syscall::Exit
    } else if num == SYS_EXIT_GROUP {
        Syscall::ExitGroup
    } else if num == SYS_SET_TID_ADDRESS {
        Syscall::SetTidAddress
    } else if num == SYS_MMAP {
        Syscall::Mmap
    } else {
        Syscall::Unknown
    }
}

/// Routes a system call number to its handler.
pub fn syscall_of(num: usize) -> (r: Syscall)
    ensures
        r == syscall_of_spec(num),
{
    if num == SYS_IOCTL {
        Syscall::Ioctl
    } else if num == SYS_OPENAT {
        Syscall::Openat
    } else if num == SYS_CLOSE {
        Syscall::Close
    } else if num == SYS_READ {
        Syscall::Read
    } else if num == SYS_WRITE {
        Syscall::Write
    } else if num == SYS_WRITEV {
        Syscall::Writev
    } else if num == SYS_EXIT {
        Syscall::Exit
    } else if num == SYS_EXIT_GROUP {
        Syscall::ExitGroup
    } else if num == SYS_SET_TID_ADDRESS {
        Syscall::SetTidAddress
    } else if num == SYS_MMAP {
        Syscall::Mmap
    } else {
        Syscall::Unknown
    }
}

/// The return value of a system call with no handler: "function not
/// implemented", negated.
pub fn unimplemented_return() -> (r: isize)
    ensures
        r == -38,
{
    syscall_return(Err(LinuxError::ENOSYS))
}

} // verus!
