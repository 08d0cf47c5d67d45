//! Linux error numbers, as the system calls return them negated.
use vstd::prelude::*;

verus! {

#[verifier::external_type_specification]
pub struct ExLinuxError(axerrno::LinuxError);

/// The number `errno.h` gives to the errors this library produces.
pub open spec fn known_code(e: axerrno::LinuxError) -> Option<int> {
    match e {
        axerrno::LinuxError::EIO => Some(5),
        axerrno::LinuxError::ENOMEM => Some(12),
        axerrno::LinuxError::EFAULT => Some(14),
        axerrno::LinuxError::EINVAL => Some(22),
        axerrno::LinuxError::ENOSYS => Some(38),
        _ => None,
    }
}

/// Relies on `axerrno::LinuxError::code`: the variant's positive number in
/// `errno.h`.
#[verifier::external_body]
fn linux_code(e: axerrno::LinuxError) -> (r: i32)
    ensures
        r > 0,
        known_code(e) matches Some(c) ==> r == c,
{
    e.code()
}

/// Encodes a system call result in one machine word: the value itself on
/// success, the negated error number on failure.
pub fn syscall_return(res: Result<usize, axerrno::LinuxError>) -> (r: isize)
    ensures
        res matches Ok(v) ==> r == v as isize,
        res matches Err(e) ==> r < 0 && (known_code(e) matches Some(c) ==> r == -c),
{
    match res {
        Ok(v) => v as isize,
        Err(e) => {
            let c = linux_code(e);
            -(c as isize)
        },
    }
}

} // verus!
