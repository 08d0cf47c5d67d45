//! Memory-management core of a small kernel: an early two-ended bump
//! allocator, the decision logic of the `mmap` system call, and the
//! page-fault policy that materialises lazily populated areas.
pub mod bump;
pub mod errno;
pub mod mmap;
pub mod fault;
pub mod syscall;
