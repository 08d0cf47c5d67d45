//! The decisions of the `mmap` system call: decoding its bit fields,
//! validating the request, choosing where the area goes and how it is
//! backed, and building the image of a file-backed area.
//!
//! The address space itself (free-range search, area creation, page writes)
//! and the file read are done by the caller between these steps.
use vstd::prelude::*;
use axerrno::LinuxError;
use crate::bump::{align_up, align_up_spec};

verus! {

/// Size of a page of the user address space.
pub const PAGE_SIZE_4K: usize = 0x1000;

/// The descriptor that stands for "no file".
pub const NO_FILE: i32 = -1;

/// Protection bits of `mmap`.
pub const PROT_READ: i32 = 0x1;
pub const PROT_WRITE: i32 = 0x2;
pub const PROT_EXEC: i32 = 0x4;

/// Flag bits of `mmap`.
pub const MAP_SHARED: i32 = 0x1;
pub const MAP_PRIVATE: i32 = 0x2;
pub const MAP_FIXED: i32 = 0x10;
pub const MAP_ANONYMOUS: i32 = 0x20;
pub const MAP_NORESERVE: i32 = 0x4000;
pub const MAP_STACK: i32 = 0x20000;

/// Whether `bit` is set in `bits`.
pub open spec fn has_bit(bits: i32, bit: i32) -> bool {
    bits & bit == bit
}

/// The protection an `mmap` caller asks for.
#[derive(Clone, Copy, Debug, PartialEq, Eq, Structural)]
pub struct MmapProt {
    pub read: bool,
    pub write: bool,
    pub execute: bool,
}

impl MmapProt {
    pub open spec fn from_bits_spec(bits: i32) -> Self {
        MmapProt {
            read: has_bit(bits, PROT_READ),
            write: has_bit(bits, PROT_WRITE),
            execute: has_bit(bits, PROT_EXEC),
        }
    }

    /// Decodes protection bits; unknown bits are ignored.
    pub fn from_bits_truncate(bits: i32) -> (r: Self)
        ensures
            r == Self::from_bits_spec(bits),
    {
        MmapProt {
            read: bits & PROT_READ == PROT_READ,
            write: bits & PROT_WRITE == PROT_WRITE,
            execute: bits & PROT_EXEC == PROT_EXEC,
        }
    }
}

/// The placement and backing flags of an `mmap` call.
#[derive(Clone, Copy, Debug, PartialEq, Eq, Structural)]
pub struct MmapFlags {
    pub shared: bool,
    pub private: bool,
    pub fixed: bool,
    pub anonymous: bool,
    pub noreserve: bool,
    pub stack: bool,
}

impl MmapFlags {
    pub open spec fn from_bits_spec(bits: i32) -> Self {
        MmapFlags {
            shared: has_bit(bits, MAP_SHARED),
            private: has_bit(bits, MAP_PRIVATE),
            fixed: has_bit(bits, MAP_FIXED),
            anonymous: has_bit(bits, MAP_ANONYMOUS),
            noreserve: has_bit(bits, MAP_NORESERVE),
            stack: has_bit(bits, MAP_STACK),
        }
    }

    /// Decodes flag bits; unknown bits are ignored.
    pub fn from_bits_truncate(bits: i32) -> (r: Self)
        ensures
            r == Self::from_bits_spec(bits),
    {
        MmapFlags {
            shared: bits & MAP_SHARED == MAP_SHARED,
            private: bits & MAP_PRIVATE == MAP_PRIVATE,
            fixed: bits & MAP_FIXED == MAP_FIXED,
            anonymous: bits & MAP_ANONYMOUS == MAP_ANONYMOUS,
            noreserve: bits & MAP_NORESERVE == MAP_NORESERVE,
            stack: bits & MAP_STACK == MAP_STACK,
        }
    }
}

/// Access rights of a mapped area. Areas made by `mmap` are always
/// user-accessible.
#[derive(Clone, Copy, Debug, PartialEq, Eq, Structural)]
pub struct MappingFlags {
    pub read: bool,
    pub write: bool,
    pub execute: bool,
    pub user: bool,
}

impl From<MmapProt> for MappingFlags {
    fn from(value: MmapProt) -> (r: Self) {
        MappingFlags { read: value.read, write: value.write, execute: value.execute, user: true }
    }
}

impl vstd::std_specs::convert::FromSpecImpl<MmapProt> for MappingFlags {
    open spec fn obeys_from_spec() -> bool {
        true
    }

    open spec fn from_spec(value: MmapProt) -> Self {
        MappingFlags { read: value.read, write: value.write, execute: value.execute, user: true }
    }
}

/// Where a new area goes.
#[derive(Clone, Copy, Debug, PartialEq, Eq, Structural)]
pub enum Placement {
    /// Exactly at this address.
    Fixed(usize),
    /// At a free range found by searching from this address; 0 means from
    /// the base of the address space.
    Search(usize),
}

/// A validated `mmap` request.
#[derive(Clone, Copy, Debug, PartialEq, Eq, Structural)]
pub struct MmapPlan {
    pub placement: Placement,
    /// Length of the area, a whole number of pages.
    pub length: usize,
    /// Length the caller asked for; the number of file bytes to read.
    pub requested: usize,
    pub flags: MappingFlags,
    /// Frames are allocated now (file-backed) rather than on first fault.
    pub populate: bool,
    /// The descriptor to fill the area from, for a file-backed area.
    pub file: Option<i32>,
}

/// A mapping is anonymous when it asks to be, or when no file is given.
pub open spec fn is_anonymous(flags: i32, fd: i32) -> bool {
    has_bit(flags, MAP_ANONYMOUS) || fd == NO_FILE
}

/// What `mmap` decides for a request before it touches the address space.
pub open spec fn mmap_plan_spec(addr: usize, length: usize, prot: i32, flags: i32, fd: i32) -> Result<
    MmapPlan,
    LinuxError,
> {
    let anonymous = is_anonymous(flags, fd);
    let rounded = align_up_spec(length as int, PAGE_SIZE_4K as int);
    if length == 0 {
        Err(LinuxError::EINVAL)
    } else if !anonymous && !has_bit(flags, MAP_PRIVATE) {
        Err(LinuxError::ENOSYS)
    } else if has_bit(flags, MAP_FIXED) && addr == 0 {
        Err(LinuxError::EINVAL)
    } else if rounded > usize::MAX {
        Err(LinuxError::ENOMEM)
    } else {
        let p = MmapProt::from_bits_spec(prot);
        Ok(
            MmapPlan {
                placement: if has_bit(flags, MAP_FIXED) {
                    Placement::Fixed(addr)
                } else {
                    Placement::Search(addr)
                },
                length: rounded as usize,
                requested: length,
                flags: MappingFlags { read: p.read, write: p.write, execute: p.execute, user: true },
                populate: !anonymous,
                file: if anonymous {
                    None
                } else {
                    Some(fd)
                },
            },
        )
    }
}

/// Validates an `mmap` request and decides how it is carried out.
///
/// Checks, in order: a zero length is an invalid argument; a file mapping
/// that is not private is unsupported; a fixed placement at address 0 is an
/// invalid argument; a length that cannot be rounded up to a page is out of
/// memory. An anonymous area is populated lazily, a file-backed one at once.
pub fn plan_mmap(addr: usize, length: usize, prot: i32, flags: i32, fd: i32) -> (r: Result<
    MmapPlan,
    LinuxError,
>)
    ensures
        r == mmap_plan_spec(addr, length, prot, flags, fd),
        length == 0 ==> r == Err::<MmapPlan, LinuxError>(LinuxError::EINVAL),
        length > 0 && !is_anonymous(flags, fd) && !has_bit(flags, MAP_PRIVATE) ==> r == Err::<
            MmapPlan,
            LinuxError,
        >(LinuxError::ENOSYS),
        has_bit(flags, MAP_FIXED) && addr == 0 && (is_anonymous(flags, fd) || has_bit(
            flags,
            MAP_PRIVATE,
        )) ==> r == Err::<MmapPlan, LinuxError>(
            LinuxError::EINVAL,
        ),
        r matches Ok(plan) ==> {
            &&& plan.length % PAGE_SIZE_4K == 0
            &&& plan.length >= length
            &&& plan.length < length + PAGE_SIZE_4K
            &&& plan.populate == !is_anonymous(flags, fd)
        },
{
    if length == 0 {
        return Err(LinuxError::EINVAL);
    }
    let map_flags = MmapFlags::from_bits_truncate(flags);
    let anonymous = map_flags.anonymous || fd == NO_FILE;
    if !anonymous && !map_flags.private {
        return Err(LinuxError::ENOSYS);
    }
    if map_flags.fixed && addr == 0 {
        return Err(LinuxError::EINVAL);
    }
    let rem: usize = length % PAGE_SIZE_4K;
    if rem != 0 && length > usize::MAX - (PAGE_SIZE_4K - rem) {
        return Err(LinuxError::ENOMEM);
    }
    let rounded = align_up(length, PAGE_SIZE_4K);
    let placement = if map_flags.fixed {
        Placement::Fixed(addr)
    } else {
        Placement::Search(addr)
    };
    let prot_flags = MmapProt::from_bits_truncate(prot);
    Ok(
        MmapPlan {
            placement,
            length: rounded,
            requested: length,
            flags: MappingFlags::from(prot_flags),
            populate: !anonymous,
            file: if anonymous {
                None
            } else {
                Some(fd)
            },
        },
    )
}

/// A step of `mmap` that works on the address space or the file.
#[derive(Clone, Copy, Debug, PartialEq, Eq, Structural)]
pub enum MmapStage {
    /// The search for a free virtual range.
    Search,
    /// The creation of the area.
    CreateArea,
    /// The read of the file.
    Read,
    /// The copy of the file bytes into the area.
    Write,
}

/// The error `mmap` reports when a step fails.
pub open spec fn stage_error_spec(stage: MmapStage) -> LinuxError {
    match stage {
        MmapStage::Search | MmapStage::CreateArea => LinuxError::ENOMEM,
        MmapStage::Read => LinuxError::EIO,
        MmapStage::Write => LinuxError::EFAULT,
    }
}

/// The error `mmap` reports when a step fails: no free range or no room for
/// the area is out of memory, a failed read is an I/O error, a failed copy
/// into the area is a bad address.
pub fn stage_error(stage: MmapStage) -> (r: LinuxError)
    ensures
        r == stage_error_spec(stage),
{
    match stage {
        MmapStage::Search | MmapStage::CreateArea => LinuxError::ENOMEM,
        MmapStage::Read => LinuxError::EIO,
        MmapStage::Write => LinuxError::EFAULT,
    }
}

impl MmapPlan {
    /// Where the search for a free range starts: the caller's hint if it gave
    /// one, else `base`. `None` for a fixed placement, which needs no search.
    pub fn search_start(&self, base: usize) -> (r: Option<usize>)
        ensures
            r == (match self.placement {
                Placement::Fixed(_) => None,
                Placement::Search(h) => Some(
                    if h != 0 {
                        h
                    } else {
                        base
                    },
                ),
            }),
    {
        match self.placement {
            Placement::Fixed(_) => None,
            Placement::Search(h) => {
                if h != 0 {
                    Some(h)
                } else {
                    Some(base)
                }
            },
        }
    }

    /// The base address of the new area, given what the search for a free
    /// range found (ignored for a fixed placement).
    pub fn place(&self, found: Option<usize>) -> (r: Result<usize, LinuxError>)
        ensures
            r == (match (self.placement, found) {
                (Placement::Fixed(a), _) => Ok(a),
                (Placement::Search(_), Some(v)) => Ok(v),
                (Placement::Search(_), None) => Err(stage_error_spec(MmapStage::Search)),
            }),
    {
        match self.placement {
            Placement::Fixed(a) => Ok(a),
            Placement::Search(_) => match found {
                Some(v) => Ok(v),
                None => Err(stage_error(MmapStage::Search)),
            },
        }
    }
}

/// The bytes a file-backed area starts with: the `read` bytes that the file
/// gave, then zeros up to the length of `buf`.
pub open spec fn file_image_spec(buf: Seq<u8>, read: int) -> Seq<u8> {
    buf.subrange(0, read) + Seq::new((buf.len() - read) as nat, |i: int| 0u8)
}

/// Builds the bytes to copy into a file-backed area from a read of
/// `buf.len()` bytes into `buf` that returned `read`. A negative result is an
/// I/O error; a short read leaves the tail zero.
pub fn file_image(buf: &Vec<u8>, read: isize) -> (r: Result<Vec<u8>, LinuxError>)
    requires
        read <= buf.len(),
    ensures
        read < 0 ==> r == Err::<Vec<u8>, LinuxError>(stage_error_spec(MmapStage::Read)),
        read >= 0 ==> (r matches Ok(v) && v@ == file_image_spec(buf@, read as int)),
{
    if read < 0 {
        return Err(stage_error(MmapStage::Read));
    }
    let n = read as usize;
    let mut image: Vec<u8> = Vec::with_capacity(buf.len());
    let mut i: usize = 0;
    while i < buf.len()
        invariant
            n <= buf.len(),
            i <= buf.len(),
            image@.len() == i,
            forall|k: int| 0 <= k < i ==> #[trigger] image@[k] == (if k < n {
                buf@[k]
            } else {
                0u8
            }),
        decreases buf.len() - i,
    {
        if i < n {
            image.push(buf[i]);
        } else {
            image.push(0u8);
        }
        i = i + 1;
    }
    assert(image@ =~= file_image_spec(buf@, n as int));
    Ok(image)
}

} // verus!
