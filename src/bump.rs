//! An early allocator over one fixed region: bytes are handed out upward from
//! the start, pages downward from the end, and the two never overlap.
//!
//! ```text
//! [ bytes-used | avail-area | pages-used ]
//! |            | -->    <-- |            |
//! start    b_pointer    p_pointer       end
//! ```
use vstd::prelude::*;

verus! {

/// `x` rounded down to a multiple of `a`.
pub open spec fn align_down_spec(x: int, a: int) -> int {
    x - x % a
}

/// `x` rounded up to a multiple of `a`.
pub open spec fn align_up_spec(x: int, a: int) -> int {
    if x % a == 0 {
        x
    } else {
        x + (a - x % a)
    }
}

/// Rounds `addr` up to a multiple of `align`.
pub fn align_up(addr: usize, align: usize) -> (r: usize)
    requires
        align > 0,
        align_up_spec(addr as int, align as int) <= usize::MAX,
    ensures
        r == align_up_spec(addr as int, align as int),
        r >= addr,
        r % align == 0,
{
    let rem: usize = addr % align;
    if rem == 0 {
        addr
    } else {
        proof {
            let q = addr as int / align as int;
            vstd::arithmetic::div_mod::lemma_fundamental_div_mod(addr as int, align as int);
            assert(addr + (align - rem) == (q + 1) * align) by (nonlinear_arith)
                requires
                    addr == align * q + rem,
            ;
            vstd::arithmetic::div_mod::lemma_mod_multiples_basic(q + 1, align as int);
        }
        addr + (align - rem)
    }
}

/// Rounds `addr` down to a multiple of `align`.
pub fn align_down(addr: usize, align: usize) -> (r: usize)
    requires
        align > 0,
    ensures
        r == align_down_spec(addr as int, align as int),
        r <= addr,
        r % align == 0,
{
    proof {
        let q = addr as int / align as int;
        vstd::arithmetic::div_mod::lemma_fundamental_div_mod(addr as int, align as int);
        assert(addr - addr % align == q * align) by (nonlinear_arith)
            requires
                addr == align * q + addr % align,
        ;
        vstd::arithmetic::div_mod::lemma_mod_multiples_basic(q, align as int);
    }
    addr - addr % align
}

/// Why an allocation request was refused.
#[derive(Clone, Copy, Debug, PartialEq, Eq, Structural)]
pub enum AllocError {
    /// An argument was out of range.
    InvalidParam,
    /// A region overlaps one already managed.
    MemoryOverlap,
    /// Not enough room is left.
    NoMemory,
    /// The region was not handed out by this allocator.
    NotAllocated,
}

/// Two-ended bump allocator over `[start, end)` with pages of `SIZE` bytes.
///
/// Bytes are taken from the low end and only given back all at once, when
/// every byte allocation has been released; pages are taken from the high end
/// and never given back.
pub struct EarlyAllocator<const SIZE: usize> {
    start: usize,
    end: usize,
    b_pointer: usize,
    p_pointer: usize,
    alloc_count: usize,
}

impl<const SIZE: usize> EarlyAllocator<SIZE> {
    /// First byte of the managed region.
    pub closed spec fn start_spec(&self) -> int {
        self.start as int
    }

    /// One past the last byte of the managed region.
    pub closed spec fn end_spec(&self) -> int {
        self.end as int
    }

    /// Next free byte of the byte area (grows upward).
    pub closed spec fn b_spec(&self) -> int {
        self.b_pointer as int
    }

    /// Lowest byte of the page area (grows downward).
    pub closed spec fn p_spec(&self) -> int {
        self.p_pointer as int
    }

    /// Number of live byte allocations.
    pub closed spec fn count_spec(&self) -> int {
        self.alloc_count as int
    }

    /// The pointers are ordered, and with no live byte allocation the byte
    /// area is empty.
    pub closed spec fn wf(&self) -> bool {
        &&& self.start <= self.b_pointer
        &&& self.b_pointer <= self.p_pointer
        &&& self.p_pointer <= self.end
        &&& (self.alloc_count == 0 ==> self.b_pointer == self.start)
    }

    /// Bytes that the byte area may still grow into, counting what it holds.
    pub open spec fn total_bytes_spec(&self) -> int {
        self.p_spec() - self.start_spec()
    }

    /// Bytes taken by the byte area.
    pub open spec fn used_bytes_spec(&self) -> int {
        self.b_spec() - self.start_spec()
    }

    /// Bytes free between the two areas.
    pub open spec fn available_bytes_spec(&self) -> int {
        self.p_spec() - self.b_spec()
    }

    /// `[x, x + n)` lies in the byte area.
    pub open spec fn holds_bytes(&self, x: int, n: int) -> bool {
        self.start_spec() <= x && n >= 0 && x + n <= self.b_spec()
    }

    /// `[y, y + m)` lies in the page area.
    pub open spec fn holds_pages(&self, y: int, m: int) -> bool {
        self.p_spec() <= y && m >= 0 && y + m <= self.end_spec()
    }

    /// `next` is `prev` after one successful byte allocation.
    pub open spec fn byte_alloc_step(prev: Self, next: Self) -> bool {
        &&& next.start_spec() == prev.start_spec()
        &&& next.end_spec() == prev.end_spec()
        &&& next.p_spec() == prev.p_spec()
        &&& next.b_spec() >= prev.b_spec()
        &&& next.count_spec() == prev.count_spec() + 1
    }

    /// `next` is `prev` after one byte deallocation.
    pub open spec fn byte_dealloc_step(prev: Self, next: Self) -> bool {
        &&& next.start_spec() == prev.start_spec()
        &&& next.end_spec() == prev.end_spec()
        &&& next.p_spec() == prev.p_spec()
        &&& next.count_spec() == (if prev.count_spec() > 0 {
            prev.count_spec() - 1
        } else {
            0
        })
        &&& next.b_spec() == (if next.count_spec() == 0 {
            prev.start_spec()
        } else {
            prev.b_spec()
        })
    }

    /// `next` is `prev` after one successful page allocation.
    pub open spec fn page_alloc_step(prev: Self, next: Self) -> bool {
        &&& next.start_spec() == prev.start_spec()
        &&& next.end_spec() == prev.end_spec()
        &&& next.b_spec() == prev.b_spec()
        &&& next.p_spec() <= prev.p_spec()
        &&& next.count_spec() == prev.count_spec()
    }

    /// `next` is `prev` after one successful byte or page allocation.
    pub open spec fn alloc_step(prev: Self, next: Self) -> bool {
        Self::byte_alloc_step(prev, next) || Self::page_alloc_step(prev, next)
    }

    /// An allocator over an empty region.
    pub fn new() -> (r: Self)
        ensures
            r.wf(),
            r.start_spec() == 0,
            r.end_spec() == 0,
            r.b_spec() == 0,
            r.p_spec() == 0,
            r.count_spec() == 0,
    {
        EarlyAllocator { start: 0, end: 0, b_pointer: 0, p_pointer: 0, alloc_count: 0 }
    }
    /// Takes over `[start, start + size)`, dropping all earlier state.
    pub fn init(&mut self, start: usize, size: usize)
        requires
            start + size <= usize::MAX,
        ensures
            final(self).wf(),
            final(self).start_spec() == start,
            final(self).end_spec() == start + size,
            final(self).b_spec() == start,
            final(self).p_spec() == start + size,
            final(self).count_spec() == 0,
    {
        self.start = start;
        self.end = start + size;
        self.b_pointer = self.start;
        self.p_pointer = self.end;
        self.alloc_count = 0;
    }

    /// This allocator manages one region only: more memory is always refused.
    pub fn add_memory(&mut self, _start: usize, _size: usize) -> (r: Result<(), AllocError>)
        ensures
            r == Err::<(), AllocError>(AllocError::NoMemory),
            *final(self) == *old(self),
    {
        Err(AllocError::NoMemory)
    }

    /// Allocates `size` bytes aligned to `align` from the byte area.
    ///
    /// Succeeds exactly when the aligned block ends at or below the page area;
    /// it then starts at `b_pointer` rounded up to `align`.
    pub fn alloc_bytes(&mut self, size: usize, align: usize) -> (r: Result<usize, AllocError>)
        requires
            old(self).wf(),
            align > 0,
            old(self).count_spec() < usize::MAX,
        ensures
            final(self).wf(),
            r is Ok <==> align_up_spec(old(self).b_spec(), align as int) + size <= old(self).p_spec(),
            r matches Ok(x) ==> {
                &&& x == align_up_spec(old(self).b_spec(), align as int)
                &&& x % align == 0
                &&& final(self).b_spec() == x + size
                &&& final(self).holds_bytes(x as int, size as int)
                &&& Self::byte_alloc_step(*old(self), *final(self))
            },
            r is Err ==> r == Err::<usize, AllocError>(AllocError::NoMemory) && *final(self) == *old(self),
    {
        let b = self.b_pointer;
        let rem: usize = b % align;
        let pad: usize = if rem == 0 { 0 } else { align - rem };
        if pad > self.p_pointer - b {
            return Err(AllocError::NoMemory);
        }
        let alloc_start = align_up(b, align);
        if size > self.p_pointer - alloc_start {
            return Err(AllocError::NoMemory);
        }
        let alloc_end = alloc_start + size;
        self.b_pointer = alloc_end;
        self.alloc_count = self.alloc_count + 1;
        Ok(alloc_start)
    }

    /// Releases one byte allocation. The byte area is emptied once no byte
    /// allocation is live; single blocks are never reclaimed.
    pub fn dealloc_bytes(&mut self, _pos: usize, _size: usize, _align: usize)
        requires
            old(self).wf(),
        ensures
            final(self).wf(),
            Self::byte_dealloc_step(*old(self), *final(self)),
    {
        if self.alloc_count > 0 {
            self.alloc_count = self.alloc_count - 1;
        }
        if self.alloc_count == 0 {
            self.b_pointer = self.start;
        }
    }

    /// Bytes from the start of the region up to the page area.
    pub fn total_bytes(&self) -> (r: usize)
        requires
            self.wf(),
        ensures
            r == self.total_bytes_spec(),
    {
        self.p_pointer - self.start
    }

    /// Bytes taken by the byte area.
    pub fn used_bytes(&self) -> (r: usize)
        requires
            self.wf(),
        ensures
            r == self.used_bytes_spec(),
    {
        self.b_pointer - self.start
    }

    /// Bytes free between the byte area and the page area.
    pub fn available_bytes(&self) -> (r: usize)
        requires
            self.wf(),
        ensures
            r == self.available_bytes_spec(),
    {
        self.p_pointer - self.b_pointer
    }

    /// Allocates `num_pages` pages from the top of the free space, the block
    /// start rounded down to `align_pow2`.
    ///
    /// Succeeds exactly when `num_pages * SIZE` fits below `p_pointer` and the
    /// rounded start stays at or above `b_pointer`.
    pub fn alloc_pages(&mut self, num_pages: usize, align_pow2: usize) -> (r: Result<
        usize,
        AllocError,
    >)
        requires
            old(self).wf(),
            align_pow2 > 0,
        ensures
            final(self).wf(),
            r is Ok <==> {
                &&& num_pages * SIZE <= old(self).p_spec()
                &&& align_down_spec(old(self).p_spec() - num_pages * SIZE, align_pow2 as int)
                    >= old(self).b_spec()
            },
            r matches Ok(x) ==> {
                &&& x == align_down_spec(old(self).p_spec() - num_pages * SIZE, align_pow2 as int)
                &&& x % align_pow2 == 0
                &&& final(self).p_spec() == x
                &&& final(self).holds_pages(x as int, num_pages * SIZE)
                &&& Self::page_alloc_step(*old(self), *final(self))
            },
            r is Err ==> r == Err::<usize, AllocError>(AllocError::NoMemory) && *final(self) == *old(self),
            num_pages * SIZE > old(self).available_bytes_spec() ==> r == Err::<usize, AllocError>(
                AllocError::NoMemory,
            ) && *final(self) == *old(self),
    {
        let alloc_size = match num_pages.checked_mul(SIZE) {
            Some(s) => s,
            None => return Err(AllocError::NoMemory),
        };
        let new_p_pointer = match self.p_pointer.checked_sub(alloc_size) {
            Some(p) => p,
            None => return Err(AllocError::NoMemory),
        };
        let alloc_start = align_down(new_p_pointer, align_pow2);
        if alloc_start < self.b_pointer {
            return Err(AllocError::NoMemory);
        }
        self.p_pointer = alloc_start;
        Ok(alloc_start)
    }

    /// Pages are never given back: this does nothing.
    pub fn dealloc_pages(&mut self, _pos: usize, _num_pages: usize)
        ensures
            *final(self) == *old(self),
    {
    }

    /// Number of live byte allocations.
    pub fn live_allocations(&self) -> (r: usize)
        ensures
            r == self.count_spec(),
    {
        self.alloc_count
    }

    /// Whole pages in the region.
    pub fn total_pages(&self) -> (r: usize)
        requires
            self.wf(),
            SIZE > 0,
        ensures
            r == (self.end_spec() - self.start_spec()) / SIZE as int,
    {
        (self.end - self.start) / SIZE
    }

    /// Whole pages taken by the page area.
    pub fn used_pages(&self) -> (r: usize)
        requires
            self.wf(),
            SIZE > 0,
        ensures
            r == (self.end_spec() - self.p_spec()) / SIZE as int,
    {
        (self.end - self.p_pointer) / SIZE
    }

    /// Whole pages that fit between the two areas.
    pub fn available_pages(&self) -> (r: usize)
        requires
            self.wf(),
            SIZE > 0,
        ensures
            r == self.available_bytes_spec() / SIZE as int,
    {
        (self.p_pointer - self.b_pointer) / SIZE
    }
    /// What well-formedness gives a caller: the four positions are ordered
    /// and fit in a machine word, and with no live byte allocation the byte
    /// area is empty.
    pub proof fn lemma_wf_bounds(a: Self)
        requires
            a.wf(),
        ensures
            0 <= a.start_spec() <= a.b_spec() <= a.p_spec() <= a.end_spec() <= usize::MAX,
            0 <= a.count_spec() <= usize::MAX,
            a.count_spec() == 0 ==> a.b_spec() == a.start_spec(),
    {
    }

    /// Accounting: the byte area's room plus the page area is the whole
    /// region, and the byte area never uses more than its room.
    pub proof fn lemma_accounting(a: Self)
        requires
            a.wf(),
        ensures
            a.total_bytes_spec() + (a.end_spec() - a.p_spec()) == a.end_spec() - a.start_spec(),
            a.used_bytes_spec() <= a.total_bytes_spec(),
            a.used_bytes_spec() + a.available_bytes_spec() == a.total_bytes_spec(),
    {
    }

    proof fn lemma_alloc_steps_monotone(states: Seq<Self>, i: int, k: int)
        requires
            0 <= i <= k < states.len(),
            forall|t: int| 0 <= t < states.len() - 1 ==> Self::alloc_step(#[trigger] states[t], states[t + 1]),
        ensures
            states[k].start_spec() == states[i].start_spec(),
            states[k].end_spec() == states[i].end_spec(),
            states[k].b_spec() >= states[i].b_spec(),
            states[k].p_spec() <= states[i].p_spec(),
        decreases k - i,
    {
        if i < k {
            Self::lemma_alloc_steps_monotone(states, i, k - 1);
            assert(Self::alloc_step(states[k - 1], states[k]));
        }
    }

    /// Byte blocks and page blocks never meet: along any run of successful
    /// byte and page allocations, a block that lay in the byte area at one
    /// state and a block that lay in the page area at another are disjoint.
    pub proof fn lemma_byte_page_disjoint(
        states: Seq<Self>,
        i: int,
        x: int,
        n: int,
        j: int,
        y: int,
        m: int,
    )
        requires
            forall|t: int| 0 <= t < states.len() ==> (#[trigger] states[t]).wf(),
            forall|t: int| 0 <= t < states.len() - 1 ==> Self::alloc_step(#[trigger] states[t], states[t + 1]),
            0 <= i < states.len(),
            0 <= j < states.len(),
            states[i].holds_bytes(x, n),
            states[j].holds_pages(y, m),
        ensures
            x + n <= y,
    {
        let last = states.len() - 1;
        Self::lemma_alloc_steps_monotone(states, i, last);
        Self::lemma_alloc_steps_monotone(states, j, last);
        assert(states[last].wf());
    }

    proof fn lemma_count_after_allocs(states: Seq<Self>, n: int, i: int)
        requires
            0 <= i <= n < states.len(),
            states[0].count_spec() == 0,
            forall|t: int| 0 <= t < n ==> Self::byte_alloc_step(#[trigger] states[t], states[t + 1]),
        ensures
            states[i].count_spec() == i,
            states[i].start_spec() == states[0].start_spec(),
        decreases i,
    {
        if i > 0 {
            Self::lemma_count_after_allocs(states, n, i - 1);
            assert(Self::byte_alloc_step(states[i - 1], states[i]));
        }
    }

    proof fn lemma_count_after_deallocs(states: Seq<Self>, n: int, j: int)
        requires
            0 <= j <= n,
            states.len() == 2 * n + 1,
            states[n].count_spec() == n,
            forall|t: int| n <= t < 2 * n ==> Self::byte_dealloc_step(#[trigger] states[t], states[t + 1]),
        ensures
            states[n + j].count_spec() == n - j,
            states[n + j].start_spec() == states[n].start_spec(),
            j > 0 && j == n ==> states[n + j].b_spec() == states[n].start_spec(),
        decreases j,
    {
        if j > 0 {
            Self::lemma_count_after_deallocs(states, n, j - 1);
            assert(Self::byte_dealloc_step(states[n + j - 1], states[n + j]));
        }
    }

    /// Bump and reset: from an empty byte area, `n` successful byte
    /// allocations followed by `n` deallocations, in any order, leave the byte
    /// area empty; the next byte allocation with an alignment that `start`
    /// meets starts at `start`.
    pub proof fn lemma_bump_and_reset(states: Seq<Self>, n: nat, align: int)
        requires
            n > 0,
            align > 0,
            states.len() == 2 * n + 1,
            states[0].wf(),
            states[0].count_spec() == 0,
            forall|t: int| 0 <= t < n ==> Self::byte_alloc_step(#[trigger] states[t], states[t + 1]),
            forall|t: int| n <= t < 2 * n ==> Self::byte_dealloc_step(#[trigger] states[t], states[t + 1]),
        ensures
            states[2 * n as int].used_bytes_spec() == 0,
            states[2 * n as int].b_spec() == states[0].start_spec(),
            states[0].start_spec() % align == 0 ==> align_up_spec(
                states[2 * n as int].b_spec(),
                align,
            ) == states[0].start_spec(),
    {
        Self::lemma_count_after_allocs(states, n as int, n as int);
        Self::lemma_count_after_deallocs(states, n as int, n as int);
    }
}

} // verus!
