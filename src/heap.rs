//! The process-wide heap: one reserved byte range handed to a first-fit
//! linked-list allocator exactly once.

use core::alloc::Layout;
use core::mem::MaybeUninit;
use linked_list_allocator::Heap;
use vstd::arithmetic::power2::is_pow2;
use vstd::layout::valid_layout;
use vstd::prelude::*;

verus! {

#[verifier::external_type_specification]
#[verifier::external_body]
pub struct ExHeap(Heap);

/// The number of bytes that the allocator hands out from a heap: its usable
/// size, from its bottom address to its top (`Heap::size`).
pub uninterp spec fn heap_size(h: Heap) -> nat;

/// The bottom address of a heap's usable range (`Heap::bottom`).
pub uninterp spec fn heap_bottom(h: Heap) -> int;

/// The addresses that lie in the heap's free blocks (its holes).
pub uninterp spec fn heap_free(h: Heap) -> Set<int>;

/// The address that a first-fit search of heap `h` hands out for `size` bytes
/// aligned to `align`, if any hole can hold the block.
pub uninterp spec fn first_fit_of(h: Heap, size: usize, align: usize) -> Option<usize>;

/// The addresses `[start, start + len)`.
pub open spec fn span(start: int, len: int) -> Set<int> {
    Set::new(|x: int| start <= x < start + len)
}

/// Relies on `linked_list_allocator::Heap::from_slice`: the heap's one hole
/// covers its whole usable range, which starts at the slice's address rounded
/// up to the alignment of a free-list node (a word: at least 4) and ends at the
/// slice's end rounded down to it; so it loses less than a word at each end.
/// It panics on a slice too small for one node (two words plus alignment),
/// which 64 bytes excludes. A slice never wraps around the address space.
#[verifier::external_body]
fn heap_from_slice(mem: &'static mut [MaybeUninit<u8>]) -> (r: Heap)
    requires
        old(mem)@.len() >= MIN_HEAP_REGION,
    ensures
        heap_size(r) <= old(mem)@.len() <= heap_size(r) + 16,
        heap_bottom(r) > 0,
        heap_bottom(r) % 4 == 0,
        heap_bottom(r) + heap_size(r) <= usize::MAX + 1,
        heap_free(r) == span(heap_bottom(r), heap_size(r) as int),
{
    Heap::from_slice(mem)
}

/// Relies on `linked_list_allocator::Heap::bottom`: the address where the
/// heap's usable range starts.
#[verifier::external_body]
fn bottom_address_of(heap: &Heap) -> (r: usize)
    ensures
        r == heap_bottom(*heap),
{
    heap.bottom().addr()
}

/// Relies on `linked_list_allocator::Heap::size`: the length of the heap's
/// usable range.
#[verifier::external_body]
fn usable_size_of(heap: &Heap) -> (r: usize)
    ensures
        r == heap_size(*heap),
{
    heap.size()
}

/// The search for a block of `size` bytes aligned to `align` in heap `h`
/// computes no address past the end of the address space: the block, its
/// alignment padding and a free-list node after it all lie below `usize::MAX`.
pub open spec fn addressable(h: Heap, size: usize, align: usize) -> bool {
    heap_bottom(h) + heap_size(h) + size + align + 64 <= usize::MAX
}

/// Whether `bottom + len + size + align + 64` stays within `usize`.
fn fits_address_space(bottom: usize, len: usize, size: usize, align: usize) -> (r: bool)
    ensures
        r == (bottom + len + size + align + 64 <= usize::MAX),
{
    let limit: usize = usize::MAX - 64;
    bottom <= limit && len <= limit - bottom && size <= limit - bottom - len && align <= limit
        - bottom - len - size
}

/// Relies on `linked_list_allocator::Heap::allocate_first_fit`, with the layout
/// built by `core::alloc::Layout::from_size_align` (which succeeds on a valid
/// layout). The search rounds addresses up with wrapping pointer arithmetic,
/// so the block and its paddings must stay below the end of the address space.
/// The block is cut from a hole, so it lies in free memory and is free no
/// longer; the front and back paddings left over become holes inside the old
/// one; the heap's bounds do not change, and a failed search changes nothing.
/// On a heap whose one hole covers it whole, the block starts at the hole when
/// the hole is aligned as requested (else two words on, rounded up to the
/// alignment), and it fits when the hole, after the request is rounded up to a
/// word (at least two words), still leaves either nothing or room for a node.
#[verifier::external_body]
fn heap_allocate(heap: &mut Heap, size: usize, align: usize) -> (r: Option<usize>)
    requires
        valid_layout(size, align),
        addressable(*old(heap), size, align),
    ensures
        r == first_fit_of(*old(heap), size, align),
        heap_size(*final(heap)) == heap_size(*old(heap)),
        heap_bottom(*final(heap)) == heap_bottom(*old(heap)),
        heap_free(*final(heap)).subset_of(heap_free(*old(heap))),
        r is None ==> heap_free(*final(heap)) == heap_free(*old(heap)),
        r matches Some(addr) ==> addr % align == 0 && addr != 0
            && span(addr as int, size as int).subset_of(heap_free(*old(heap)))
            && span(addr as int, size as int).disjoint(heap_free(*final(heap))),
        heap_free(*old(heap)) == span(heap_bottom(*old(heap)), heap_size(*old(heap)) as int)
            && heap_bottom(*old(heap)) % (align as int) == 0 && size + 24 <= heap_size(*old(heap))
            && 32 <= heap_size(*old(heap)) ==> r == Some(heap_bottom(*old(heap)) as usize),
        heap_free(*old(heap)) == span(heap_bottom(*old(heap)), heap_size(*old(heap)) as int)
            && size + align + 48 <= heap_size(*old(heap)) && align + 64 <= heap_size(*old(heap))
            ==> r is Some,
{
    match Layout::from_size_align(size, align) {
        Ok(layout) => heap.allocate_first_fit(layout).ok().map(|p| p.addr().get()),
        Err(_) => None,
    }
}

/// The smallest region that the heap accepts.
pub const MIN_HEAP_REGION: usize = 64;

/// Why a heap operation was refused.
#[derive(Debug, Copy, Clone, PartialEq, Eq, Structural)]
pub enum HeapError {
    /// The heap was installed before: installing it again is a fatal error.
    AlreadyInstalled,
    /// The region offered is smaller than `MIN_HEAP_REGION`.
    RegionTooSmall,
    /// An allocation was requested before the heap was installed.
    NotInstalled,
    /// The alignment is not a power of two, or the size rounded up overflows.
    InvalidLayout,
    /// No free block fits the request: a fatal error naming the request.
    OutOfMemory { size: usize, align: usize },
}

/// The out-of-memory error for a request of `size` bytes aligned to `align`.
pub fn oom(size: usize, align: usize) -> (r: HeapError)
    ensures
        r == (HeapError::OutOfMemory { size, align }),
{
    HeapError::OutOfMemory { size, align }
}

/// Whether `n` is a power of two.
fn is_power_of_two(n: usize) -> (r: bool)
    ensures
        r == is_pow2(n as int),
    decreases n,
{
    proof {
        reveal_with_fuel(is_pow2, 2);
    }
    if n == 0 {
        false
    } else if n == 1 {
        true
    } else {
        n % 2 == 0 && is_power_of_two(n / 2)
    }
}

/// Whether `size` and `align` form a valid memory layout: the alignment is a
/// power of two and the size, rounded up to it, does not exceed `isize::MAX`.
pub fn layout_is_valid(size: usize, align: usize) -> (r: bool)
    ensures
        r == valid_layout(size, align),
{
    if !is_power_of_two(align) {
        return false;
    }
    proof {
        reveal_with_fuel(is_pow2, 2);
    }
    let max: usize = isize::MAX as usize;
    assert(max % align <= max) by (nonlinear_arith)
        requires
            align > 0,
    ;
    size <= max - max % align
}

/// What installing a region of `len` bytes yields, given whether a region was
/// installed before.
pub open spec fn install_outcome(installed: bool, len: nat) -> Result<(), HeapError> {
    if installed {
        Err(HeapError::AlreadyInstalled)
    } else if len < MIN_HEAP_REGION {
        Err(HeapError::RegionTooSmall)
    } else {
        Ok(())
    }
}

/// What an allocation of `size` bytes aligned to `align` returns on an
/// installed heap whose first-fit search found `found`.
pub open spec fn allocation_outcome(found: Option<usize>, size: usize, align: usize) -> Result<usize, HeapError> {
    match found {
        Some(addr) => Ok(addr),
        None => Err(HeapError::OutOfMemory { size, align }),
    }
}

/// The result of an allocation on an installed heap, from what the first-fit
/// search found: the block's address, or `OutOfMemory` naming the request.
pub fn allocation_result(found: Option<usize>, size: usize, align: usize) -> (r: Result<usize, HeapError>)
    ensures
        r == allocation_outcome(found, size, align),
{
    match found {
        Some(addr) => Ok(addr),
        None => Err(oom(size, align)),
    }
}

/// The global heap: empty until a region is installed, once.
pub struct RuntimeHeap {
    heap: Option<Heap>,
    reserved: usize,
}

impl RuntimeHeap {
    /// Whether a region has been installed.
    pub closed spec fn installed(&self) -> bool {
        self.heap is Some
    }

    /// The size of the installed region; zero before installation.
    pub closed spec fn reserved(&self) -> nat {
        self.reserved as nat
    }

    /// The installed allocator.
    pub closed spec fn allocator(&self) -> Heap {
        self.heap.unwrap()
    }

    /// The addresses from which the allocator hands out blocks.
    pub open spec fn region(&self) -> Set<int> {
        span(heap_bottom(self.allocator()), heap_size(self.allocator()) as int)
    }

    /// The addresses not handed out: the allocator's free blocks.
    pub open spec fn free(&self) -> Set<int> {
        heap_free(self.allocator())
    }

    /// Nothing has been handed out yet: the whole region is free.
    pub open spec fn fresh(&self) -> bool {
        self.installed() && self.free() == self.region()
    }

    /// Well-formed: the allocator's usable range is the region less at most a
    /// few bytes of alignment, starts word-aligned, and holds all free memory.
    pub closed spec fn wf(&self) -> bool {
        match self.heap {
            Some(h) => {
                &&& heap_size(h) <= self.reserved <= heap_size(h) + 16
                &&& self.reserved >= MIN_HEAP_REGION
                &&& heap_bottom(h) % 4 == 0
                &&& heap_free(h).subset_of(span(heap_bottom(h), heap_size(h) as int))
            },
            None => self.reserved == 0,
        }
    }

    /// A heap with no region installed.
    pub fn new() -> (r: RuntimeHeap)
        ensures
            r.wf(),
            !r.installed(),
            r.reserved() == 0,
    {
        RuntimeHeap { heap: None, reserved: 0 }
    }

    /// Whether a region has been installed.
    pub fn is_installed(&self) -> (r: bool)
        ensures
            r == self.installed(),
    {
        self.heap.is_some()
    }

    /// Installs `mem` as the heap region. Fails with `AlreadyInstalled` on every
    /// call after a successful one, and with `RegionTooSmall` for a region under
    /// `MIN_HEAP_REGION` bytes; on failure the heap is left as it was.
    pub fn install(&mut self, mem: &'static mut [MaybeUninit<u8>]) -> (r: Result<(), HeapError>)
        requires
            old(self).wf(),
        ensures
            final(self).wf(),
            r == install_outcome(old(self).installed(), old(mem)@.len()),
            r is Ok ==> final(self).installed() && final(self).reserved() == old(mem)@.len()
                && final(self).fresh(),
            r is Err ==> *final(self) == *old(self),
    {
        if self.heap.is_some() {
            return Err(HeapError::AlreadyInstalled);
        }
        let len = mem.len();
        if len < MIN_HEAP_REGION {
            return Err(HeapError::RegionTooSmall);
        }
        let heap = heap_from_slice(mem);
        self.heap = Some(heap);
        self.reserved = len;
        Ok(())
    }

    /// The installed allocator, for the operations that hand memory back to it.
    /// The allocator may be changed through the reference, so the heap is no
    /// longer known to be well-formed afterwards.
    pub fn allocator_mut(&mut self) -> (r: Option<&mut Heap>)
        ensures
            r is Some <==> old(self).installed(),
            final(self).installed() == old(self).installed(),
            final(self).reserved() == old(self).reserved(),
    {
        self.heap.as_mut()
    }

    /// Allocates `size` bytes aligned to `align`, returning the block's address.
    /// On an installed heap with a valid layout the result is the first-fit
    /// search's block, or `OutOfMemory` naming the request: always so for a
    /// request larger than the region or one whose search would run past the end
    /// of the address space, never so for a request that fits a fresh heap with
    /// room for its alignment padding and the allocator's bookkeeping. A block handed out lies in the region, in memory
    /// that was free, and is free no longer.
    pub fn allocate(&mut self, size: usize, align: usize) -> (r: Result<usize, HeapError>)
        requires
            old(self).wf(),
        ensures
            final(self).wf(),
            final(self).installed() == old(self).installed(),
            final(self).reserved() == old(self).reserved(),
            !old(self).installed() ==> r == Err::<usize, HeapError>(HeapError::NotInstalled),
            old(self).installed() && !valid_layout(size, align) ==> r == Err::<usize, HeapError>(HeapError::InvalidLayout),
            old(self).installed() && valid_layout(size, align) && addressable(old(self).allocator(), size, align)
                ==> r == allocation_outcome(first_fit_of(old(self).allocator(), size, align), size, align),
            old(self).installed() && valid_layout(size, align) && !addressable(old(self).allocator(), size, align)
                ==> r == Err::<usize, HeapError>(HeapError::OutOfMemory { size, align }),
            old(self).installed() && valid_layout(size, align) && size > old(self).reserved()
                ==> r == Err::<usize, HeapError>(HeapError::OutOfMemory { size, align }),
            old(self).fresh() && valid_layout(size, align) && addressable(old(self).allocator(), size, align)
                && size + align + 64 <= old(self).reserved() && align + 80 <= old(self).reserved()
                ==> r is Ok,
            old(self).installed() ==> final(self).free().subset_of(old(self).free()),
            old(self).installed() ==> final(self).region() == old(self).region(),
            r is Err ==> final(self).free() == old(self).free(),
            r matches Ok(addr) ==> addr % align == 0 && addr != 0
                && span(addr as int, size as int).subset_of(old(self).region())
                && span(addr as int, size as int).subset_of(old(self).free())
                && span(addr as int, size as int).disjoint(final(self).free()),
    {
        match self.heap.as_mut() {
            None => Err(HeapError::NotInstalled),
            Some(heap) => {
                if !layout_is_valid(size, align) {
                    return Err(HeapError::InvalidLayout);
                }
                let bottom = bottom_address_of(heap);
                let len = usable_size_of(heap);
                if !fits_address_space(bottom, len, size, align) {
                    return Err(oom(size, align));
                }
                let ghost h0 = *heap;
                let found = heap_allocate(heap, size, align);
                proof {
                    if let Some(addr) = found {
                        if size > heap_size(h0) {
                            let first = addr as int;
                            let last = addr + size - 1;
                            assert(span(addr as int, size as int).contains(first));
                            assert(span(addr as int, size as int).contains(last));
                            assert(heap_free(h0).contains(first) && heap_free(h0).contains(last));
                        }
                    }
                }
                allocation_result(found, size, align)
            },
        }
    }
}

/// Blocks handed out by successive allocations never overlap: the first block
/// left the free memory, free memory only shrinks between the calls, and the
/// second block is cut from free memory.
pub proof fn lemma_live_blocks_disjoint(
    after_first: RuntimeHeap,
    before_second: RuntimeHeap,
    a: int,
    size_a: int,
    b: int,
    size_b: int,
)
    requires
        span(a, size_a).disjoint(after_first.free()),
        before_second.free().subset_of(after_first.free()),
        span(b, size_b).subset_of(before_second.free()),
    ensures
        span(a, size_a).disjoint(span(b, size_b)),
{
    assert forall|x: int| span(b, size_b).contains(x) implies !span(a, size_a).contains(x) by {
        assert(before_second.free().contains(x));
    }
}

} // verus!
