//! Bookkeeping for a host allocator backed by Rust's global allocator.
//!
//! Vulkan frees and reallocates memory by pointer alone, while Rust's allocator
//! needs the layout an allocation was made with. This registry remembers the
//! layout of every live allocation, keyed by its address.

use std::collections::HashMap;
use vstd::prelude::*;

verus! {

broadcast use vstd::std_specs::hash::group_hash_axioms;

/// The size and alignment an allocation was made with.
#[derive(Clone, Copy, Debug, PartialEq, Eq, Structural)]
pub struct HostAllocationLayout {
    pub size: usize,
    pub align: usize,
}

/// What a Vulkan reallocation request asks of the allocator.
#[derive(Clone, Copy, Debug, PartialEq, Eq, Structural)]
pub enum ReallocationAction {
    /// There is no original allocation: allocate anew.
    Allocate,
    /// The new size is zero: free the original allocation and return null.
    Free,
    /// Resize the original allocation.
    Reallocate,
}

/// Decides how to serve `pfnReallocation(original, size, ..)`: a null `original`
/// allocates, a zero `size` frees, anything else reallocates.
pub fn reallocation_action(original: u64, size: usize) -> (r: ReallocationAction)
    ensures
        original == 0 ==> r == ReallocationAction::Allocate,
        original != 0 && size == 0 ==> r == ReallocationAction::Free,
        original != 0 && size != 0 ==> r == ReallocationAction::Reallocate,
{
    if original == 0 {
        ReallocationAction::Allocate
    } else if size == 0 {
        ReallocationAction::Free
    } else {
        ReallocationAction::Reallocate
    }
}

/// The registry after a reallocation of the live allocation `ptr` to `new_size`
/// bytes returned `new_ptr`.
///
/// On success (`new_ptr` is not null) the record moves from `ptr` to `new_ptr`, with
/// the new size and the original alignment. On failure the original allocation stays
/// valid, so the registry is left as it was.
pub open spec fn registry_after_realloc(
    registry: Map<u64, HostAllocationLayout>,
    ptr: u64,
    new_ptr: u64,
    new_size: usize,
) -> Map<u64, HostAllocationLayout> {
    if new_ptr != 0 {
        registry.remove(ptr).insert(
            new_ptr,
            HostAllocationLayout { size: new_size, align: registry[ptr].align },
        )
    } else {
        registry
    }
}

/// The layouts of the live allocations of a Rust-backed host allocator.
pub struct RustHostMemoryAllocator {
    ptr_map: HashMap<u64, HostAllocationLayout>,
}

impl RustHostMemoryAllocator {
    /// The recorded layout of each allocation, by address.
    pub closed spec fn view(&self) -> Map<u64, HostAllocationLayout> {
        self.ptr_map@
    }

    /// A registry with no allocations.
    pub fn new() -> (r: Self)
        ensures
            r@ == Map::<u64, HostAllocationLayout>::empty(),
    {
        RustHostMemoryAllocator { ptr_map: HashMap::new() }
    }

    /// Records that `ptr` was returned by an allocation with `layout` (a null
    /// `ptr`, from a failed allocation, is recorded too).
    pub fn record_allocation(&mut self, ptr: u64, layout: HostAllocationLayout)
        ensures
            final(self)@ == old(self)@.insert(ptr, layout),
    {
        self.ptr_map.insert(ptr, layout);
    }

    /// The layout the live allocation `ptr` was made with, which reallocating it needs.
    pub fn begin_reallocation(&self, ptr: u64) -> (r: HostAllocationLayout)
        requires
            self@.contains_key(ptr),
        ensures
            r == self@[ptr],
    {
        match self.ptr_map.get(&ptr) {
            Some(layout) => *layout,
            None => {
                proof {
                    assert(false);
                }
                HostAllocationLayout { size: 0, align: 1 }
            },
        }
    }

    /// Finishes a reallocation of the live allocation `ptr` to `new_size` bytes that
    /// returned `new_ptr`: moves the record to `new_ptr` when it succeeded, and keeps
    /// everything as it was when it failed (null `new_ptr`).
    pub fn finish_reallocation(&mut self, ptr: u64, new_ptr: u64, new_size: usize)
        requires
            old(self)@.contains_key(ptr),
        ensures
            final(self)@ == registry_after_realloc(old(self)@, ptr, new_ptr, new_size),
    {
        if new_ptr != 0 {
            let layout = match self.ptr_map.remove(&ptr) {
                Some(layout) => layout,
                None => {
                    proof {
                        assert(false);
                    }
                    HostAllocationLayout { size: 0, align: 1 }
                },
            };
            self.ptr_map.insert(new_ptr, HostAllocationLayout { size: new_size, align: layout.align });
        }
    }

    /// Starts freeing `ptr`: forgets it and returns the layout to free it with, or
    /// nothing for a null `ptr`, which needs no freeing.
    pub fn begin_deallocation(&mut self, ptr: u64) -> (r: Option<HostAllocationLayout>)
        requires
            ptr != 0 ==> old(self)@.contains_key(ptr),
        ensures
            ptr == 0 ==> r.is_none() && final(self)@ == old(self)@,
            ptr != 0 ==> r == Some(old(self)@[ptr]) && final(self)@ == old(self)@.remove(ptr),
    {
        if ptr == 0 {
            return None;
        }
        match self.ptr_map.remove(&ptr) {
            Some(layout) => Some(layout),
            None => {
                proof {
                    assert(false);
                }
                None
            },
        }
    }

    /// Whether `ptr` is a recorded allocation.
    pub fn contains(&self, ptr: u64) -> (r: bool)
        ensures
            r == self@.contains_key(ptr),
    {
        self.ptr_map.contains_key(&ptr)
    }

    /// The number of recorded allocations.
    pub fn len(&self) -> (r: usize)
        ensures
            r == self@.len(),
    {
        self.ptr_map.len()
    }
}

/// Freeing an allocation gives back the layout it was made with: after recording an
/// allocation at a new, non-null address, freeing that address yields its layout and
/// leaves the registry as it was before the allocation.
pub proof fn lemma_free_returns_allocation_layout(
    registry: Map<u64, HostAllocationLayout>,
    ptr: u64,
    layout: HostAllocationLayout,
)
    requires
        ptr != 0,
        !registry.contains_key(ptr),
    ensures
        registry.insert(ptr, layout).contains_key(ptr),
        registry.insert(ptr, layout)[ptr] == layout,
        registry.insert(ptr, layout).remove(ptr) == registry,
{
    assert(registry.insert(ptr, layout).remove(ptr) =~= registry);
}

/// A successful reallocation moves the record: the new address is recorded with the
/// new size and the original alignment, the old address is forgotten (unless the
/// allocation stayed in place), and every other allocation is untouched.
pub proof fn lemma_reallocation_moves_record(
    registry: Map<u64, HostAllocationLayout>,
    ptr: u64,
    new_ptr: u64,
    new_size: usize,
    other: u64,
)
    requires
        registry.contains_key(ptr),
        new_ptr != 0,
    ensures
        ({
            let after = registry_after_realloc(registry, ptr, new_ptr, new_size);
            &&& after[new_ptr] == (HostAllocationLayout { size: new_size, align: registry[ptr].align })
            &&& ptr != new_ptr ==> !after.contains_key(ptr)
            &&& other != ptr && other != new_ptr ==> (after.contains_key(other) == registry.contains_key(
                other,
            ) && (registry.contains_key(other) ==> after[other] == registry[other]))
        }),
{
}

/// A failed reallocation (a null result) leaves the original allocation live: it is
/// still recorded with its layout, so freeing it later finds that layout, and no
/// record is added for the null address.
pub proof fn lemma_failed_reallocation_keeps_allocation(
    registry: Map<u64, HostAllocationLayout>,
    ptr: u64,
    new_size: usize,
)
    requires
        registry.contains_key(ptr),
    ensures
        registry_after_realloc(registry, ptr, 0, new_size) == registry,
        registry_after_realloc(registry, ptr, 0, new_size).contains_key(ptr),
        registry_after_realloc(registry, ptr, 0, new_size)[ptr] == registry[ptr],
        registry_after_realloc(registry, ptr, 0, new_size).contains_key(0) == registry.contains_key(0),
{
}

} // verus!
