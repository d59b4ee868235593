//! A device memory allocation and the state of its host mapping.

use vstd::prelude::*;

use super::mapped::{MappedMemoryRange, MappingAccessResult};

verus! {

/// A region of a `vk::DeviceMemory` object bound to one resource, and whether
/// that region is currently mapped into host memory.
///
/// The mapping itself is made and released by the allocator that produced the
/// region; this type decides when that has to happen.
pub struct DeviceMemoryAllocation {
    memory: u64,
    bind_offset: u64,
    size: u64,
    mapped: bool,
}

impl DeviceMemoryAllocation {
    #[verifier::type_invariant]
    spec fn wf(&self) -> bool {
        self.size > 0
    }

    pub closed spec fn memory_handle(&self) -> u64 {
        self.memory
    }

    pub closed spec fn bind_offset_value(&self) -> u64 {
        self.bind_offset
    }

    pub closed spec fn size_value(&self) -> u64 {
        self.size
    }

    /// Whether the region is currently mapped.
    pub closed spec fn mapped_state(&self) -> bool {
        self.mapped
    }

    /// A new, unmapped allocation of `size` bytes of `memory` starting at `bind_offset`.
    pub fn new(memory: u64, bind_offset: u64, size: u64) -> (r: Self)
        requires
            size > 0,
        ensures
            r.memory_handle() == memory,
            r.bind_offset_value() == bind_offset,
            r.size_value() == size,
            !r.mapped_state(),
    {
        DeviceMemoryAllocation { memory, bind_offset, size, mapped: false }
    }

    pub fn memory(&self) -> (r: u64)
        ensures
            r == self.memory_handle(),
    {
        self.memory
    }

    pub fn bind_offset(&self) -> (r: u64)
        ensures
            r == self.bind_offset_value(),
    {
        self.bind_offset
    }

    /// The size of the region in bytes; never zero.
    pub fn size(&self) -> (r: u64)
        ensures
            r == self.size_value(),
            r > 0,
    {
        proof {
            use_type_invariant(self);
        }
        self.size
    }

    /// Returns true if this memory is currently mapped.
    pub fn is_mapped(&self) -> (r: bool)
        ensures
            r == self.mapped_state(),
    {
        self.mapped
    }

    /// Marks the memory unmapped.
    ///
    /// Returns whether the memory was mapped, which is exactly when the mapping has
    /// to be released.
    pub fn unmap(&mut self) -> (was_mapped: bool)
        ensures
            was_mapped == old(self).mapped_state(),
            !final(self).mapped_state(),
            operation_calls(old(self).mapped_state(), MappingOperation::Unmap) == (if was_mapped {
                seq![MappingCall::UnmapMemory]
            } else {
                seq![]
            }, final(self).mapped_state()),
            final(self).memory_handle() == old(self).memory_handle(),
            final(self).bind_offset_value() == old(self).bind_offset_value(),
            final(self).size_value() == old(self).size_value(),
    {
        proof {
            use_type_invariant(&*self);
        }
        let was_mapped = self.mapped;
        self.mapped = false;
        was_mapped
    }

    /// Whether an access has to map the memory first (it is not mapped yet).
    pub fn access_needs_map(&self) -> (r: bool)
        ensures
            r == !self.mapped_state(),
    {
        !self.mapped
    }

    /// Records that mapping the memory succeeded. The memory is only ever mapped
    /// while it is unmapped.
    pub fn record_mapped(&mut self)
        requires
            !old(self).mapped_state(),
        ensures
            final(self).mapped_state(),
            final(self).memory_handle() == old(self).memory_handle(),
            final(self).bind_offset_value() == old(self).bind_offset_value(),
            final(self).size_value() == old(self).size_value(),
    {
        proof {
            use_type_invariant(&*self);
        }
        self.mapped = true;
    }

    /// Finishes an access that returned `result`.
    ///
    /// Returns whether the mapping has to be released now, which is when the accessor
    /// asked for it; the memory stays mapped otherwise.
    pub fn finish_access(&mut self, result: MappingAccessResult) -> (unmap: bool)
        requires
            old(self).mapped_state(),
        ensures
            operation_calls(
                true,
                MappingOperation::Access { map_succeeds: true, result },
            ) == (if unmap {
                seq![MappingCall::UnmapMemory]
            } else {
                seq![]
            }, final(self).mapped_state()),
            unmap == (result == MappingAccessResult::Unmap),
            final(self).mapped_state() == !unmap,
            final(self).memory_handle() == old(self).memory_handle(),
            final(self).bind_offset_value() == old(self).bind_offset_value(),
            final(self).size_value() == old(self).size_value(),
    {
        proof {
            use_type_invariant(&*self);
        }
        match result {
            MappingAccessResult::Continue => false,
            MappingAccessResult::Unmap => {
                self.mapped = false;
                true
            },
        }
    }

    /// The range a mapping of this allocation covers: `size` bytes of the memory
    /// object from `bind_offset`.
    pub fn mapping_range(&self) -> (r: MappedMemoryRange)
        ensures
            r.memory == self.memory_handle(),
            r.offset == self.bind_offset_value(),
            r.size == self.size_value(),
    {
        MappedMemoryRange { memory: self.memory, offset: self.bind_offset, size: self.size }
    }
}

/// A call an allocation makes to its allocator's mapping functions.
#[derive(Clone, Copy, Debug, PartialEq, Eq, Structural)]
pub enum MappingCall {
    /// A mapping was made.
    MapMemory,
    /// The mapping was released.
    UnmapMemory,
}

/// One operation on an allocation's mapping.
#[derive(Clone, Copy, Debug, PartialEq, Eq, Structural)]
pub enum MappingOperation {
    /// `unmap`, or dropping the allocation.
    Unmap,
    /// An access; `map_succeeds` tells whether mapping succeeds if it is needed, and
    /// `result` what the accessor returns.
    Access { map_succeeds: bool, result: MappingAccessResult },
}

/// The mapping calls one operation makes on memory that is `mapped` or not, and
/// whether the memory is mapped afterwards.
///
/// `unmap` releases a mapping exactly when there is one. An access maps the memory
/// if it is not mapped (and stops if that fails), then releases the mapping if the
/// accessor asks for it.
pub open spec fn operation_calls(mapped: bool, op: MappingOperation) -> (Seq<MappingCall>, bool) {
    match op {
        MappingOperation::Unmap => (if mapped {
            seq![MappingCall::UnmapMemory]
        } else {
            seq![]
        }, false),
        MappingOperation::Access { map_succeeds, result } => {
            if !mapped && !map_succeeds {
                (seq![], false)
            } else {
                let mapping = if mapped {
                    seq![]
                } else {
                    seq![MappingCall::MapMemory]
                };
                if result == MappingAccessResult::Unmap {
                    (mapping.push(MappingCall::UnmapMemory), false)
                } else {
                    (mapping, true)
                }
            }
        },
    }
}

/// The mapping calls a sequence of operations makes, starting from memory that is
/// `mapped` or not, and whether the memory is mapped at the end.
pub open spec fn run_calls(mapped: bool, ops: Seq<MappingOperation>) -> (Seq<MappingCall>, bool)
    decreases ops.len(),
{
    if ops.len() == 0 {
        (seq![], mapped)
    } else {
        let (before, state) = run_calls(mapped, ops.drop_last());
        let (last, after) = operation_calls(state, ops.last());
        (before + last, after)
    }
}

/// Whether `calls` alternate between mapping and unmapping, beginning with a map
/// when the memory starts unmapped and with an unmap when it starts mapped.
pub open spec fn alternating(calls: Seq<MappingCall>, start_mapped: bool) -> bool {
    forall|i: int|
        0 <= i < calls.len() ==> (#[trigger] calls[i] == MappingCall::MapMemory <==> (i % 2 == 0) == !start_mapped)
}

/// Maps and unmaps come in pairs: whatever operations run on an allocation, the
/// calls to its mapping functions alternate (so every mapping is released at most
/// once, and the memory is never mapped twice), and the memory ends up mapped
/// exactly when the last call made a mapping.
pub proof fn lemma_mapping_calls_alternate(mapped: bool, ops: Seq<MappingOperation>)
    ensures
        alternating(run_calls(mapped, ops).0, mapped),
        run_calls(mapped, ops).1 == if run_calls(mapped, ops).0.len() == 0 {
            mapped
        } else {
            run_calls(mapped, ops).0.last() == MappingCall::MapMemory
        },
    decreases ops.len(),
{
    if ops.len() > 0 {
        lemma_mapping_calls_alternate(mapped, ops.drop_last());
        let (before, state) = run_calls(mapped, ops.drop_last());
        let (last, after) = operation_calls(state, ops.last());
        let calls = before + last;
        // The state before the last operation tells the parity of the calls so far.
        assert(state == ((before.len() % 2 == 1) != mapped)) by {
            if before.len() > 0 {
                let k = before.len() - 1;
                assert(before[k] == before.last());
            }
        }
        assert forall|i: int| 0 <= i < calls.len() implies (#[trigger] calls[i] == MappingCall::MapMemory
            <==> (i % 2 == 0) == !mapped) by {
            if i < before.len() {
                assert(calls[i] == before[i]);
            } else {
                assert(calls[i] == last[i - before.len()]);
            }
        }
        if last.len() > 0 {
            assert(calls.last() == last.last());
        }
    }
}

} // verus!
