use vulkayes_core::memory::device::allocation::DeviceMemoryAllocation;
use vulkayes_core::memory::device::map::MappingError;
use vulkayes_core::memory::device::mapped::{DeviceMemoryMappingAccess, MappingAccessResult, SliceWriteStride};
use vulkayes_core::memory::device::naive::{AllocationError, MemoryRequirements, NaiveDeviceMemoryAllocator};
use vulkayes_core::memory::host::rust::{reallocation_action, HostAllocationLayout, ReallocationAction, RustHostMemoryAllocator};
use vulkayes_core::memory::host::HostMemoryAllocator;
use vulkayes_core::physical_device::enumerate::{MemoryHeap, MemoryType, PhysicalDeviceMemoryProperties};

fn u32_bytes(values: &[u32]) -> Vec<u8> {
    values.iter().flat_map(|v| v.to_ne_bytes()).collect()
}

#[test]
fn stride_for_u32() {
    assert_eq!(SliceWriteStride::Implicit.for_t::<u32>(), 4);
    assert_eq!(SliceWriteStride::Align(8).for_t::<u32>(), 8);
    assert_eq!(SliceWriteStride::Align(2).for_t::<u32>(), 4);
    assert_eq!(SliceWriteStride::Align(3).for_t::<u32>(), 4);
    assert_eq!(SliceWriteStride::Align(0).for_t::<u32>(), 4);
    assert_eq!(SliceWriteStride::Stride(2).for_t::<u32>(), 4);
    assert_eq!(SliceWriteStride::Stride(6).for_t::<u32>(), 6);
    assert_eq!(SliceWriteStride::Align(16).for_t::<[u8; 20]>(), 32);
    assert_eq!(SliceWriteStride::Stride(3).for_t::<()>(), 3);
    assert_eq!(SliceWriteStride::default(), SliceWriteStride::Implicit);
}

#[test]
fn write_slice_implicit_is_contiguous() {
    let mut memory = vec![0xAAu8; 16];
    let data = u32_bytes(&[1, 2]);
    let mut access = DeviceMemoryMappingAccess::new(&mut memory, 7, 64);
    access.write_slice::<u32>(&data, 4, SliceWriteStride::Implicit);
    assert_eq!(access.size(), 16);
    assert_eq!(access.memory(), 7);
    assert_eq!(access.bind_offset(), 64);
    let mut expected = vec![0xAAu8; 16];
    expected[4 .. 12].copy_from_slice(&data);
    assert_eq!(memory, expected);
}

#[test]
fn write_slice_with_stride_leaves_gaps() {
    let mut memory = vec![0u8; 20];
    let data = u32_bytes(&[0x01010101, 0x02020202, 0x03030303]);
    let mut access = DeviceMemoryMappingAccess::new(&mut memory, 1, 0);
    access.write_slice::<u32>(&data, 0, SliceWriteStride::Stride(8));
    // Three values need 24 bytes at stride 8; only two fit in 20 bytes.
    assert_eq!(
        memory,
        vec![1, 1, 1, 1, 0, 0, 0, 0, 2, 2, 2, 2, 0, 0, 0, 0, 0, 0, 0, 0]
    );
}

#[test]
fn write_slice_aligned_stride() {
    let mut memory = vec![9u8; 16];
    let data = vec![1u8, 2, 3];
    let mut access = DeviceMemoryMappingAccess::new(&mut memory, 1, 0);
    access.write_slice::<u8>(&data, 2, SliceWriteStride::Align(4));
    assert_eq!(memory, vec![9, 9, 1, 9, 9, 9, 2, 9, 9, 9, 3, 9, 9, 9, 9, 9]);
}

#[test]
fn write_slice_offset_past_end_writes_nothing() {
    let mut memory = vec![5u8; 8];
    let data = u32_bytes(&[7, 8]);
    let mut access = DeviceMemoryMappingAccess::new(&mut memory, 1, 0);
    access.write_slice::<u32>(&data, 100, SliceWriteStride::Implicit);
    assert_eq!(memory, vec![5u8; 8]);
}

#[test]
fn write_slice_stops_at_the_end() {
    let mut memory = vec![0u8; 6];
    let data = u32_bytes(&[0x04030201, 0x08070605]);
    let mut access = DeviceMemoryMappingAccess::new(&mut memory, 1, 0);
    access.write_slice::<u32>(&data, 1, SliceWriteStride::Implicit);
    let mut expected = vec![0u8; 6];
    expected[1 .. 5].copy_from_slice(&0x04030201u32.to_ne_bytes());
    assert_eq!(memory, expected);
}

#[test]
fn mapping_range_covers_mapping() {
    let mut memory = vec![0u8; 32];
    let access = DeviceMemoryMappingAccess::new(&mut memory, 3, 128);
    let range = access.mapped_memory_range();
    assert_eq!((range.memory, range.offset, range.size), (3, 128, 32));
}

#[test]
fn allocation_mapping_state() {
    let mut allocation = DeviceMemoryAllocation::new(11, 256, 1024);
    assert_eq!(allocation.memory(), 11);
    assert_eq!(allocation.bind_offset(), 256);
    assert_eq!(allocation.size(), 1024);
    assert!(!allocation.is_mapped());
    assert!(!allocation.unmap());

    assert!(allocation.access_needs_map());
    allocation.record_mapped();
    assert!(allocation.is_mapped());
    assert!(!allocation.finish_access(MappingAccessResult::Continue));
    assert!(allocation.is_mapped());
    assert!(!allocation.access_needs_map());
    assert!(allocation.finish_access(MappingAccessResult::Unmap));
    assert!(!allocation.is_mapped());

    allocation.record_mapped();
    assert!(allocation.unmap());
    assert!(!allocation.unmap());

    let range = allocation.mapping_range();
    assert_eq!((range.memory, range.offset, range.size), (11, 256, 1024));
}

fn properties(types: &[u32]) -> PhysicalDeviceMemoryProperties {
    let mut memory_types = [MemoryType { property_flags: 0, heap_index: 0 }; 32];
    for (index, flags) in types.iter().enumerate() {
        memory_types[index] = MemoryType { property_flags: *flags, heap_index: index as u32 };
    }
    let mut memory_heaps = [MemoryHeap { size: 0, flags: 0 }; 16];
    memory_heaps[0] = MemoryHeap { size: 1 << 30, flags: 1 };
    PhysicalDeviceMemoryProperties::from_raw(memory_types, types.len() as u32, memory_heaps, 1)
}

#[test]
fn memory_properties_keep_reported_entries() {
    let properties = properties(&[1, 6, 7]);
    assert_eq!(properties.memory_types().len(), 3);
    assert_eq!(properties.memory_types()[1], MemoryType { property_flags: 6, heap_index: 1 });
    assert_eq!(properties.memory_heaps(), &[MemoryHeap { size: 1 << 30, flags: 1 }]);
    let copy = properties.clone();
    assert_eq!(copy.memory_types(), properties.memory_types());
}

#[test]
fn find_memory_index_picks_first_suitable() {
    // DEVICE_LOCAL = 1, HOST_VISIBLE = 2, HOST_COHERENT = 4
    let allocator = NaiveDeviceMemoryAllocator::new((), properties(&[1, 6, 7]));
    assert_eq!(allocator.find_memory_index(0b111, 6), Ok(1));
    assert_eq!(allocator.find_memory_index(0b101, 6), Ok(2));
    assert_eq!(allocator.find_memory_index(0b111, 1), Ok(0));
    assert_eq!(allocator.find_memory_index(0b110, 0), Ok(1));
    assert_eq!(allocator.find_memory_index(0b011, 7), Err(AllocationError::NoSuitableMemoryType));
    assert_eq!(allocator.find_memory_index(0b1000, 0), Err(AllocationError::NoSuitableMemoryType));
}

#[test]
fn allocation_info_uses_requirements() {
    let allocator = NaiveDeviceMemoryAllocator::new(42u32, properties(&[1, 6]));
    assert_eq!(*allocator.device(), 42);
    let info = allocator
        .allocation_info(MemoryRequirements { size: 4096, alignment: 256, memory_type_bits: 0b10 }, 2)
        .unwrap();
    assert_eq!((info.allocation_size, info.memory_type_index), (4096, 1));
    assert_eq!(
        allocator.allocation_info(MemoryRequirements { size: 4096, alignment: 256, memory_type_bits: 0b01 }, 2),
        Err(AllocationError::NoSuitableMemoryType)
    );
}

#[test]
fn allocation_error_codes() {
    assert_eq!(AllocationError::from_vk_result(-1), Some(AllocationError::ERROR_OUT_OF_HOST_MEMORY));
    assert_eq!(AllocationError::from_vk_result(-10), Some(AllocationError::ERROR_TOO_MANY_OBJECTS));
    assert_eq!(
        AllocationError::from_vk_result(-1000257000),
        Some(AllocationError::ERROR_INVALID_OPAQUE_CAPTURE_ADDRESS)
    );
    assert_eq!(AllocationError::from_vk_result(-5), None);
    assert_eq!(MappingError::from_vk_result(-5), Some(MappingError::ERROR_MEMORY_MAP_FAILED));
    assert_eq!(MappingError::from_vk_result(0), None);
}

#[test]
fn host_registry_tracks_allocations() {
    let mut registry = RustHostMemoryAllocator::new();
    let layout = HostAllocationLayout { size: 64, align: 16 };
    registry.record_allocation(0x1000, layout);
    assert!(registry.contains(0x1000));
    assert_eq!(registry.len(), 1);

    let old = registry.begin_reallocation(0x1000);
    assert_eq!(old, layout);
    assert!(registry.contains(0x1000));
    registry.finish_reallocation(0x1000, 0x2000, 128);
    assert!(registry.contains(0x2000));
    assert!(!registry.contains(0x1000));

    assert_eq!(registry.begin_deallocation(0), None);
    assert_eq!(registry.begin_deallocation(0x2000), Some(HostAllocationLayout { size: 128, align: 16 }));
    assert_eq!(registry.len(), 0);
}

#[test]
fn failed_reallocation_keeps_old_layout() {
    let mut registry = RustHostMemoryAllocator::new();
    let layout = HostAllocationLayout { size: 32, align: 8 };
    registry.record_allocation(0x40, layout);
    assert_eq!(registry.begin_reallocation(0x40), layout);
    registry.finish_reallocation(0x40, 0, 4096);
    assert!(registry.contains(0x40));
    assert!(!registry.contains(0));
    assert_eq!(registry.len(), 1);
    assert_eq!(registry.begin_deallocation(0x40), Some(layout));
    assert_eq!(registry.len(), 0);
}

#[test]
fn reallocation_actions() {
    assert_eq!(reallocation_action(0, 16), ReallocationAction::Allocate);
    assert_eq!(reallocation_action(0, 0), ReallocationAction::Allocate);
    assert_eq!(reallocation_action(0x10, 0), ReallocationAction::Free);
    assert_eq!(reallocation_action(0x10, 8), ReallocationAction::Reallocate);
}

#[test]
fn host_memory_allocator_default_is_unspecified() {
    let allocator = HostMemoryAllocator::default();
    assert!(allocator.as_ref().is_none());
    assert!(allocator.into().is_none());
}

#[test]
fn mapping_bytes_mut_writes_through() {
    let mut memory = [0u8; 4];
    {
        let mut access = DeviceMemoryMappingAccess::new(&mut memory, 3, 16);
        access.bytes_mut()[2] = 9;
        assert_eq!(access.bytes_mut(), &[0, 0, 9, 0]);
        assert_eq!((access.memory(), access.bind_offset(), access.size()), (3, 16, 4));
    }
    assert_eq!(memory, [0, 0, 9, 0]);
}
