use vulkayes_core::command::buffer::recording::{subpass_contents, CommandBufferBeginInfo};
use vulkayes_core::command::buffer::{command_buffer_level, command_buffer_reset_flags};
use vulkayes_core::command::error::{CommandBufferError, CommandPoolError};
use vulkayes_core::command::pool::{allocation_count, allocation_level, command_pool_create_flags, command_pool_reset_flags};
use vulkayes_core::descriptor::error::DescriptorSetError;
use vulkayes_core::descriptor::layout::layout_bindings;
use vulkayes_core::descriptor::layout::params::{DescriptorSetLayoutBinding, DescriptorSetLayoutBindingGenericType};
use vulkayes_core::descriptor::pool::validate_set_layouts;
use vulkayes_core::descriptor::sampler::params::AddressModeClamp;
use vulkayes_core::descriptor::set::error::{DescriptorImageInfoError, DescriptorInlineUniformBlockInfoError, DescriptorSetWriteError};
use vulkayes_core::descriptor::set::update::{
    DescriptorBufferInfo, DescriptorImageInfo, DescriptorInlineUniformBlockInfo, DescriptorInlineUniformBlockInfoRefMut,
    DescriptorSetCopy, DescriptorSetWrite,
    DescriptorSetWriteData, DescriptorTypeBuffer, DescriptorTypeImage, DescriptorTypeTexelBuffer,
};
use vulkayes_core::device::error::DeviceError;
use vulkayes_core::device::{get_created_queues, validate_queue_create_infos, CreatedQueue, DeviceQueueCreateInfo};
use vulkayes_core::framebuffer::error::FramebufferError;
use vulkayes_core::framebuffer::{validate_all_match, validate_devices};
use vulkayes_core::pipeline::layout::{validate_push_constant_ranges, PushConstantRange};
use vulkayes_core::pipeline::error::{GraphicsPipelineError, PipelineLayoutError};
use vulkayes_core::pipeline::params::{BlendLogicOp, DepthTest, DynamicStateRequest, StencilOpState, StencilTest};

#[test]
fn command_parameters() {
    assert_eq!(CommandBufferBeginInfo::OneTime.into(), 0x1);
    assert_eq!(CommandBufferBeginInfo::ManyTimes { simultaneous: true }.into(), 0x4);
    assert_eq!(CommandBufferBeginInfo::ManyTimes { simultaneous: false }.into(), 0);
    assert_eq!(command_buffer_level(true), 0);
    assert_eq!(command_buffer_level(false), 1);
    assert_eq!(allocation_level(true), 1);
    assert_eq!(allocation_level(false), 0);
    assert_eq!(allocation_count(3), 3);
    assert_eq!(command_buffer_reset_flags(true), 1);
    assert_eq!(command_buffer_reset_flags(false), 0);
    assert_eq!(command_pool_reset_flags(true), 1);
    assert_eq!(command_pool_reset_flags(false), 0);
    assert_eq!(command_pool_create_flags(0b111), 0b011);
    assert_eq!(command_pool_create_flags(0b010), 0b010);
    assert_eq!(subpass_contents(true), 0);
    assert_eq!(subpass_contents(false), 1);
    assert_eq!(CommandPoolError::from_vk_result(-2), Some(CommandPoolError::ERROR_OUT_OF_DEVICE_MEMORY));
    assert_eq!(CommandBufferError::from_vk_result(-3), None);
}

#[test]
fn created_queues_follow_create_infos() {
    let infos = [
        DeviceQueueCreateInfo { flags: 0, queue_family_index: 2, queue_count: 2 },
        DeviceQueueCreateInfo { flags: 1, queue_family_index: 0, queue_count: 1 },
    ];
    assert_eq!(
        get_created_queues(&infos),
        vec![
            CreatedQueue { flags: 0, queue_family_index: 2, queue_index: 0 },
            CreatedQueue { flags: 0, queue_family_index: 2, queue_index: 1 },
            CreatedQueue { flags: 1, queue_family_index: 0, queue_index: 0 },
        ]
    );
    assert_eq!(get_created_queues(&[]), vec![]);
}

#[test]
fn queue_create_infos_are_validated() {
    assert_eq!(validate_queue_create_infos(&[]), Err(DeviceError::QueuesEmpty));
    assert_eq!(
        validate_queue_create_infos(&[
            DeviceQueueCreateInfo { flags: 0, queue_family_index: 0, queue_count: 1 },
            DeviceQueueCreateInfo { flags: 0, queue_family_index: 1, queue_count: 0 },
        ]),
        Err(DeviceError::QueuePrioritiesEmpty)
    );
    assert_eq!(
        validate_queue_create_infos(&[DeviceQueueCreateInfo { flags: 0, queue_family_index: 0, queue_count: 1 }]),
        Ok(())
    );
    assert_eq!(DeviceError::from_vk_result(-4), Some(DeviceError::ERROR_DEVICE_LOST));
    assert_eq!(DeviceError::from_vk_result(-9), None);
}

#[test]
fn layout_bindings_are_numbered() {
    let samplers = [10u64, 11, 12];
    let bindings = [
        DescriptorSetLayoutBinding::Reserved(),
        DescriptorSetLayoutBinding::ImmutableSamplers(true, 0x10, &samplers),
        DescriptorSetLayoutBinding::Samplers(false, 4, 0x1),
        DescriptorSetLayoutBinding::InlineUniformBlock(8, 0x1),
        DescriptorSetLayoutBinding::InputAttachment(2),
        DescriptorSetLayoutBinding::Generic(DescriptorSetLayoutBindingGenericType::STORAGE_BUFFER, 3, 0x20),
        DescriptorSetLayoutBinding::Custom(7, 1, 0x2),
    ];
    let infos = layout_bindings(&bindings);
    let summary: Vec<(u32, i32, u32, u32, bool)> = infos
        .iter()
        .map(|i| (i.binding, i.descriptor_type, i.descriptor_count, i.stage_flags, i.immutable_samplers.is_some()))
        .collect();
    assert_eq!(
        summary,
        vec![
            (0, 0, 0, 0, false),
            (1, 1, 3, 0x10, true),
            (2, 0, 4, 0x1, false),
            (3, 1000138000, 32, 0x1, false),
            (4, 10, 2, 0x10, false),
            (5, 7, 3, 0x20, false),
            (6, 7, 1, 0x2, false),
        ]
    );
    assert_eq!(infos[1].immutable_samplers, Some(&samplers[..]));
}

#[test]
fn descriptor_writes() {
    assert_eq!(DescriptorInlineUniformBlockInfo::new(&[]), Err(DescriptorInlineUniformBlockInfoError::DataEmpty));
    assert_eq!(
        DescriptorInlineUniformBlockInfo::new(&[1, 2, 3]),
        Err(DescriptorInlineUniformBlockInfoError::SizeNotMultipleOfFour)
    );
    let data = [1u8, 2, 3, 4, 5, 6, 7, 8];
    let mut block = DescriptorInlineUniformBlockInfo::new(&data).unwrap();
    assert_eq!(block.data_size(), 8);
    assert_eq!(block.data(), &data);

    let write = DescriptorSetWrite::new(5, 1, 0, DescriptorSetWriteData::InlineUniformBlock(DescriptorInlineUniformBlockInfoRefMut(&mut block)))
        .unwrap();
    assert_eq!((write.descriptor_type, write.descriptor_count), (1000138000, 8));

    let images = [DescriptorImageInfo::with_immutable_sampler(3, 5)];
    let write = DescriptorSetWrite::new(5, 2, 1, DescriptorSetWriteData::Image(DescriptorTypeImage::SAMPLED_IMAGE, &images))
        .unwrap();
    assert_eq!((write.descriptor_set, write.binding, write.array_element), (5, 2, 1));
    assert_eq!((write.descriptor_type, write.descriptor_count), (2, 1));

    let buffers = [DescriptorBufferInfo::new(9, 0, 256), DescriptorBufferInfo::new(9, 256, 256)];
    let write = DescriptorSetWrite::new(5, 0, 0, DescriptorSetWriteData::Buffer(DescriptorTypeBuffer::UNIFORM_BUFFER_DYNAMIC, &buffers))
        .unwrap();
    assert_eq!((write.descriptor_type, write.descriptor_count), (8, 2));

    assert_eq!(
        DescriptorSetWrite::new(5, 0, 0, DescriptorSetWriteData::TexelBuffer(DescriptorTypeTexelBuffer::STORAGE_TEXEL_BUFFER, &[]))
            .unwrap_err(),
        DescriptorSetWriteError::ZeroCount
    );

    assert_eq!(
        DescriptorImageInfo::new(1, 100, 2, 200, 5),
        Err(DescriptorImageInfoError::SamplerImageViewDeviceMismatch)
    );
    assert_eq!(
        DescriptorImageInfo::new(1, 100, 2, 100, 5),
        Ok(DescriptorImageInfo { sampler: 1, image_view: 2, image_layout: 5 })
    );
    let copy = DescriptorSetCopy::new(1, 2, 3, 4, 5, 6, 7);
    assert_eq!((copy.source_set, copy.destination_set, copy.count), (1, 4, 7));
}

#[test]
fn descriptor_misc() {
    assert_eq!(validate_set_layouts(0), Err(DescriptorSetError::LayoutsEmpty));
    assert_eq!(validate_set_layouts(2), Ok(()));
    assert_eq!(AddressModeClamp::CLAMP_TO_EDGE.into(), 2);
    assert_eq!(AddressModeClamp::CLAMP_TO_BORDER.into(), 3);
    assert_eq!(DescriptorSetError::from_vk_result(-1000069000), Some(DescriptorSetError::ERROR_OUT_OF_POOL_MEMORY));
}

#[test]
fn depth_and_logic_ops() {
    assert_eq!(DepthTest::default().into(), (true, true, 1));
    assert_eq!(DepthTest::Disabled.into(), (false, false, 0));
    assert_eq!(DepthTest::EnabledReadonly(3).into(), (true, false, 3));
    assert_eq!(BlendLogicOp::default().into(), (false, 0));
    assert_eq!(BlendLogicOp::Enabled(6).into(), (true, 6));
}

#[test]
fn stencil_test_states() {
    let zero = StencilOpState { fail_op: 0, pass_op: 0, depth_fail_op: 0, compare_op: 0, compare_mask: 0, write_mask: 0, reference: 0 };
    assert_eq!(StencilTest::default().into(), (false, zero, zero, false, false, false));
    let (enabled, front, back, compare_dynamic, write_dynamic, reference_dynamic) = StencilTest::Enabled {
        fail_op: [1, 2],
        pass_op: [3, 4],
        depth_fail_op: [5, 6],
        compare_op: [7, 0],
        compare_mask: Some([0xff, 0x0f]),
        write_mask: None,
        reference: Some([1, 2]),
    }
    .into();
    assert!(enabled);
    assert_eq!(front, StencilOpState { fail_op: 1, pass_op: 3, depth_fail_op: 5, compare_op: 7, compare_mask: 0xff, write_mask: 0, reference: 1 });
    assert_eq!(back, StencilOpState { fail_op: 2, pass_op: 4, depth_fail_op: 6, compare_op: 0, compare_mask: 0x0f, write_mask: 0, reference: 2 });
    assert_eq!((compare_dynamic, write_dynamic, reference_dynamic), (false, true, false));
}

#[test]
fn dynamic_states_in_order() {
    let none = DynamicStateRequest {
        viewport: false,
        scissor: false,
        line_width: false,
        depth_bias: false,
        depth_bounds: false,
        stencil_test: false,
        stencil_compare_mask: false,
        stencil_write_mask: false,
        stencil_reference: false,
        blend_constants: false,
    };
    assert_eq!(none.dynamic_states(), vec![]);
    let all = DynamicStateRequest {
        viewport: true,
        scissor: true,
        line_width: true,
        depth_bias: true,
        depth_bounds: true,
        stencil_test: true,
        stencil_compare_mask: true,
        stencil_write_mask: true,
        stencil_reference: true,
        blend_constants: true,
    };
    assert_eq!(all.dynamic_states(), vec![0, 1, 2, 3, 5, 6, 7, 8, 4]);
    let stencil_off = DynamicStateRequest { stencil_test: false, viewport: false, ..all };
    assert_eq!(stencil_off.dynamic_states(), vec![1, 2, 3, 5, 4]);
}

#[test]
fn push_constant_ranges() {
    let range = PushConstantRange::new(0x1, 2, 4);
    assert_eq!((range.stage_flags, range.offset, range.size), (0x1, 8, 16));
    assert_eq!(validate_push_constant_ranges(&[range]), Ok(()));
    assert_eq!(
        validate_push_constant_ranges(&[range, PushConstantRange::new(0, 0, 1)]),
        Err(PipelineLayoutError::StageFlagsEmpty)
    );
    assert_eq!(
        GraphicsPipelineError::from_vk_result(1000297000),
        Some(GraphicsPipelineError::ERROR_PIPELINE_COMPILE_REQUIRED_EXT)
    );
}

#[test]
fn framebuffer_devices() {
    assert!(validate_all_match(&[]));
    assert!(validate_all_match(&[3, 3, 3]));
    assert!(!validate_all_match(&[3, 4, 3]));
    assert_eq!(validate_devices(7, &[7, 7]), Ok(()));
    assert_eq!(validate_devices(7, &[]), Ok(()));
    assert_eq!(validate_devices(7, &[7, 8]), Err(FramebufferError::RenderPassAttachmentsDeviceMismatch));
}
