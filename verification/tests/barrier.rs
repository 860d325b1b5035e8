use ash::vk;
use cinder::barrier::{
    image_barrier, image_barrier_end, image_barrier_start, set_image_memory_barrier,
    transition_color_to_present, transition_undefined_to_color, ImageBarrierDescription,
    ImageLayout, ACCESS_COLOR_ATTACHMENT_READ_WRITE, ACCESS_COLOR_ATTACHMENT_WRITE,
    ACCESS_DEPTH_READ_ONLY, ACCESS_DEPTH_STENCIL_ATTACHMENT_READ_WRITE,
    ACCESS_DEPTH_STENCIL_ATTACHMENT_WRITE, ACCESS_HOST_WRITE, ACCESS_MEMORY_READ_WRITE,
    ACCESS_MEMORY_WRITE, ACCESS_NONE, ACCESS_SHADER_READ, ACCESS_SHADER_READ_ONLY,
    ACCESS_TRANSFER_READ, ACCESS_TRANSFER_WRITE, ASPECT_COLOR, ASPECT_DEPTH,
    QUEUE_FAMILY_IGNORED, REMAINING_ARRAY_LAYERS, REMAINING_MIP_LEVELS, STAGES_DEPTH_TESTS,
    STAGES_DEPTH_TESTS_AND_SAMPLING, STAGES_SAMPLING, STAGE_ALL_COMMANDS, STAGE_BOTTOM_OF_PIPE,
    STAGE_COLOR_ATTACHMENT_OUTPUT, STAGE_FRAGMENT_SHADER, STAGE_HOST, STAGE_TOP_OF_PIPE,
    STAGE_TRANSFER,
};

#[test]
fn stage_and_access_values_are_vulkan_flags() {
    assert_eq!(STAGE_TOP_OF_PIPE, vk::PipelineStageFlags::TOP_OF_PIPE.as_raw());
    assert_eq!(STAGE_BOTTOM_OF_PIPE, vk::PipelineStageFlags::BOTTOM_OF_PIPE.as_raw());
    assert_eq!(STAGE_TRANSFER, vk::PipelineStageFlags::TRANSFER.as_raw());
    assert_eq!(STAGE_HOST, vk::PipelineStageFlags::HOST.as_raw());
    assert_eq!(STAGE_ALL_COMMANDS, vk::PipelineStageFlags::ALL_COMMANDS.as_raw());
    assert_eq!(STAGE_FRAGMENT_SHADER, vk::PipelineStageFlags::FRAGMENT_SHADER.as_raw());
    assert_eq!(
        STAGE_COLOR_ATTACHMENT_OUTPUT,
        vk::PipelineStageFlags::COLOR_ATTACHMENT_OUTPUT.as_raw()
    );
    assert_eq!(
        STAGES_DEPTH_TESTS,
        (vk::PipelineStageFlags::EARLY_FRAGMENT_TESTS | vk::PipelineStageFlags::LATE_FRAGMENT_TESTS)
            .as_raw()
    );
    assert_eq!(
        STAGES_SAMPLING,
        (vk::PipelineStageFlags::VERTEX_SHADER
            | vk::PipelineStageFlags::FRAGMENT_SHADER
            | vk::PipelineStageFlags::COMPUTE_SHADER)
            .as_raw()
    );
    assert_eq!(STAGES_DEPTH_TESTS_AND_SAMPLING, STAGES_DEPTH_TESTS | STAGES_SAMPLING);
    assert_eq!(ACCESS_MEMORY_WRITE, vk::AccessFlags::MEMORY_WRITE.as_raw());
    assert_eq!(
        ACCESS_MEMORY_READ_WRITE,
        (vk::AccessFlags::MEMORY_READ | vk::AccessFlags::MEMORY_WRITE).as_raw()
    );
    assert_eq!(ACCESS_COLOR_ATTACHMENT_WRITE, vk::AccessFlags::COLOR_ATTACHMENT_WRITE.as_raw());
    assert_eq!(
        ACCESS_COLOR_ATTACHMENT_READ_WRITE,
        (vk::AccessFlags::COLOR_ATTACHMENT_READ | vk::AccessFlags::COLOR_ATTACHMENT_WRITE).as_raw()
    );
    assert_eq!(
        ACCESS_DEPTH_STENCIL_ATTACHMENT_WRITE,
        vk::AccessFlags::DEPTH_STENCIL_ATTACHMENT_WRITE.as_raw()
    );
    assert_eq!(
        ACCESS_DEPTH_STENCIL_ATTACHMENT_READ_WRITE,
        (vk::AccessFlags::DEPTH_STENCIL_ATTACHMENT_READ
            | vk::AccessFlags::DEPTH_STENCIL_ATTACHMENT_WRITE)
            .as_raw()
    );
    assert_eq!(
        ACCESS_DEPTH_READ_ONLY,
        (vk::AccessFlags::DEPTH_STENCIL_ATTACHMENT_READ
            | vk::AccessFlags::SHADER_READ
            | vk::AccessFlags::INPUT_ATTACHMENT_READ)
            .as_raw()
    );
    assert_eq!(
        ACCESS_SHADER_READ_ONLY,
        (vk::AccessFlags::SHADER_READ | vk::AccessFlags::INPUT_ATTACHMENT_READ).as_raw()
    );
    assert_eq!(ACCESS_SHADER_READ, vk::AccessFlags::SHADER_READ.as_raw());
    assert_eq!(ACCESS_TRANSFER_READ, vk::AccessFlags::TRANSFER_READ.as_raw());
    assert_eq!(ACCESS_TRANSFER_WRITE, vk::AccessFlags::TRANSFER_WRITE.as_raw());
    assert_eq!(ACCESS_HOST_WRITE, vk::AccessFlags::HOST_WRITE.as_raw());
    assert_eq!(ASPECT_COLOR, vk::ImageAspectFlags::COLOR.as_raw());
    assert_eq!(ASPECT_DEPTH, vk::ImageAspectFlags::DEPTH.as_raw());
    assert_eq!(QUEUE_FAMILY_IGNORED, vk::QUEUE_FAMILY_IGNORED);
    assert_eq!(REMAINING_MIP_LEVELS, vk::REMAINING_MIP_LEVELS);
    assert_eq!(REMAINING_ARRAY_LAYERS, vk::REMAINING_ARRAY_LAYERS);
}

#[test]
fn layout_numbers_round_trip() {
    let layouts = [
        (ImageLayout::Undefined, vk::ImageLayout::UNDEFINED),
        (ImageLayout::General, vk::ImageLayout::GENERAL),
        (ImageLayout::ColorAttachmentOptimal, vk::ImageLayout::COLOR_ATTACHMENT_OPTIMAL),
        (
            ImageLayout::DepthStencilAttachmentOptimal,
            vk::ImageLayout::DEPTH_STENCIL_ATTACHMENT_OPTIMAL,
        ),
        (
            ImageLayout::DepthStencilReadOnlyOptimal,
            vk::ImageLayout::DEPTH_STENCIL_READ_ONLY_OPTIMAL,
        ),
        (ImageLayout::ShaderReadOnlyOptimal, vk::ImageLayout::SHADER_READ_ONLY_OPTIMAL),
        (ImageLayout::TransferSrcOptimal, vk::ImageLayout::TRANSFER_SRC_OPTIMAL),
        (ImageLayout::TransferDstOptimal, vk::ImageLayout::TRANSFER_DST_OPTIMAL),
        (ImageLayout::Preinitialized, vk::ImageLayout::PREINITIALIZED),
        (ImageLayout::PresentSrc, vk::ImageLayout::PRESENT_SRC_KHR),
    ];
    for (layout, raw) in layouts {
        assert_eq!(layout.as_raw(), raw.as_raw());
        assert_eq!(ImageLayout::from_raw(raw.as_raw()), Some(layout));
    }
    assert_eq!(ImageLayout::from_raw(1000164003), None);
}

#[test]
fn default_barrier_description_covers_whole_image() {
    let desc = ImageBarrierDescription::default();
    assert_eq!(desc.base_mip_level, 0);
    assert_eq!(desc.level_count, !0u32);
    assert_eq!(desc.base_array_layer, 0);
    assert_eq!(desc.layer_count, !0u32);
}

#[test]
fn upload_transition_masks() {
    let b = set_image_memory_barrier(
        7,
        ASPECT_COLOR,
        ImageLayout::Undefined,
        ImageLayout::TransferDstOptimal,
        ImageBarrierDescription::default(),
    );
    assert_eq!(b.src_stage, STAGE_TOP_OF_PIPE);
    assert_eq!(b.dst_stage, STAGE_TRANSFER);
    assert_eq!(b.image_barrier.src_access, ACCESS_NONE);
    assert_eq!(b.image_barrier.dst_access, ACCESS_TRANSFER_WRITE);
    assert_eq!(b.image_barrier.image, 7);
    assert_eq!(b.image_barrier.src_queue_family, QUEUE_FAMILY_IGNORED);
    assert_eq!(b.image_barrier.level_count, REMAINING_MIP_LEVELS);

    let b = set_image_memory_barrier(
        7,
        ASPECT_COLOR,
        ImageLayout::TransferDstOptimal,
        ImageLayout::ShaderReadOnlyOptimal,
        ImageBarrierDescription::default(),
    );
    assert_eq!(b.src_stage, STAGE_TRANSFER);
    assert_eq!(b.dst_stage, STAGES_SAMPLING);
    assert_eq!(b.image_barrier.src_access, ACCESS_TRANSFER_WRITE);
    assert_eq!(b.image_barrier.dst_access, ACCESS_SHADER_READ_ONLY);
}

#[test]
fn every_source_layout_waits_on_writes_only() {
    let writes = [
        ACCESS_NONE,
        ACCESS_MEMORY_WRITE,
        ACCESS_COLOR_ATTACHMENT_WRITE,
        ACCESS_DEPTH_STENCIL_ATTACHMENT_WRITE,
        ACCESS_TRANSFER_WRITE,
        ACCESS_HOST_WRITE,
    ];
    let olds = [
        ImageLayout::Undefined,
        ImageLayout::General,
        ImageLayout::ColorAttachmentOptimal,
        ImageLayout::DepthStencilAttachmentOptimal,
        ImageLayout::DepthStencilReadOnlyOptimal,
        ImageLayout::ShaderReadOnlyOptimal,
        ImageLayout::TransferSrcOptimal,
        ImageLayout::TransferDstOptimal,
        ImageLayout::Preinitialized,
        ImageLayout::PresentSrc,
    ];
    for old in olds {
        let b = set_image_memory_barrier(
            1,
            ASPECT_DEPTH,
            old,
            ImageLayout::General,
            ImageBarrierDescription::default(),
        );
        assert!(writes.contains(&b.image_barrier.src_access));
        assert_ne!(b.src_stage, 0);
        assert_eq!(b.dst_stage, STAGE_ALL_COMMANDS);
        assert_eq!(b.image_barrier.dst_access, ACCESS_MEMORY_READ_WRITE);
    }
    let b = set_image_memory_barrier(
        1,
        ASPECT_DEPTH,
        ImageLayout::Preinitialized,
        ImageLayout::PresentSrc,
        ImageBarrierDescription::default(),
    );
    assert_eq!(b.src_stage, STAGE_HOST);
    assert_eq!(b.image_barrier.src_access, ACCESS_HOST_WRITE);
    assert_eq!(b.dst_stage, STAGE_BOTTOM_OF_PIPE);
    assert_eq!(b.image_barrier.dst_access, ACCESS_NONE);
}

#[test]
fn depth_layouts() {
    let desc = ImageBarrierDescription {
        base_mip_level: 1,
        level_count: 2,
        base_array_layer: 3,
        layer_count: 4,
    };
    let b = set_image_memory_barrier(
        9,
        ASPECT_DEPTH,
        ImageLayout::DepthStencilAttachmentOptimal,
        ImageLayout::DepthStencilReadOnlyOptimal,
        desc,
    );
    assert_eq!(b.src_stage, STAGES_DEPTH_TESTS);
    assert_eq!(b.image_barrier.src_access, ACCESS_DEPTH_STENCIL_ATTACHMENT_WRITE);
    assert_eq!(b.dst_stage, STAGES_DEPTH_TESTS_AND_SAMPLING);
    assert_eq!(b.image_barrier.dst_access, ACCESS_DEPTH_READ_ONLY);
    assert_eq!(b.image_barrier.aspect_mask, ASPECT_DEPTH);
    assert_eq!(b.image_barrier.base_mip_level, 1);
    assert_eq!(b.image_barrier.level_count, 2);
    assert_eq!(b.image_barrier.base_array_layer, 3);
    assert_eq!(b.image_barrier.layer_count, 4);
}

#[test]
fn fixed_transitions() {
    let b = transition_undefined_to_color(3);
    assert_eq!(b.src_stage, STAGE_TOP_OF_PIPE);
    assert_eq!(b.dst_stage, STAGE_COLOR_ATTACHMENT_OUTPUT);
    assert_eq!(b.image_barrier.src_access, 0);
    assert_eq!(b.image_barrier.dst_access, ACCESS_COLOR_ATTACHMENT_WRITE);
    assert_eq!(b.image_barrier.old_layout, ImageLayout::Undefined);
    assert_eq!(b.image_barrier.new_layout, ImageLayout::ColorAttachmentOptimal);
    assert_eq!(b.image_barrier.level_count, 1);
    assert_eq!(b.image_barrier.layer_count, 1);
    assert_eq!(b.image_barrier.src_queue_family, 0);

    let b = transition_color_to_present(3);
    assert_eq!(b.src_stage, STAGE_COLOR_ATTACHMENT_OUTPUT);
    assert_eq!(b.dst_stage, STAGE_BOTTOM_OF_PIPE);
    assert_eq!(b.image_barrier.new_layout, ImageLayout::PresentSrc);

    let b = image_barrier_start(4);
    assert_eq!(b.src_stage, STAGE_BOTTOM_OF_PIPE);
    assert_eq!(b.dst_stage, STAGE_TRANSFER);
    assert_eq!(b.image_barrier.new_layout, ImageLayout::TransferDstOptimal);

    let b = image_barrier_end(4);
    assert_eq!(b.src_stage, STAGE_TRANSFER);
    assert_eq!(b.dst_stage, STAGE_FRAGMENT_SHADER);
    assert_eq!(b.image_barrier.src_access, ACCESS_TRANSFER_WRITE);
    assert_eq!(b.image_barrier.dst_access, ACCESS_SHADER_READ);
    assert_eq!(b.image_barrier.new_layout, ImageLayout::ShaderReadOnlyOptimal);
}

#[test]
fn image_barrier_covers_remaining_layers() {
    let b = image_barrier(
        5,
        ACCESS_TRANSFER_WRITE,
        ACCESS_SHADER_READ,
        ImageLayout::TransferDstOptimal,
        ImageLayout::ShaderReadOnlyOptimal,
        ASPECT_COLOR,
        2,
        3,
    );
    assert_eq!(b.base_mip_level, 2);
    assert_eq!(b.level_count, 3);
    assert_eq!(b.base_array_layer, 0);
    assert_eq!(b.layer_count, REMAINING_ARRAY_LAYERS);
    assert_eq!(b.src_queue_family, QUEUE_FAMILY_IGNORED);
    assert_eq!(b.dst_queue_family, QUEUE_FAMILY_IGNORED);
}
