use ash::vk;
use cinder::barrier::{ImageLayout, ACCESS_COLOR_ATTACHMENT_READ_WRITE, STAGE_TOP_OF_PIPE};
use cinder::device::{Extent2D, SurfaceCapabilities, SurfaceData, SurfaceFormat};
use cinder::swapchain::{
    pre_transform, swapchain_settings, Swapchain, COMPOSITE_ALPHA_OPAQUE,
    SURFACE_TRANSFORM_IDENTITY, SWAPCHAIN_IMAGE_USAGE,
};

fn swapchain() -> Swapchain {
    Swapchain::new(vec![10, 11, 12], vec![20, 21, 22], vec![30, 31, 32], vec![40, 41, 42])
}

#[test]
fn new_swapchain_images_start_undefined() {
    let s = swapchain();
    assert_eq!(s.present_image_layouts, vec![ImageLayout::Undefined; 3]);
}

#[test]
fn transitions_alternate_between_drawing_and_presenting() {
    let mut s = swapchain();
    let b = s.transition_image(1);
    assert_eq!(b.image_barrier.image, 11);
    assert_eq!(b.image_barrier.old_layout, ImageLayout::Undefined);
    assert_eq!(b.image_barrier.new_layout, ImageLayout::ColorAttachmentOptimal);
    assert_eq!(b.src_stage, STAGE_TOP_OF_PIPE);
    assert_eq!(b.image_barrier.dst_access, ACCESS_COLOR_ATTACHMENT_READ_WRITE);
    assert_eq!(s.present_image_layouts[1], ImageLayout::ColorAttachmentOptimal);
    assert_eq!(s.present_image_layouts[0], ImageLayout::Undefined);

    let b = s.transition_image(1);
    assert_eq!(b.image_barrier.old_layout, ImageLayout::ColorAttachmentOptimal);
    assert_eq!(b.image_barrier.new_layout, ImageLayout::PresentSrc);
    assert_eq!(s.present_image_layouts[1], ImageLayout::PresentSrc);

    let b = s.transition_image(1);
    assert_eq!(b.image_barrier.old_layout, ImageLayout::Undefined);
    assert_eq!(b.image_barrier.new_layout, ImageLayout::ColorAttachmentOptimal);
}

#[test]
fn frame_semaphores_cycle() {
    let s = swapchain();
    assert_eq!(s.frame_semaphores(0), (30, 40));
    assert_eq!(s.frame_semaphores(4), (31, 41));
    assert_eq!(s.frame_semaphores(8), (32, 42));
}

#[test]
fn acquired_image_picks_its_index() {
    let s = swapchain();
    let img = s.acquired_image(2, true, 99);
    assert_eq!(img.image, 12);
    assert_eq!(img.image_view, 22);
    assert_eq!(img.index, 2);
    assert!(img.is_suboptimal);
    assert_eq!(img.rendering_complete_semaphore, 99);
}

#[test]
fn resize_resets_layouts_and_returns_old_views() {
    let mut s = swapchain();
    s.transition_image(0);
    let old = s.replace_images(vec![50, 51], vec![60, 61]);
    assert_eq!(old, vec![20, 21, 22]);
    assert_eq!(s.present_images, vec![50, 51]);
    assert_eq!(s.present_image_layouts, vec![ImageLayout::Undefined; 2]);
    assert_eq!(s.present_complete_semaphores, vec![30, 31, 32]);
}

#[test]
fn identity_transform_preferred() {
    assert_eq!(SURFACE_TRANSFORM_IDENTITY, vk::SurfaceTransformFlagsKHR::IDENTITY.as_raw());
    assert_eq!(pre_transform(0x3, 0x2), 0x1);
    assert_eq!(pre_transform(0x2, 0x2), 0x2);
}

#[test]
fn settings_follow_surface() {
    assert_eq!(
        SWAPCHAIN_IMAGE_USAGE,
        (vk::ImageUsageFlags::COLOR_ATTACHMENT | vk::ImageUsageFlags::TRANSFER_DST).as_raw()
    );
    assert_eq!(COMPOSITE_ALPHA_OPAQUE, vk::CompositeAlphaFlagsKHR::OPAQUE.as_raw());
    let surface = SurfaceData {
        surface_format: SurfaceFormat { format: 44, color_space: 0 },
        surface_capabilities: SurfaceCapabilities {
            min_image_count: 2,
            max_image_count: 8,
            current_extent: Extent2D { width: 800, height: 600 },
            supported_transforms: 0x4,
            current_transform: 0x4,
        },
        surface_resolution: Extent2D { width: 800, height: 600 },
        present_mode: 2,
        desired_image_count: 3,
    };
    let st = swapchain_settings(&surface);
    assert_eq!(st.min_image_count, 3);
    assert_eq!(st.image_format, 44);
    assert_eq!(st.pre_transform, 0x4);
    assert_eq!(st.image_extent, Extent2D { width: 800, height: 600 });
    assert!(st.clipped);
    assert_eq!(st.image_array_layers, 1);
}
