//! The bookkeeping of a swapchain: its images with the layout each one is in, and the
//! semaphores that order acquiring, rendering and presenting.
//!
//! Images, views and semaphores are held by their raw handles.
use crate::barrier::{
    layout_transition, set_image_memory_barrier, ImageBarrierDescription, ImageLayout,
    PipelineBarrier, ASPECT_COLOR, REMAINING_ARRAY_LAYERS, REMAINING_MIP_LEVELS,
};
use crate::device::{Extent2D, SurfaceData};
use vstd::prelude::*;

verus! {

/// Color attachment and transfer destination: what swapchain images are used for.
pub const SWAPCHAIN_IMAGE_USAGE: u32 = 0x12;
/// The composite alpha mode that ignores alpha.
pub const COMPOSITE_ALPHA_OPAQUE: u32 = 0x1;

/// What a swapchain is created with, as Vulkan values.
#[derive(Debug, Clone, Copy, PartialEq, Eq, Structural)]
pub struct SwapchainSettings {
    pub min_image_count: u32,
    pub image_format: i32,
    pub image_color_space: i32,
    pub image_extent: Extent2D,
    pub image_usage: u32,
    pub pre_transform: u32,
    pub composite_alpha: u32,
    pub present_mode: i32,
    pub clipped: bool,
    pub image_array_layers: u32,
}

/// The swapchain for a surface: its decided image count, format, resolution and present
/// mode, the identity transform where supported, opaque and clipped, one layer.
pub fn swapchain_settings(surface: &SurfaceData) -> (settings: SwapchainSettings)
    ensures
        settings == (SwapchainSettings {
            min_image_count: surface.desired_image_count,
            image_format: surface.surface_format.format,
            image_color_space: surface.surface_format.color_space,
            image_extent: surface.surface_resolution,
            image_usage: SWAPCHAIN_IMAGE_USAGE,
            pre_transform: if surface.surface_capabilities.supported_transforms & SURFACE_TRANSFORM_IDENTITY == SURFACE_TRANSFORM_IDENTITY {
                SURFACE_TRANSFORM_IDENTITY
            } else {
                surface.surface_capabilities.current_transform
            },
            composite_alpha: COMPOSITE_ALPHA_OPAQUE,
            present_mode: surface.present_mode,
            clipped: true,
            image_array_layers: 1,
        }),
{
    SwapchainSettings {
        min_image_count: surface.desired_image_count,
        image_format: surface.surface_format.format,
        image_color_space: surface.surface_format.color_space,
        image_extent: surface.surface_resolution,
        image_usage: SWAPCHAIN_IMAGE_USAGE,
        pre_transform: pre_transform(
            surface.surface_capabilities.supported_transforms,
            surface.surface_capabilities.current_transform,
        ),
        composite_alpha: COMPOSITE_ALPHA_OPAQUE,
        present_mode: surface.present_mode,
        clipped: true,
        image_array_layers: 1,
    }
}

/// The transform flag that leaves the image as it is.
pub const SURFACE_TRANSFORM_IDENTITY: u32 = 0x1;

/// The transform a swapchain is created with: the identity where the surface supports
/// it, else the surface's current transform.
pub fn pre_transform(supported_transforms: u32, current_transform: u32) -> (transform: u32)
    ensures
        transform == if supported_transforms & SURFACE_TRANSFORM_IDENTITY == SURFACE_TRANSFORM_IDENTITY {
            SURFACE_TRANSFORM_IDENTITY
        } else {
            current_transform
        },
{
    if supported_transforms & SURFACE_TRANSFORM_IDENTITY == SURFACE_TRANSFORM_IDENTITY {
        SURFACE_TRANSFORM_IDENTITY
    } else {
        current_transform
    }
}

/// The layout a swapchain image is moved to next, and the layout the move is recorded
/// from: a color attachment goes on to be presented; any other image is drawn into
/// again, its old contents discarded.
pub open spec fn next_present_step(current: ImageLayout) -> (ImageLayout, ImageLayout) {
    if current == ImageLayout::ColorAttachmentOptimal {
        (ImageLayout::ColorAttachmentOptimal, ImageLayout::PresentSrc)
    } else {
        (ImageLayout::Undefined, ImageLayout::ColorAttachmentOptimal)
    }
}

/// The barrier subresources of a whole image.
pub open spec fn whole_image() -> ImageBarrierDescription {
    ImageBarrierDescription {
        base_mip_level: 0,
        level_count: REMAINING_MIP_LEVELS,
        base_array_layer: 0,
        layer_count: REMAINING_ARRAY_LAYERS,
    }
}

/// An image acquired from the swapchain for this frame.
#[derive(Debug, Clone, Copy, PartialEq, Eq, Structural)]
pub struct SwapchainImage {
    pub image: u64,
    pub image_view: u64,
    pub index: u32,
    pub is_suboptimal: bool,
    pub rendering_complete_semaphore: u64,
}

/// The images of a swapchain with their views and current layouts, and one pair of
/// semaphores per image it was created with.
pub struct Swapchain {
    pub present_images: Vec<u64>,
    pub present_image_views: Vec<u64>,
    pub present_image_layouts: Vec<ImageLayout>,
    pub present_complete_semaphores: Vec<u64>,
    pub rendering_complete_semaphores: Vec<u64>,
}

impl Swapchain {
    /// Every image has a view and a layout, and the two semaphore lists pair up.
    pub open spec fn wf(self) -> bool {
        &&& self.present_image_views@.len() == self.present_images@.len()
        &&& self.present_image_layouts@.len() == self.present_images@.len()
        &&& self.rendering_complete_semaphores@.len() == self.present_complete_semaphores@.len()
    }

    /// A swapchain over `images`, none of which has a defined layout yet.
    pub fn new(
        present_images: Vec<u64>,
        present_image_views: Vec<u64>,
        present_complete_semaphores: Vec<u64>,
        rendering_complete_semaphores: Vec<u64>,
    ) -> (s: Swapchain)
        requires
            present_image_views@.len() == present_images@.len(),
            rendering_complete_semaphores@.len() == present_complete_semaphores@.len(),
        ensures
            s.wf(),
            s.present_images@ == present_images@,
            s.present_image_views@ == present_image_views@,
            s.present_complete_semaphores@ == present_complete_semaphores@,
            s.rendering_complete_semaphores@ == rendering_complete_semaphores@,
            s.present_image_layouts@ == Seq::new(present_images@.len(), |i: int| ImageLayout::Undefined),
    {
        let present_image_layouts = undefined_layouts(present_images.len());
        Swapchain {
            present_images,
            present_image_views,
            present_image_layouts,
            present_complete_semaphores,
            rendering_complete_semaphores,
        }
    }

    /// The semaphore pair of the frame with index `frame_index`: the frame index taken
    /// modulo the number of pairs.
    pub fn frame_semaphores(&self, frame_index: usize) -> (pair: (u64, u64))
        requires
            self.wf(),
            self.present_complete_semaphores@.len() > 0,
        ensures
            pair.0 == self.present_complete_semaphores@[(frame_index as int) % (self.present_complete_semaphores@.len() as int)],
            pair.1 == self.rendering_complete_semaphores@[(frame_index as int) % (self.present_complete_semaphores@.len() as int)],
    {
        let semaphore_index = frame_index % self.present_complete_semaphores.len();
        (self.present_complete_semaphores[semaphore_index], self.rendering_complete_semaphores[semaphore_index])
    }

    /// The image that acquiring handed out at `index`, with the semaphore that signals
    /// the end of its rendering.
    pub fn acquired_image(&self, index: u32, is_suboptimal: bool, rendering_complete_semaphore: u64) -> (image: SwapchainImage)
        requires
            self.wf(),
            index < self.present_images@.len(),
        ensures
            image == (SwapchainImage {
                image: self.present_images@[index as int],
                image_view: self.present_image_views@[index as int],
                index,
                is_suboptimal,
                rendering_complete_semaphore,
            }),
    {
        let i = index as usize;
        SwapchainImage {
            image: self.present_images[i],
            image_view: self.present_image_views[i],
            index,
            is_suboptimal,
            rendering_complete_semaphore,
        }
    }

    /// Moves the image at `index` to its next layout (see [`next_present_step`]) and
    /// gives the barrier for the move; the other images keep their layouts.
    pub fn transition_image(&mut self, index: u32) -> (barrier: PipelineBarrier)
        requires
            old(self).wf(),
            index < old(self).present_images@.len(),
        ensures
            final(self).wf(),
            barrier == layout_transition(
                old(self).present_images@[index as int],
                ASPECT_COLOR,
                next_present_step(old(self).present_image_layouts@[index as int]).0,
                next_present_step(old(self).present_image_layouts@[index as int]).1,
                whole_image(),
            ),
            final(self).present_image_layouts@ == old(self).present_image_layouts@.update(
                index as int,
                next_present_step(old(self).present_image_layouts@[index as int]).1,
            ),
            final(self).present_images@ == old(self).present_images@,
            final(self).present_image_views@ == old(self).present_image_views@,
            final(self).present_complete_semaphores@ == old(self).present_complete_semaphores@,
            final(self).rendering_complete_semaphores@ == old(self).rendering_complete_semaphores@,
    {
        let i = index as usize;
        let current = self.present_image_layouts[i];
        let to_present = current == ImageLayout::ColorAttachmentOptimal;
        let (old_layout, new_layout) = if to_present {
            (current, ImageLayout::PresentSrc)
        } else {
            (ImageLayout::Undefined, ImageLayout::ColorAttachmentOptimal)
        };
        let barrier = set_image_memory_barrier(
            self.present_images[i],
            ASPECT_COLOR,
            old_layout,
            new_layout,
            ImageBarrierDescription::default(),
        );
        self.present_image_layouts.set(i, new_layout);
        barrier
    }

    /// After a resize: takes the new images and views, every image back in `Undefined`,
    /// and gives back the old views to be destroyed. The semaphores stay.
    pub fn replace_images(&mut self, present_images: Vec<u64>, present_image_views: Vec<u64>) -> (old_views: Vec<u64>)
        requires
            old(self).wf(),
            present_image_views@.len() == present_images@.len(),
        ensures
            final(self).wf(),
            old_views@ == old(self).present_image_views@,
            final(self).present_images@ == present_images@,
            final(self).present_image_views@ == present_image_views@,
            final(self).present_image_layouts@ == Seq::new(present_images@.len(), |i: int| ImageLayout::Undefined),
            final(self).present_complete_semaphores@ == old(self).present_complete_semaphores@,
            final(self).rendering_complete_semaphores@ == old(self).rendering_complete_semaphores@,
    {
        let layouts = undefined_layouts(present_images.len());
        self.present_images = present_images;
        self.present_image_layouts = layouts;
        let mut views = present_image_views;
        std::mem::swap(&mut views, &mut self.present_image_views);
        views
    }
}

fn undefined_layouts(count: usize) -> (layouts: Vec<ImageLayout>)
    ensures
        layouts@ == Seq::new(count as nat, |i: int| ImageLayout::Undefined),
{
    let mut layouts: Vec<ImageLayout> = Vec::new();
    let mut i: usize = 0;
    while i < count
        invariant
            i <= count,
            layouts@ == Seq::new(i as nat, |j: int| ImageLayout::Undefined),
        decreases count - i,
    {
        layouts.push(ImageLayout::Undefined);
        i += 1;
    }
    layouts
}

/// A swapchain image is drawn into, then presented, then drawn into again: from any
/// layout the next step ends in color attachment or present, a step into present is
/// always recorded from color attachment, and a step out of color attachment goes to
/// present. Every step is a valid layout transition target.
pub proof fn present_steps_alternate(current: ImageLayout)
    ensures
        next_present_step(current).1 == ImageLayout::ColorAttachmentOptimal
            || next_present_step(current).1 == ImageLayout::PresentSrc,
        next_present_step(current).1 == ImageLayout::PresentSrc
            <==> current == ImageLayout::ColorAttachmentOptimal,
        next_present_step(next_present_step(current).1).1 != next_present_step(current).1,
        next_present_step(current).1 == ImageLayout::PresentSrc
            ==> next_present_step(current).0 == ImageLayout::ColorAttachmentOptimal,
        !(next_present_step(current).1 is Undefined) && !(next_present_step(current).1 is Preinitialized),
{
}

} // verus!
