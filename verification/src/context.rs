//! Recording contexts: the attachment operations and layouts a context names, and the
//! pipeline a render context has bound, which its draw state comes from.
use crate::barrier::ImageLayout;
use crate::handle::ResourceHandle;
use crate::pipeline::GraphicsPipeline;
use crate::pool::ResourcePool;
use crate::shader::{PushConstant, ShaderStage};
use vstd::prelude::*;

pub use crate::pipeline::PipelineError;

verus! {

pub const ATTACHMENT_LOAD_OP_LOAD: i32 = 0;
pub const ATTACHMENT_LOAD_OP_CLEAR: i32 = 1;
pub const ATTACHMENT_LOAD_OP_DONT_CARE: i32 = 2;
pub const ATTACHMENT_STORE_OP_STORE: i32 = 0;
pub const ATTACHMENT_STORE_OP_DONT_CARE: i32 = 1;
pub const FILTER_NEAREST: i32 = 0;
pub const FILTER_LINEAR: i32 = 1;

/// What happens to an attachment's contents when rendering begins.
#[derive(Debug, Clone, Copy, PartialEq, Eq, Structural)]
pub enum AttachmentLoadOp {
    Clear,
    Load,
    DontCare,
}

impl Default for AttachmentLoadOp {
    fn default() -> (op: Self)
        ensures
            op == AttachmentLoadOp::Clear,
    {
        AttachmentLoadOp::Clear
    }
}

pub open spec fn load_op_raw(op: AttachmentLoadOp) -> i32 {
    match op {
        AttachmentLoadOp::Clear => ATTACHMENT_LOAD_OP_CLEAR,
        AttachmentLoadOp::Load => ATTACHMENT_LOAD_OP_LOAD,
        AttachmentLoadOp::DontCare => ATTACHMENT_LOAD_OP_DONT_CARE,
    }
}

impl AttachmentLoadOp {
    pub fn as_raw(&self) -> (raw: i32)
        ensures
            raw == load_op_raw(*self),
    {
        match self {
            AttachmentLoadOp::Clear => ATTACHMENT_LOAD_OP_CLEAR,
            AttachmentLoadOp::Load => ATTACHMENT_LOAD_OP_LOAD,
            AttachmentLoadOp::DontCare => ATTACHMENT_LOAD_OP_DONT_CARE,
        }
    }
}

/// What happens to an attachment's contents when rendering ends.
#[derive(Debug, Clone, Copy, PartialEq, Eq, Structural)]
pub enum AttachmentStoreOp {
    Store,
    DontCare,
}

impl Default for AttachmentStoreOp {
    fn default() -> (op: Self)
        ensures
            op == AttachmentStoreOp::Store,
    {
        AttachmentStoreOp::Store
    }
}

pub open spec fn store_op_raw(op: AttachmentStoreOp) -> i32 {
    match op {
        AttachmentStoreOp::Store => ATTACHMENT_STORE_OP_STORE,
        AttachmentStoreOp::DontCare => ATTACHMENT_STORE_OP_DONT_CARE,
    }
}

impl AttachmentStoreOp {
    pub fn as_raw(&self) -> (raw: i32)
        ensures
            raw == store_op_raw(*self),
    {
        match self {
            AttachmentStoreOp::Store => ATTACHMENT_STORE_OP_STORE,
            AttachmentStoreOp::DontCare => ATTACHMENT_STORE_OP_DONT_CARE,
        }
    }
}

/// The layouts a render context names for its attachments and blits.
#[derive(Debug, Clone, Copy, PartialEq, Eq, Structural)]
pub enum Layout {
    Undefined,
    General,
    ColorAttachment,
    DepthAttachment,
    Present,
    TransferDst,
}

impl Default for Layout {
    fn default() -> (layout: Self)
        ensures
            layout == Layout::ColorAttachment,
    {
        Layout::ColorAttachment
    }
}

pub open spec fn context_layout_image_layout(layout: Layout) -> ImageLayout {
    match layout {
        Layout::Undefined => ImageLayout::Undefined,
        Layout::General => ImageLayout::General,
        Layout::ColorAttachment => ImageLayout::ColorAttachmentOptimal,
        Layout::DepthAttachment => ImageLayout::DepthStencilAttachmentOptimal,
        Layout::Present => ImageLayout::PresentSrc,
        Layout::TransferDst => ImageLayout::TransferDstOptimal,
    }
}

impl Layout {
    pub fn image_layout(&self) -> (layout: ImageLayout)
        ensures
            layout == context_layout_image_layout(*self),
    {
        match self {
            Layout::Undefined => ImageLayout::Undefined,
            Layout::General => ImageLayout::General,
            Layout::ColorAttachment => ImageLayout::ColorAttachmentOptimal,
            Layout::DepthAttachment => ImageLayout::DepthStencilAttachmentOptimal,
            Layout::Present => ImageLayout::PresentSrc,
            Layout::TransferDst => ImageLayout::TransferDstOptimal,
        }
    }
}

/// How a blit filters.
#[derive(Debug, Clone, Copy, PartialEq, Eq, Structural)]
pub enum Filter {
    Linear,
    Nearest,
}

pub open spec fn filter_raw(filter: Filter) -> i32 {
    match filter {
        Filter::Linear => FILTER_LINEAR,
        Filter::Nearest => FILTER_NEAREST,
    }
}

impl Filter {
    pub fn as_raw(&self) -> (raw: i32)
        ensures
            raw == filter_raw(*self),
    {
        match self {
            Filter::Linear => FILTER_LINEAR,
            Filter::Nearest => FILTER_NEAREST,
        }
    }
}

/// How a render context is created; it has no settings yet.
#[derive(Debug, Clone, Copy, PartialEq, Eq, Structural)]
pub struct RenderContextDescription {}

/// How an upload context is created: its debug name.
#[derive(Debug, Clone, Copy)]
pub struct UploadContextDescription {
    pub name: Option<&'static str>,
}

impl Default for UploadContextDescription {
    fn default() -> (desc: Self)
        ensures
            desc.name.is_none(),
    {
        UploadContextDescription { name: None }
    }
}

/// A barrier between recording contexts; it carries nothing yet.
#[derive(Debug, Clone, Copy, PartialEq, Eq, Structural)]
pub struct BarrierDescription {}

/// A render context: its command buffer by raw handle, and the graphics pipeline it
/// has bound, which the draw calls that follow use.
pub struct RenderContext {
    pub command_buffer: u64,
    pub bound_pipeline: Option<ResourceHandle<GraphicsPipeline>>,
}

impl RenderContext {
    /// The index of the bound pipeline's handle, if a pipeline is bound.
    pub open spec fn bound(self) -> Option<usize> {
        match self.bound_pipeline {
            Some(h) => Some(h.index()),
            None => None,
        }
    }

    pub fn new(command_buffer: u64) -> (ctx: Self)
        ensures
            ctx.command_buffer == command_buffer,
            ctx.bound() is None,
    {
        RenderContext { command_buffer, bound_pipeline: None }
    }

    /// Binds the pipeline under `handle` and gives its pipeline object to bind; a dead
    /// handle is an error and leaves the binding as it was.
    pub fn bind_graphics_pipeline(
        &mut self,
        pipelines: &ResourcePool<GraphicsPipeline>,
        handle: ResourceHandle<GraphicsPipeline>,
    ) -> (res: Result<u64, PipelineError>)
        ensures
            final(self).command_buffer == old(self).command_buffer,
            pipelines@.contains_key(handle.index()) ==> res == Ok::<u64, PipelineError>(pipelines@[handle.index()].common.pipeline)
                && final(self).bound() == Some(handle.index()),
            !pipelines@.contains_key(handle.index()) ==> res == Err::<u64, PipelineError>(PipelineError::InvalidPipelineHandle)
                && final(self).bound() == old(self).bound(),
    {
        match pipelines.get(handle) {
            Some(pipeline) => {
                self.bound_pipeline = Some(handle);
                Ok(pipeline.common.pipeline)
            },
            None => Err(PipelineError::InvalidPipelineHandle),
        }
    }

    /// Ends rendering, which also unbinds the pipeline.
    pub fn end_rendering(&mut self)
        ensures
            final(self).command_buffer == old(self).command_buffer,
            final(self).bound() is None,
    {
        self.bound_pipeline = None;
    }

    /// The bound pipeline: an error where none is bound, or where its handle has died
    /// since.
    pub fn bound_pipeline<'a>(&self, pipelines: &'a ResourcePool<GraphicsPipeline>) -> (res: Result<&'a GraphicsPipeline, PipelineError>)
        ensures
            match self.bound() {
                None => res matches Err(PipelineError::NoBoundPipeline),
                Some(i) => if pipelines@.contains_key(i) {
                    res matches Ok(p) && *p == pipelines@[i]
                } else {
                    res matches Err(PipelineError::InvalidPipelineHandle)
                },
            },
    {
        match &self.bound_pipeline {
            Some(handle) => match pipelines.get(*handle) {
                Some(p) => Ok(p),
                None => Err(PipelineError::InvalidPipelineHandle),
            },
            None => Err(PipelineError::NoBoundPipeline),
        }
    }

    /// The pipeline layout and push constant range that `stage`'s push constant number
    /// `idx` goes to: first the bound pipeline is needed, then the range.
    pub fn push_constant_target(
        &self,
        pipelines: &ResourcePool<GraphicsPipeline>,
        stage: ShaderStage,
        idx: u32,
    ) -> (res: Result<(u64, PushConstant), PipelineError>)
        ensures
            res == push_target(*self, *pipelines, stage, idx),
    {
        let pipeline = match self.bound_pipeline(pipelines) {
            Ok(p) => p,
            Err(e) => {
                return Err(e);
            },
        };
        match pipeline.common.get_push_constant(stage, idx) {
            Some(pc) => Ok((pipeline.common.pipeline_layout, pc)),
            None => Err(PipelineError::InvalidPushConstant),
        }
    }

    /// Where the bytes of a vertex push constant go.
    pub fn set_vertex_bytes(&self, pipelines: &ResourcePool<GraphicsPipeline>, idx: u32) -> (res: Result<(u64, PushConstant), PipelineError>)
        ensures
            res == push_target(*self, *pipelines, ShaderStage::Vertex, idx),
    {
        self.push_constant_target(pipelines, ShaderStage::Vertex, idx)
    }

    /// Where the bytes of a fragment push constant go.
    pub fn set_fragment_bytes(&self, pipelines: &ResourcePool<GraphicsPipeline>, idx: u32) -> (res: Result<(u64, PushConstant), PipelineError>)
        ensures
            res == push_target(*self, *pipelines, ShaderStage::Fragment, idx),
    {
        self.push_constant_target(pipelines, ShaderStage::Fragment, idx)
    }
}

/// Where push constant number `idx` of `stage` goes for a context with this binding:
/// no pipeline bound, a dead handle, or no such range are errors, in that order.
pub open spec fn push_target(
    ctx: RenderContext,
    pipelines: ResourcePool<GraphicsPipeline>,
    stage: ShaderStage,
    idx: u32,
) -> Result<(u64, PushConstant), PipelineError> {
    match ctx.bound() {
        None => Err(PipelineError::NoBoundPipeline),
        Some(i) => if !pipelines@.contains_key(i) {
            Err(PipelineError::InvalidPipelineHandle)
        } else if (idx as int) < pipelines@[i].common.push_constants.ranges(stage).len() {
            Ok((pipelines@[i].common.pipeline_layout, pipelines@[i].common.push_constants.ranges(stage)[idx as int]))
        } else {
            Err(PipelineError::InvalidPushConstant)
        },
    }
}

/// Without a binding nothing is pushed: a context that has not bound a pipeline yet, or
/// whose rendering ended after its last bind, refuses every push constant for want of a
/// bound pipeline, whatever was bound before.
pub proof fn end_rendering_unbinds(
    ctx: RenderContext,
    pipelines: ResourcePool<GraphicsPipeline>,
    stage: ShaderStage,
    idx: u32,
)
    requires
        ctx.bound() is None,
    ensures
        push_target(ctx, pipelines, stage, idx) == Err::<(u64, PushConstant), PipelineError>(PipelineError::NoBoundPipeline),
{
}

} // verus!
