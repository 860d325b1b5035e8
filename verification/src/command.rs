//! Command lists: one per frame in flight, and where the push constants a command list
//! records go.
use crate::manager::MAX_FRAMES_IN_FLIGHT;
use crate::pipeline::{GraphicsPipeline, PipelineCommon, PipelineError};
use crate::shader::{PushConstant, ShaderStage};
use vstd::prelude::*;

verus! {

/// The command pool and one command list per frame in flight, by raw handle.
pub struct CommandQueue {
    pub command_pool: u64,
    pub command_lists: Vec<u64>,
}

impl CommandQueue {
    pub open spec fn wf(self) -> bool {
        self.command_lists@.len() == MAX_FRAMES_IN_FLIGHT
    }

    pub fn new(command_pool: u64, command_lists: Vec<u64>) -> (queue: Self)
        requires
            command_lists@.len() == MAX_FRAMES_IN_FLIGHT,
        ensures
            queue.wf(),
            queue.command_pool == command_pool,
            queue.command_lists@ == command_lists@,
    {
        CommandQueue { command_pool, command_lists }
    }

    /// The command list of the frame in flight `current_frame_in_flight`.
    pub fn get_command_list(&self, current_frame_in_flight: usize) -> (list: u64)
        requires
            self.wf(),
            current_frame_in_flight < MAX_FRAMES_IN_FLIGHT,
        ensures
            list == self.command_lists@[current_frame_in_flight as int],
    {
        self.command_lists[current_frame_in_flight]
    }
}

/// The push constant range that `shader_stage`'s push constant number `idx` goes to; an
/// error where the pipeline has no such range.
pub fn push_constant(pipeline_common: &PipelineCommon, shader_stage: ShaderStage, idx: u32) -> (res: Result<PushConstant, PipelineError>)
    ensures
        (idx as int) < pipeline_common.push_constants.ranges(shader_stage).len()
            ==> res == Ok::<PushConstant, PipelineError>(pipeline_common.push_constants.ranges(shader_stage)[idx as int]),
        (idx as int) >= pipeline_common.push_constants.ranges(shader_stage).len()
            ==> res == Err::<PushConstant, PipelineError>(PipelineError::InvalidPushConstant),
{
    match pipeline_common.get_push_constant(shader_stage, idx) {
        Some(pc) => Ok(pc),
        None => Err(PipelineError::InvalidPushConstant),
    }
}

/// Where the bytes of vertex push constant number `idx` of `pipeline` go.
pub fn set_vertex_bytes(pipeline: &GraphicsPipeline, idx: u32) -> (res: Result<PushConstant, PipelineError>)
    ensures
        (idx as int) < pipeline.common.push_constants.vertex@.len()
            ==> res == Ok::<PushConstant, PipelineError>(pipeline.common.push_constants.vertex@[idx as int]),
        (idx as int) >= pipeline.common.push_constants.vertex@.len()
            ==> res == Err::<PushConstant, PipelineError>(PipelineError::InvalidPushConstant),
{
    push_constant(&pipeline.common, ShaderStage::Vertex, idx)
}

/// Where the bytes of fragment push constant number `idx` of `pipeline` go.
pub fn set_fragment_bytes(pipeline: &GraphicsPipeline, idx: u32) -> (res: Result<PushConstant, PipelineError>)
    ensures
        (idx as int) < pipeline.common.push_constants.fragment@.len()
            ==> res == Ok::<PushConstant, PipelineError>(pipeline.common.push_constants.fragment@[idx as int]),
        (idx as int) >= pipeline.common.push_constants.fragment@.len()
            ==> res == Err::<PushConstant, PipelineError>(PipelineError::InvalidPushConstant),
{
    push_constant(&pipeline.common, ShaderStage::Fragment, idx)
}

} // verus!
