//! Resource pools with frame-delayed destruction.
use crate::handle::ResourceId;
use crate::pipeline::GraphicsPipeline;
use crate::pool::ResourcePool;
use vstd::prelude::*;

verus! {

/// How many frames the GPU may still be working on while the CPU records the next one.
pub const MAX_FRAMES_IN_FLIGHT: usize = 3;

#[verifier::external_type_specification]
#[verifier::external_body]
pub struct ExAnyhowError(anyhow::Error);

pub enum ResourceManagerError {
    InvalidPipelineHandle,
    ResourceNotInCache,
    FallbackError(anyhow::Error),
}

/// A resource waiting to be destroyed: pipelines, raw pipeline objects, shaders, images,
/// buffers and samplers.
pub enum Resource<G, S, I, B, M, P> {
    GraphicsPipeline(G),
    RawPipeline(P),
    Shader(S),
    Image(I),
    Buffer(B),
    Sampler(M),
}

/// Pools of live resources, and for each frame in flight a queue of resources deleted
/// while that frame was recorded. A queue is handed back for destruction only when its
/// frame slot comes round again, so the GPU is done with what it holds.
pub struct ResourceManager<G, S, I, B, M, P> {
    pub graphics_pipelines: ResourcePool<G>,
    pub shaders: ResourcePool<S>,
    pub images: ResourcePool<I>,
    pub buffers: ResourcePool<B>,
    pub samplers: ResourcePool<M>,
    pub to_consume: Vec<Vec<Resource<G, S, I, B, M, P>>>,
    pub consume_index: usize,
}

/// A pipeline can be rebuilt from two shaders: the pipeline and both shaders are live.
pub open spec fn pipeline_recreation_allowed<G, S, I, B, M, P>(
    m: ResourceManager<G, S, I, B, M, P>,
    pipeline_handle: ResourceId<G>,
    vertex_handle: ResourceId<S>,
    fragment_handle: ResourceId<S>,
) -> bool {
    &&& m.graphics_pipelines@.contains_key(pipeline_handle.index())
    &&& m.shaders@.contains_key(vertex_handle.index())
    &&& m.shaders@.contains_key(fragment_handle.index())
}

impl<G, S, I, B, M, P> ResourceManager<G, S, I, B, M, P> {
    /// One queue per frame in flight and a valid slot index.
    pub open spec fn wf(self) -> bool {
        &&& self.to_consume@.len() == MAX_FRAMES_IN_FLIGHT
        &&& self.consume_index < MAX_FRAMES_IN_FLIGHT
    }

    /// Whether there is one queue per frame in flight and the slot index is valid.
    pub fn is_well_formed(&self) -> (ok: bool)
        ensures
            ok == self.wf(),
    {
        self.to_consume.len() == MAX_FRAMES_IN_FLIGHT && self.consume_index < MAX_FRAMES_IN_FLIGHT
    }

    /// The resources queued in frame slot `slot`.
    pub open spec fn queue(self, slot: int) -> Seq<Resource<G, S, I, B, M, P>> {
        self.to_consume@[slot]@
    }

    /// The slot whose queue was handed back last.
    pub open spec fn consume_slot(self) -> int {
        self.consume_index as int
    }

    /// The graphics pipeline pool is unchanged between `self` and `other`.
    pub open spec fn same_graphics_pipelines(self, other: Self) -> bool {
        &&& self.graphics_pipelines@ == other.graphics_pipelines@
        &&& self.graphics_pipelines.next_index() == other.graphics_pipelines.next_index()
    }

    /// The shader pool is unchanged between `self` and `other`.
    pub open spec fn same_shaders(self, other: Self) -> bool {
        &&& self.shaders@ == other.shaders@
        &&& self.shaders.next_index() == other.shaders.next_index()
    }

    /// The image pool is unchanged between `self` and `other`.
    pub open spec fn same_images(self, other: Self) -> bool {
        &&& self.images@ == other.images@
        &&& self.images.next_index() == other.images.next_index()
    }

    /// The buffer pool is unchanged between `self` and `other`.
    pub open spec fn same_buffers(self, other: Self) -> bool {
        &&& self.buffers@ == other.buffers@
        &&& self.buffers.next_index() == other.buffers.next_index()
    }

    /// The sampler pool is unchanged between `self` and `other`.
    pub open spec fn same_samplers(self, other: Self) -> bool {
        &&& self.samplers@ == other.samplers@
        &&& self.samplers.next_index() == other.samplers.next_index()
    }

    /// The pools are unchanged between `self` and `other`.
    pub open spec fn same_pools(self, other: Self) -> bool {
        &&& self.same_graphics_pipelines(other)
        &&& self.same_shaders(other)
        &&& self.same_images(other)
        &&& self.same_buffers(other)
        &&& self.same_samplers(other)
    }

    /// The queues and the slot index are unchanged between `self` and `other`.
    pub open spec fn same_queues(self, other: Self) -> bool {
        &&& self.consume_slot() == other.consume_slot()
        &&& forall|slot: int| 0 <= slot < MAX_FRAMES_IN_FLIGHT ==> #[trigger] self.queue(slot) == other.queue(slot)
    }

    pub fn new() -> (m: Self)
        ensures
            m.wf(),
            m.consume_slot() == 0,
            forall|slot: int| 0 <= slot < MAX_FRAMES_IN_FLIGHT ==> #[trigger] m.queue(slot).len() == 0,
            m.graphics_pipelines@ == Map::<usize, G>::empty(),
            m.shaders@ == Map::<usize, S>::empty(),
            m.images@ == Map::<usize, I>::empty(),
            m.buffers@ == Map::<usize, B>::empty(),
            m.samplers@ == Map::<usize, M>::empty(),
    {
        let mut to_consume: Vec<Vec<Resource<G, S, I, B, M, P>>> = Vec::new();
        to_consume.push(Vec::new());
        to_consume.push(Vec::new());
        to_consume.push(Vec::new());
        ResourceManager {
            graphics_pipelines: ResourcePool::new(),
            shaders: ResourcePool::new(),
            images: ResourcePool::new(),
            buffers: ResourcePool::new(),
            samplers: ResourcePool::new(),
            to_consume,
            consume_index: 0,
        }
    }

    /// Appends `res` to the queue of frame slot `frame`.
    fn enqueue(&mut self, frame: usize, res: Resource<G, S, I, B, M, P>)
        requires
            old(self).wf(),
            frame < MAX_FRAMES_IN_FLIGHT,
        ensures
            final(self).wf(),
            final(self).same_pools(*old(self)),
            final(self).consume_slot() == old(self).consume_slot(),
            final(self).queue(frame as int) == old(self).queue(frame as int).push(res),
            forall|slot: int| 0 <= slot < MAX_FRAMES_IN_FLIGHT && slot != frame ==> #[trigger] final(self).queue(slot) == old(self).queue(slot),
    {
        self.to_consume[frame].push(res);
    }

    /// Advances to the next frame slot and hands back its queue for destruction; the
    /// queue is left empty.
    pub fn consume(&mut self) -> (destroyed: Vec<Resource<G, S, I, B, M, P>>)
        requires
            old(self).wf(),
        ensures
            final(self).wf(),
            final(self).same_pools(*old(self)),
            final(self).consume_slot() == (old(self).consume_slot() + 1) % (MAX_FRAMES_IN_FLIGHT as int),
            destroyed@ == old(self).queue(final(self).consume_slot()),
            final(self).queue(final(self).consume_slot()).len() == 0,
            forall|slot: int| 0 <= slot < MAX_FRAMES_IN_FLIGHT && slot != final(self).consume_slot() ==> #[trigger] final(self).queue(slot) == old(self).queue(slot),
    {
        self.consume_index = (self.consume_index + 1) % MAX_FRAMES_IN_FLIGHT;
        let mut destroyed: Vec<Resource<G, S, I, B, M, P>> = Vec::new();
        std::mem::swap(&mut destroyed, &mut self.to_consume[self.consume_index]);
        destroyed
    }

    pub fn insert_graphics_pipeline(&mut self, res: G) -> (id: ResourceId<G>)
        requires
            old(self).graphics_pipelines.next_index() < usize::MAX,
        ensures
            !old(self).graphics_pipelines@.contains_key(id.index()),
            final(self).graphics_pipelines@ == old(self).graphics_pipelines@.insert(id.index(), res),
            final(self).graphics_pipelines.next_index() == old(self).graphics_pipelines.next_index() + 1,
            final(self).same_shaders(*old(self)),
            final(self).same_images(*old(self)),
            final(self).same_buffers(*old(self)),
            final(self).same_samplers(*old(self)),
            final(self).same_queues(*old(self)),
            final(self).wf() == old(self).wf(),
    {
        self.graphics_pipelines.insert(res)
    }

    /// Removes the resource under `handle` from its pool and queues it for destruction in
    /// frame slot `current_frame_index`; a dead handle changes nothing.
    pub fn delete_graphics_pipeline(&mut self, handle: ResourceId<G>, current_frame_index: usize)
        requires
            old(self).wf(),
            current_frame_index < MAX_FRAMES_IN_FLIGHT,
        ensures
            final(self).wf(),
            final(self).graphics_pipelines@ == old(self).graphics_pipelines@.remove(handle.index()),
            final(self).graphics_pipelines.next_index() == old(self).graphics_pipelines.next_index(),
            final(self).same_shaders(*old(self)),
            final(self).same_images(*old(self)),
            final(self).same_buffers(*old(self)),
            final(self).same_samplers(*old(self)),
            final(self).consume_slot() == old(self).consume_slot(),
            old(self).graphics_pipelines@.contains_key(handle.index()) ==> final(self).queue(current_frame_index as int)
                == old(self).queue(current_frame_index as int).push(Resource::GraphicsPipeline(old(self).graphics_pipelines@[handle.index()])),
            !old(self).graphics_pipelines@.contains_key(handle.index()) ==> final(self).queue(current_frame_index as int)
                == old(self).queue(current_frame_index as int),
            forall|slot: int| 0 <= slot < MAX_FRAMES_IN_FLIGHT && slot != current_frame_index ==> #[trigger] final(self).queue(slot) == old(self).queue(slot),
    {
        if let Some(old) = self.graphics_pipelines.remove(handle) {
            self.enqueue(current_frame_index, Resource::GraphicsPipeline(old));
        }
    }

    /// Queues a resource that was never in a pool for destruction in frame slot
    /// `current_frame_index`.
    pub fn delete_graphics_pipeline_raw(&mut self, res: G, current_frame_index: usize)
        requires
            old(self).wf(),
            current_frame_index < MAX_FRAMES_IN_FLIGHT,
        ensures
            final(self).wf(),
            final(self).same_pools(*old(self)),
            final(self).consume_slot() == old(self).consume_slot(),
            final(self).queue(current_frame_index as int) == old(self).queue(current_frame_index as int).push(Resource::GraphicsPipeline(res)),
            forall|slot: int| 0 <= slot < MAX_FRAMES_IN_FLIGHT && slot != current_frame_index ==> #[trigger] final(self).queue(slot) == old(self).queue(slot),
    {
        self.enqueue(current_frame_index, Resource::GraphicsPipeline(res));
    }

    pub fn get_graphics_pipeline(&self, id: ResourceId<G>) -> (res: Option<&G>)
        ensures
            self.graphics_pipelines@.contains_key(id.index()) ==> res == Some(&self.graphics_pipelines@[id.index()]),
            !self.graphics_pipelines@.contains_key(id.index()) ==> res.is_none(),
    {
        self.graphics_pipelines.get(id)
    }

    pub fn insert_shader(&mut self, res: S) -> (id: ResourceId<S>)
        requires
            old(self).shaders.next_index() < usize::MAX,
        ensures
            !old(self).shaders@.contains_key(id.index()),
            final(self).shaders@ == old(self).shaders@.insert(id.index(), res),
            final(self).shaders.next_index() == old(self).shaders.next_index() + 1,
            final(self).same_graphics_pipelines(*old(self)),
            final(self).same_images(*old(self)),
            final(self).same_buffers(*old(self)),
            final(self).same_samplers(*old(self)),
            final(self).same_queues(*old(self)),
            final(self).wf() == old(self).wf(),
    {
        self.shaders.insert(res)
    }

    /// Removes the resource under `handle` from its pool and queues it for destruction in
    /// frame slot `current_frame_index`; a dead handle changes nothing.
    pub fn delete_shader(&mut self, handle: ResourceId<S>, current_frame_index: usize)
        requires
            old(self).wf(),
            current_frame_index < MAX_FRAMES_IN_FLIGHT,
        ensures
            final(self).wf(),
            final(self).shaders@ == old(self).shaders@.remove(handle.index()),
            final(self).shaders.next_index() == old(self).shaders.next_index(),
            final(self).same_graphics_pipelines(*old(self)),
            final(self).same_images(*old(self)),
            final(self).same_buffers(*old(self)),
            final(self).same_samplers(*old(self)),
            final(self).consume_slot() == old(self).consume_slot(),
            old(self).shaders@.contains_key(handle.index()) ==> final(self).queue(current_frame_index as int)
                == old(self).queue(current_frame_index as int).push(Resource::Shader(old(self).shaders@[handle.index()])),
            !old(self).shaders@.contains_key(handle.index()) ==> final(self).queue(current_frame_index as int)
                == old(self).queue(current_frame_index as int),
            forall|slot: int| 0 <= slot < MAX_FRAMES_IN_FLIGHT && slot != current_frame_index ==> #[trigger] final(self).queue(slot) == old(self).queue(slot),
    {
        if let Some(old) = self.shaders.remove(handle) {
            self.enqueue(current_frame_index, Resource::Shader(old));
        }
    }

    /// Queues a resource that was never in a pool for destruction in frame slot
    /// `current_frame_index`.
    pub fn delete_shader_raw(&mut self, res: S, current_frame_index: usize)
        requires
            old(self).wf(),
            current_frame_index < MAX_FRAMES_IN_FLIGHT,
        ensures
            final(self).wf(),
            final(self).same_pools(*old(self)),
            final(self).consume_slot() == old(self).consume_slot(),
            final(self).queue(current_frame_index as int) == old(self).queue(current_frame_index as int).push(Resource::Shader(res)),
            forall|slot: int| 0 <= slot < MAX_FRAMES_IN_FLIGHT && slot != current_frame_index ==> #[trigger] final(self).queue(slot) == old(self).queue(slot),
    {
        self.enqueue(current_frame_index, Resource::Shader(res));
    }

    pub fn get_shader(&self, id: ResourceId<S>) -> (res: Option<&S>)
        ensures
            self.shaders@.contains_key(id.index()) ==> res == Some(&self.shaders@[id.index()]),
            !self.shaders@.contains_key(id.index()) ==> res.is_none(),
    {
        self.shaders.get(id)
    }

    pub fn insert_image(&mut self, res: I) -> (id: ResourceId<I>)
        requires
            old(self).images.next_index() < usize::MAX,
        ensures
            !old(self).images@.contains_key(id.index()),
            final(self).images@ == old(self).images@.insert(id.index(), res),
            final(self).images.next_index() == old(self).images.next_index() + 1,
            final(self).same_graphics_pipelines(*old(self)),
            final(self).same_shaders(*old(self)),
            final(self).same_buffers(*old(self)),
            final(self).same_samplers(*old(self)),
            final(self).same_queues(*old(self)),
            final(self).wf() == old(self).wf(),
    {
        self.images.insert(res)
    }

    /// Removes the resource under `handle` from its pool and queues it for destruction in
    /// frame slot `current_frame_index`; a dead handle changes nothing.
    pub fn delete_image(&mut self, handle: ResourceId<I>, current_frame_index: usize)
        requires
            old(self).wf(),
            current_frame_index < MAX_FRAMES_IN_FLIGHT,
        ensures
            final(self).wf(),
            final(self).images@ == old(self).images@.remove(handle.index()),
            final(self).images.next_index() == old(self).images.next_index(),
            final(self).same_graphics_pipelines(*old(self)),
            final(self).same_shaders(*old(self)),
            final(self).same_buffers(*old(self)),
            final(self).same_samplers(*old(self)),
            final(self).consume_slot() == old(self).consume_slot(),
            old(self).images@.contains_key(handle.index()) ==> final(self).queue(current_frame_index as int)
                == old(self).queue(current_frame_index as int).push(Resource::Image(old(self).images@[handle.index()])),
            !old(self).images@.contains_key(handle.index()) ==> final(self).queue(current_frame_index as int)
                == old(self).queue(current_frame_index as int),
            forall|slot: int| 0 <= slot < MAX_FRAMES_IN_FLIGHT && slot != current_frame_index ==> #[trigger] final(self).queue(slot) == old(self).queue(slot),
    {
        if let Some(old) = self.images.remove(handle) {
            self.enqueue(current_frame_index, Resource::Image(old));
        }
    }

    /// Queues a resource that was never in a pool for destruction in frame slot
    /// `current_frame_index`.
    pub fn delete_image_raw(&mut self, res: I, current_frame_index: usize)
        requires
            old(self).wf(),
            current_frame_index < MAX_FRAMES_IN_FLIGHT,
        ensures
            final(self).wf(),
            final(self).same_pools(*old(self)),
            final(self).consume_slot() == old(self).consume_slot(),
            final(self).queue(current_frame_index as int) == old(self).queue(current_frame_index as int).push(Resource::Image(res)),
            forall|slot: int| 0 <= slot < MAX_FRAMES_IN_FLIGHT && slot != current_frame_index ==> #[trigger] final(self).queue(slot) == old(self).queue(slot),
    {
        self.enqueue(current_frame_index, Resource::Image(res));
    }

    pub fn get_image(&self, id: ResourceId<I>) -> (res: Option<&I>)
        ensures
            self.images@.contains_key(id.index()) ==> res == Some(&self.images@[id.index()]),
            !self.images@.contains_key(id.index()) ==> res.is_none(),
    {
        self.images.get(id)
    }

    pub fn insert_buffer(&mut self, res: B) -> (id: ResourceId<B>)
        requires
            old(self).buffers.next_index() < usize::MAX,
        ensures
            !old(self).buffers@.contains_key(id.index()),
            final(self).buffers@ == old(self).buffers@.insert(id.index(), res),
            final(self).buffers.next_index() == old(self).buffers.next_index() + 1,
            final(self).same_graphics_pipelines(*old(self)),
            final(self).same_shaders(*old(self)),
            final(self).same_images(*old(self)),
            final(self).same_samplers(*old(self)),
            final(self).same_queues(*old(self)),
            final(self).wf() == old(self).wf(),
    {
        self.buffers.insert(res)
    }

    /// Removes the resource under `handle` from its pool and queues it for destruction in
    /// frame slot `current_frame_index`; a dead handle changes nothing.
    pub fn delete_buffer(&mut self, handle: ResourceId<B>, current_frame_index: usize)
        requires
            old(self).wf(),
            current_frame_index < MAX_FRAMES_IN_FLIGHT,
        ensures
            final(self).wf(),
            final(self).buffers@ == old(self).buffers@.remove(handle.index()),
            final(self).buffers.next_index() == old(self).buffers.next_index(),
            final(self).same_graphics_pipelines(*old(self)),
            final(self).same_shaders(*old(self)),
            final(self).same_images(*old(self)),
            final(self).same_samplers(*old(self)),
            final(self).consume_slot() == old(self).consume_slot(),
            old(self).buffers@.contains_key(handle.index()) ==> final(self).queue(current_frame_index as int)
                == old(self).queue(current_frame_index as int).push(Resource::Buffer(old(self).buffers@[handle.index()])),
            !old(self).buffers@.contains_key(handle.index()) ==> final(self).queue(current_frame_index as int)
                == old(self).queue(current_frame_index as int),
            forall|slot: int| 0 <= slot < MAX_FRAMES_IN_FLIGHT && slot != current_frame_index ==> #[trigger] final(self).queue(slot) == old(self).queue(slot),
    {
        if let Some(old) = self.buffers.remove(handle) {
            self.enqueue(current_frame_index, Resource::Buffer(old));
        }
    }

    /// Queues a resource that was never in a pool for destruction in frame slot
    /// `current_frame_index`.
    pub fn delete_buffer_raw(&mut self, res: B, current_frame_index: usize)
        requires
            old(self).wf(),
            current_frame_index < MAX_FRAMES_IN_FLIGHT,
        ensures
            final(self).wf(),
            final(self).same_pools(*old(self)),
            final(self).consume_slot() == old(self).consume_slot(),
            final(self).queue(current_frame_index as int) == old(self).queue(current_frame_index as int).push(Resource::Buffer(res)),
            forall|slot: int| 0 <= slot < MAX_FRAMES_IN_FLIGHT && slot != current_frame_index ==> #[trigger] final(self).queue(slot) == old(self).queue(slot),
    {
        self.enqueue(current_frame_index, Resource::Buffer(res));
    }

    pub fn get_buffer(&self, id: ResourceId<B>) -> (res: Option<&B>)
        ensures
            self.buffers@.contains_key(id.index()) ==> res == Some(&self.buffers@[id.index()]),
            !self.buffers@.contains_key(id.index()) ==> res.is_none(),
    {
        self.buffers.get(id)
    }

    pub fn insert_sampler(&mut self, res: M) -> (id: ResourceId<M>)
        requires
            old(self).samplers.next_index() < usize::MAX,
        ensures
            !old(self).samplers@.contains_key(id.index()),
            final(self).samplers@ == old(self).samplers@.insert(id.index(), res),
            final(self).samplers.next_index() == old(self).samplers.next_index() + 1,
            final(self).same_graphics_pipelines(*old(self)),
            final(self).same_shaders(*old(self)),
            final(self).same_images(*old(self)),
            final(self).same_buffers(*old(self)),
            final(self).same_queues(*old(self)),
            final(self).wf() == old(self).wf(),
    {
        self.samplers.insert(res)
    }

    /// Removes the resource under `handle` from its pool and queues it for destruction in
    /// frame slot `current_frame_index`; a dead handle changes nothing.
    pub fn delete_sampler(&mut self, handle: ResourceId<M>, current_frame_index: usize)
        requires
            old(self).wf(),
            current_frame_index < MAX_FRAMES_IN_FLIGHT,
        ensures
            final(self).wf(),
            final(self).samplers@ == old(self).samplers@.remove(handle.index()),
            final(self).samplers.next_index() == old(self).samplers.next_index(),
            final(self).same_graphics_pipelines(*old(self)),
            final(self).same_shaders(*old(self)),
            final(self).same_images(*old(self)),
            final(self).same_buffers(*old(self)),
            final(self).consume_slot() == old(self).consume_slot(),
            old(self).samplers@.contains_key(handle.index()) ==> final(self).queue(current_frame_index as int)
                == old(self).queue(current_frame_index as int).push(Resource::Sampler(old(self).samplers@[handle.index()])),
            !old(self).samplers@.contains_key(handle.index()) ==> final(self).queue(current_frame_index as int)
                == old(self).queue(current_frame_index as int),
            forall|slot: int| 0 <= slot < MAX_FRAMES_IN_FLIGHT && slot != current_frame_index ==> #[trigger] final(self).queue(slot) == old(self).queue(slot),
    {
        if let Some(old) = self.samplers.remove(handle) {
            self.enqueue(current_frame_index, Resource::Sampler(old));
        }
    }

    /// Queues a resource that was never in a pool for destruction in frame slot
    /// `current_frame_index`.
    pub fn delete_sampler_raw(&mut self, res: M, current_frame_index: usize)
        requires
            old(self).wf(),
            current_frame_index < MAX_FRAMES_IN_FLIGHT,
        ensures
            final(self).wf(),
            final(self).same_pools(*old(self)),
            final(self).consume_slot() == old(self).consume_slot(),
            final(self).queue(current_frame_index as int) == old(self).queue(current_frame_index as int).push(Resource::Sampler(res)),
            forall|slot: int| 0 <= slot < MAX_FRAMES_IN_FLIGHT && slot != current_frame_index ==> #[trigger] final(self).queue(slot) == old(self).queue(slot),
    {
        self.enqueue(current_frame_index, Resource::Sampler(res));
    }

    pub fn get_sampler(&self, id: ResourceId<M>) -> (res: Option<&M>)
        ensures
            self.samplers@.contains_key(id.index()) ==> res == Some(&self.samplers@[id.index()]),
            !self.samplers@.contains_key(id.index()) ==> res.is_none(),
    {
        self.samplers.get(id)
    }

    pub fn get_graphics_pipeline_mut(&mut self, id: ResourceId<G>) -> (res: Option<&mut G>)
        ensures
            old(self).graphics_pipelines@.contains_key(id.index()) ==> res is Some && *res->Some_0 == old(self).graphics_pipelines@[id.index()]
                && final(self).graphics_pipelines@ == old(self).graphics_pipelines@.insert(id.index(), *final(res->Some_0)),
            !old(self).graphics_pipelines@.contains_key(id.index()) ==> res is None && final(self).graphics_pipelines@ == old(self).graphics_pipelines@,
            final(self).graphics_pipelines.next_index() == old(self).graphics_pipelines.next_index(),
            final(self).same_shaders(*old(self)),
            final(self).same_images(*old(self)),
            final(self).same_buffers(*old(self)),
            final(self).same_samplers(*old(self)),
            final(self).same_queues(*old(self)),
            final(self).wf() == old(self).wf(),
    {
        self.graphics_pipelines.get_mut(id)
    }

    pub fn get_shader_mut(&mut self, id: ResourceId<S>) -> (res: Option<&mut S>)
        ensures
            old(self).shaders@.contains_key(id.index()) ==> res is Some && *res->Some_0 == old(self).shaders@[id.index()]
                && final(self).shaders@ == old(self).shaders@.insert(id.index(), *final(res->Some_0)),
            !old(self).shaders@.contains_key(id.index()) ==> res is None && final(self).shaders@ == old(self).shaders@,
            final(self).shaders.next_index() == old(self).shaders.next_index(),
            final(self).same_graphics_pipelines(*old(self)),
            final(self).same_images(*old(self)),
            final(self).same_buffers(*old(self)),
            final(self).same_samplers(*old(self)),
            final(self).same_queues(*old(self)),
            final(self).wf() == old(self).wf(),
    {
        self.shaders.get_mut(id)
    }

    pub fn get_image_mut(&mut self, id: ResourceId<I>) -> (res: Option<&mut I>)
        ensures
            old(self).images@.contains_key(id.index()) ==> res is Some && *res->Some_0 == old(self).images@[id.index()]
                && final(self).images@ == old(self).images@.insert(id.index(), *final(res->Some_0)),
            !old(self).images@.contains_key(id.index()) ==> res is None && final(self).images@ == old(self).images@,
            final(self).images.next_index() == old(self).images.next_index(),
            final(self).same_graphics_pipelines(*old(self)),
            final(self).same_shaders(*old(self)),
            final(self).same_buffers(*old(self)),
            final(self).same_samplers(*old(self)),
            final(self).same_queues(*old(self)),
            final(self).wf() == old(self).wf(),
    {
        self.images.get_mut(id)
    }

    pub fn get_buffer_mut(&mut self, id: ResourceId<B>) -> (res: Option<&mut B>)
        ensures
            old(self).buffers@.contains_key(id.index()) ==> res is Some && *res->Some_0 == old(self).buffers@[id.index()]
                && final(self).buffers@ == old(self).buffers@.insert(id.index(), *final(res->Some_0)),
            !old(self).buffers@.contains_key(id.index()) ==> res is None && final(self).buffers@ == old(self).buffers@,
            final(self).buffers.next_index() == old(self).buffers.next_index(),
            final(self).same_graphics_pipelines(*old(self)),
            final(self).same_shaders(*old(self)),
            final(self).same_images(*old(self)),
            final(self).same_samplers(*old(self)),
            final(self).same_queues(*old(self)),
            final(self).wf() == old(self).wf(),
    {
        self.buffers.get_mut(id)
    }

    pub fn get_sampler_mut(&mut self, id: ResourceId<M>) -> (res: Option<&mut M>)
        ensures
            old(self).samplers@.contains_key(id.index()) ==> res is Some && *res->Some_0 == old(self).samplers@[id.index()]
                && final(self).samplers@ == old(self).samplers@.insert(id.index(), *final(res->Some_0)),
            !old(self).samplers@.contains_key(id.index()) ==> res is None && final(self).samplers@ == old(self).samplers@,
            final(self).samplers.next_index() == old(self).samplers.next_index(),
            final(self).same_graphics_pipelines(*old(self)),
            final(self).same_shaders(*old(self)),
            final(self).same_images(*old(self)),
            final(self).same_buffers(*old(self)),
            final(self).same_queues(*old(self)),
            final(self).wf() == old(self).wf(),
    {
        self.samplers.get_mut(id)
    }

    /// Puts a new shader under a live handle and queues the one it replaces for
    /// destruction in frame slot `current_frame_index`; a dead handle changes nothing.
    pub fn replace_shader(&mut self, handle: ResourceId<S>, new: S, current_frame_index: usize)
        requires
            old(self).wf(),
            current_frame_index < MAX_FRAMES_IN_FLIGHT,
        ensures
            final(self).wf(),
            final(self).consume_slot() == old(self).consume_slot(),
            final(self).shaders.next_index() == old(self).shaders.next_index(),
            final(self).same_graphics_pipelines(*old(self)),
            final(self).same_images(*old(self)),
            final(self).same_buffers(*old(self)),
            final(self).same_samplers(*old(self)),
            old(self).shaders@.contains_key(handle.index()) ==> final(self).shaders@ == old(self).shaders@.insert(handle.index(), new)
                && final(self).queue(current_frame_index as int) == old(self).queue(current_frame_index as int).push(
                Resource::Shader(old(self).shaders@[handle.index()])),
            !old(self).shaders@.contains_key(handle.index()) ==> final(self).shaders@ == old(self).shaders@
                && final(self).queue(current_frame_index as int) == old(self).queue(current_frame_index as int),
            forall|slot: int| 0 <= slot < MAX_FRAMES_IN_FLIGHT && slot != current_frame_index ==> #[trigger] final(self).queue(slot) == old(self).queue(slot),
    {
        if let Some(old) = self.shaders.replace(handle, new) {
            self.enqueue(current_frame_index, Resource::Shader(old));
        }
    }

    /// Queues a pipeline object that a recreated pipeline no longer uses.
    pub fn delete_raw_pipeline(&mut self, pipeline: P, current_frame_index: usize)
        requires
            old(self).wf(),
            current_frame_index < MAX_FRAMES_IN_FLIGHT,
        ensures
            final(self).wf(),
            final(self).same_pools(*old(self)),
            final(self).consume_slot() == old(self).consume_slot(),
            final(self).queue(current_frame_index as int) == old(self).queue(current_frame_index as int).push(Resource::RawPipeline(pipeline)),
            forall|slot: int| 0 <= slot < MAX_FRAMES_IN_FLIGHT && slot != current_frame_index ==> #[trigger] final(self).queue(slot) == old(self).queue(slot),
    {
        self.enqueue(current_frame_index, Resource::RawPipeline(pipeline));
    }

    /// Whether a pipeline can be rebuilt from two shaders: the pipeline must be live,
    /// then both shaders.
    pub fn check_pipeline_recreation(
        &self,
        pipeline_handle: ResourceId<G>,
        vertex_handle: ResourceId<S>,
        fragment_handle: ResourceId<S>,
    ) -> (res: Result<(), ResourceManagerError>)
        ensures
            !self.graphics_pipelines@.contains_key(pipeline_handle.index()) ==> res matches Err(ResourceManagerError::InvalidPipelineHandle),
            self.graphics_pipelines@.contains_key(pipeline_handle.index()) && !(self.shaders@.contains_key(vertex_handle.index())
                && self.shaders@.contains_key(fragment_handle.index())) ==> res matches Err(ResourceManagerError::ResourceNotInCache),
            self.graphics_pipelines@.contains_key(pipeline_handle.index()) && self.shaders@.contains_key(vertex_handle.index())
                && self.shaders@.contains_key(fragment_handle.index()) ==> res is Ok,
    {
        if !self.graphics_pipelines.contains(pipeline_handle) {
            return Err(ResourceManagerError::InvalidPipelineHandle);
        }
        if !self.shaders.contains(vertex_handle) {
            return Err(ResourceManagerError::ResourceNotInCache);
        }
        if !self.shaders.contains(fragment_handle) {
            return Err(ResourceManagerError::ResourceNotInCache);
        }
        Ok(())
    }

    /// Empties every pool and every queue. The pools' resources come back first, each
    /// pool in handle order, then the queues in the order in which `consume` would have
    /// handed them back.
    pub fn force_destroy(&mut self) -> (all: (Vec<G>, Vec<S>, Vec<I>, Vec<B>, Vec<M>, Vec<Resource<G, S, I, B, M, P>>))
        requires
            old(self).wf(),
        ensures
            final(self).wf(),
            all.0@ == old(self).graphics_pipelines.in_order(),
            all.1@ == old(self).shaders.in_order(),
            all.2@ == old(self).images.in_order(),
            all.3@ == old(self).buffers.in_order(),
            all.4@ == old(self).samplers.in_order(),
            all.5@ == old(self).queue((old(self).consume_slot() + 1) % 3) + old(self).queue((old(self).consume_slot() + 2) % 3)
                + old(self).queue(old(self).consume_slot()),
            final(self).graphics_pipelines@ == Map::<usize, G>::empty(),
            final(self).shaders@ == Map::<usize, S>::empty(),
            final(self).images@ == Map::<usize, I>::empty(),
            final(self).buffers@ == Map::<usize, B>::empty(),
            final(self).samplers@ == Map::<usize, M>::empty(),
            final(self).consume_slot() == old(self).consume_slot(),
            forall|slot: int| 0 <= slot < MAX_FRAMES_IN_FLIGHT ==> #[trigger] final(self).queue(slot).len() == 0,
    {
        let pipelines = self.graphics_pipelines.drain();
        let shaders = self.shaders.drain();
        let images = self.images.drain();
        let buffers = self.buffers.drain();
        let samplers = self.samplers.drain();
        let mut queued = self.consume();
        let mut second = self.consume();
        let mut third = self.consume();
        queued.append(&mut second);
        queued.append(&mut third);
        (pipelines, shaders, images, buffers, samplers, queued)
    }
}


impl<S, I, B, M> ResourceManager<GraphicsPipeline, S, I, B, M, u64> {
    /// Rebuilds the graphics pipeline under `pipeline_handle` from two shaders.
    /// `rebuilt` is what creating its new pipeline object with the graphics API gave: the
    /// object, or the error. The pipeline must be live, then both shaders, then the
    /// creation must have worked; the pipeline then takes the new object and its old
    /// one is queued for destruction in frame slot `current_frame_index`. On an error
    /// nothing changes.
    pub fn recreate_graphics_pipeline(
        &mut self,
        pipeline_handle: ResourceId<GraphicsPipeline>,
        vertex_handle: ResourceId<S>,
        fragment_handle: ResourceId<S>,
        current_frame_index: usize,
        rebuilt: Result<u64, anyhow::Error>,
    ) -> (res: Result<(), ResourceManagerError>)
        requires
            old(self).wf(),
            current_frame_index < MAX_FRAMES_IN_FLIGHT,
        ensures
            final(self).wf(),
            !old(self).graphics_pipelines@.contains_key(pipeline_handle.index()) ==> res matches Err(
                ResourceManagerError::InvalidPipelineHandle),
            old(self).graphics_pipelines@.contains_key(pipeline_handle.index()) && !(old(self).shaders@.contains_key(
                vertex_handle.index()) && old(self).shaders@.contains_key(fragment_handle.index())) ==> res matches Err(
                ResourceManagerError::ResourceNotInCache),
            pipeline_recreation_allowed(*old(self), pipeline_handle, vertex_handle, fragment_handle) ==> match rebuilt {
                Ok(new_pipeline) => {
                    let i = pipeline_handle.index();
                    let before = old(self).graphics_pipelines@[i];
                    let after = final(self).graphics_pipelines@[i];
                    &&& res is Ok
                    &&& final(self).graphics_pipelines@.contains_key(i)
                    &&& final(self).graphics_pipelines@.remove(i) == old(self).graphics_pipelines@.remove(i)
                    &&& after.common.pipeline == new_pipeline
                    &&& after.common.pipeline_layout == before.common.pipeline_layout
                    &&& after.common.push_constants.vertex@ == before.common.push_constants.vertex@
                    &&& after.common.push_constants.fragment@ == before.common.push_constants.fragment@
                    &&& after.common.push_constants.compute@ == before.common.push_constants.compute@
                    &&& after.common.bind_group_counts@ == before.common.bind_group_counts@
                    &&& after.desc == before.desc
                    &&& final(self).queue(current_frame_index as int) == old(self).queue(current_frame_index as int).push(
                        Resource::RawPipeline(before.common.pipeline))
                },
                Err(e) => res matches Err(ResourceManagerError::FallbackError(f)) && f == e,
            },
            res is Err ==> final(self).same_pools(*old(self)) && final(self).same_queues(*old(self)),
            res is Ok ==> {
                &&& final(self).graphics_pipelines.next_index() == old(self).graphics_pipelines.next_index()
                &&& final(self).shaders@ == old(self).shaders@
                &&& final(self).shaders.next_index() == old(self).shaders.next_index()
                &&& final(self).images@ == old(self).images@
                &&& final(self).images.next_index() == old(self).images.next_index()
                &&& final(self).buffers@ == old(self).buffers@
                &&& final(self).buffers.next_index() == old(self).buffers.next_index()
                &&& final(self).samplers@ == old(self).samplers@
                &&& final(self).samplers.next_index() == old(self).samplers.next_index()
                &&& final(self).consume_slot() == old(self).consume_slot()
                &&& forall|slot: int| 0 <= slot < MAX_FRAMES_IN_FLIGHT && slot != current_frame_index ==> #[trigger] final(self).queue(slot) == old(self).queue(slot)
            },
    {
        match self.check_pipeline_recreation(pipeline_handle, vertex_handle, fragment_handle) {
            Err(e) => {
                return Err(e);
            },
            Ok(()) => {},
        }
        let new_pipeline = match rebuilt {
            Err(e) => {
                return Err(ResourceManagerError::FallbackError(e));
            },
            Ok(p) => p,
        };
        let ghost before = self.graphics_pipelines@;
        let old_pipeline = match self.graphics_pipelines.get_mut(pipeline_handle) {
            Some(pipeline) => pipeline.common.replace_pipeline(new_pipeline),
            None => {
                return Err(ResourceManagerError::InvalidPipelineHandle);
            },
        };
        proof {
            assert(self.graphics_pipelines@.remove(pipeline_handle.index()) =~= before.remove(pipeline_handle.index()));
        }
        self.enqueue(current_frame_index, Resource::RawPipeline(old_pipeline));
        Ok(())
    }
}

} // verus!
