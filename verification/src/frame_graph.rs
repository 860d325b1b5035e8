//! The frame graph: passes registered by what they draw with, each under a handle
//! derived from its description.
use crate::handle::ResourceHandle;
use crate::image::Image;
use crate::pipeline::GraphicsPipeline;
use std::collections::hash_map::DefaultHasher;
use std::hash::Hasher;
use vstd::prelude::*;
use vstd::std_specs::hash::DefaultHasherAdditionalSpecFns;
use vstd::utf8::encode_utf8;

verus! {

/// What a pass draws: its name, the pipeline it draws with, the image it reads, the
/// depth image it tests against if any, and the viewport size.
pub struct PassInfo {
    pub name: String,
    pub pipeline_handle: ResourceHandle<GraphicsPipeline>,
    pub input_image: ResourceHandle<Image>,
    pub depth_image: Option<ResourceHandle<Image>>,
    pub viewport_size: [u32; 2],
}

/// The tag type of pass handles.
pub struct Pass;

/// The eight little-endian bytes of `x`.
pub open spec fn le_bytes(x: u64) -> Seq<u8> {
    Seq::new(8, |i: int| ((x >> ((8 * i) as u64)) & 0xff) as u8)
}

/// The byte strings a pass description is hashed from, in order: the name's UTF-8
/// bytes, the pipeline and input image handles, a tag and the depth image handle if
/// any, and the viewport width and height.
pub open spec fn pass_info_bytes(info: PassInfo) -> Seq<Seq<u8>> {
    seq![
        encode_utf8(info.name@),
        le_bytes(info.pipeline_handle.index() as u64),
        le_bytes(info.input_image.index() as u64),
        match info.depth_image {
            Some(h) => seq![1u8] + le_bytes(h.index() as u64),
            None => seq![0u8],
        },
        le_bytes(info.viewport_size[0] as u64),
        le_bytes(info.viewport_size[1] as u64),
    ]
}

/// The handle a pass gets: the default hash of its description.
pub open spec fn pass_handle_index(info: PassInfo) -> usize {
    DefaultHasher::spec_finish(pass_info_bytes(info)) as usize
}

fn le_bytes_vec(x: u64) -> (bytes: Vec<u8>)
    ensures
        bytes@ == le_bytes(x),
{
    let mut bytes: Vec<u8> = Vec::new();
    let mut i: u64 = 0;
    while i < 8
        invariant
            i <= 8,
            bytes@ =~= le_bytes(x).take(i as int),
        decreases 8 - i,
    {
        bytes.push(((x >> (8 * i)) & 0xff) as u8);
        i += 1;
    }
    assert(le_bytes(x).take(8) =~= le_bytes(x));
    bytes
}

/// The passes registered so far, each with its handle, in order.
pub struct FrameGraph {
    pub pass_infos: Vec<(ResourceHandle<Pass>, PassInfo)>,
}

impl Default for FrameGraph {
    fn default() -> (graph: Self)
        ensures
            graph.pass_infos@.len() == 0,
    {
        FrameGraph { pass_infos: Vec::new() }
    }
}

impl FrameGraph {
    /// Registers a pass under the hash of its description and gives back its handle.
    pub fn add_pass(&mut self, pass_info: PassInfo) -> (handle: ResourceHandle<Pass>)
        ensures
            handle.index() == pass_handle_index(pass_info),
            final(self).pass_infos@.len() == old(self).pass_infos@.len() + 1,
            forall|i: int| 0 <= i < old(self).pass_infos@.len() ==> #[trigger] final(self).pass_infos@[i] == old(self).pass_infos@[i],
            final(self).pass_infos@.last().0.index() == handle.index(),
            final(self).pass_infos@.last().1 == pass_info,
    {
        let mut hasher = DefaultHasher::new();
        hasher.write(pass_info.name.as_str().as_bytes());
        let pipeline_bytes = le_bytes_vec(pass_info.pipeline_handle.id() as u64);
        hasher.write(pipeline_bytes.as_slice());
        let input_bytes = le_bytes_vec(pass_info.input_image.id() as u64);
        hasher.write(input_bytes.as_slice());
        let mut depth_bytes: Vec<u8> = Vec::new();
        match &pass_info.depth_image {
            Some(h) => {
                depth_bytes.push(1u8);
                let mut id_bytes = le_bytes_vec(h.id() as u64);
                depth_bytes.append(&mut id_bytes);
            },
            None => {
                depth_bytes.push(0u8);
            },
        }
        hasher.write(depth_bytes.as_slice());
        let width_bytes = le_bytes_vec(pass_info.viewport_size[0] as u64);
        hasher.write(width_bytes.as_slice());
        let height_bytes = le_bytes_vec(pass_info.viewport_size[1] as u64);
        hasher.write(height_bytes.as_slice());
        proof {
            assert(hasher@ =~= pass_info_bytes(pass_info));
        }
        let handle = ResourceHandle::from_index(hasher.finish() as usize);
        let copy = handle.clone();
        self.pass_infos.push((copy, pass_info));
        handle
    }

    /// The graph's handle; the graph is not compiled yet, so it is always the first.
    pub fn build_graph(&self) -> (handle: ResourceHandle<FrameGraph>)
        ensures
            handle.index() == 0,
    {
        ResourceHandle::from_index(0)
    }
}

} // verus!
