//! The serialized form of a render graph: its passes with the resources each reads
//! and writes.
use crate::image::Format;
use vstd::prelude::*;

verus! {

/// The kind of a render graph resource.
#[derive(Debug, Clone, Copy, PartialEq, Eq, Structural)]
pub enum RenderGraphResourceType {
    Texture,
    Buffer,
    Reference,
}

pub struct BufferOutputInfo {
    pub name: String,
    pub size: u64,
}

pub struct TextureOuputInfo {
    pub name: String,
    pub resolution: [u32; 2],
    pub format: Format,
}

pub struct ReferenceOutputInfo {
    pub name: String,
}

pub enum RenderGraphResourceInfo {
    Texture(TextureOuputInfo),
    Buffer(BufferOutputInfo),
    Reference(ReferenceOutputInfo),
}

pub struct RenderGraphOutput {
    pub ty: RenderGraphResourceType,
    pub info: RenderGraphResourceInfo,
}

pub struct RenderGraphInput {
    pub ty: RenderGraphResourceType,
    pub name: String,
}

pub struct RenderGraphPass {
    pub name: String,
    pub inputs: Vec<RenderGraphInput>,
    pub outputs: Vec<RenderGraphOutput>,
}

pub struct RenderGraphRepr {
    pub name: String,
    pub passes: Vec<RenderGraphPass>,
}

} // verus!
