//! Buffers: their usage flags and how they are created.
use crate::memory::{find_memory_type_index, memory_type_fits, required_properties, MemoryType, MAX_MEMORY_TYPES};
use vstd::prelude::*;

verus! {

#[derive(Debug, Clone, Copy, PartialEq, Eq, Structural)]
pub enum BufferError {
    NoSuitableMemoryType,
    NotMemoryMappable,
}

impl BufferError {
    pub fn message(&self) -> (text: &'static str)
        ensures
            text@ == (match self {
                BufferError::NoSuitableMemoryType => "No suitable memory type found"@,
                BufferError::NotMemoryMappable => "Buffer is not mappable from CPU memory"@,
            }),
    {
        match self {
            BufferError::NoSuitableMemoryType => "No suitable memory type found",
            BufferError::NotMemoryMappable => "Buffer is not mappable from CPU memory",
        }
    }
}

/// The ways a buffer may be used, as the bits of the Vulkan buffer usage flags.
#[derive(Debug, Clone, Copy, PartialEq, Eq, Structural)]
pub struct BufferUsage {
    bits: u32,
}

impl BufferUsage {
    pub const TRANSFER_SRC: u32 = 0x1;
    pub const TRANSFER_DST: u32 = 0x2;
    pub const UNIFORM: u32 = 0x10;
    pub const STORAGE: u32 = 0x20;
    pub const INDEX: u32 = 0x40;
    pub const VERTEX: u32 = 0x80;
    /// Every flag above.
    pub const ALL: u32 = 0xf3;

    /// The bits of the usage.
    pub closed spec fn flags(self) -> u32 {
        self.bits
    }

    /// The usage with none of the flags.
    pub fn empty() -> (usage: Self)
        ensures
            usage.flags() == 0,
    {
        BufferUsage { bits: 0 }
    }

    /// The usage with the flags of `bits` that are known; other bits are dropped.
    pub fn from_bits_truncate(bits: u32) -> (usage: Self)
        ensures
            usage.flags() == bits & BufferUsage::ALL,
    {
        BufferUsage { bits: bits & BufferUsage::ALL }
    }

    pub fn bits(&self) -> (bits: u32)
        ensures
            bits == self.flags(),
    {
        self.bits
    }

    /// The flags of both usages.
    pub fn union(self, other: BufferUsage) -> (usage: Self)
        ensures
            usage.flags() == self.flags() | other.flags(),
    {
        BufferUsage { bits: self.bits | other.bits }
    }

    /// Whether every flag of `other` is set here.
    pub fn contains(&self, other: BufferUsage) -> (contained: bool)
        ensures
            contained == (self.flags() & other.flags() == other.flags()),
    {
        self.bits & other.bits == other.bits
    }
}

impl Default for BufferUsage {
    fn default() -> (usage: Self)
        ensures
            usage.flags() == 0,
    {
        BufferUsage::empty()
    }
}

/// How a buffer is created: its debug name, usage and memory.
#[derive(Debug, Clone, Copy)]
pub struct BufferDescription {
    pub name: Option<&'static str>,
    pub usage: BufferUsage,
    pub memory_ty: MemoryType,
}

impl Default for BufferDescription {
    /// An unnamed buffer with no usage flags, in CPU-visible memory.
    fn default() -> (desc: Self)
        ensures
            desc.name.is_none(),
            desc.usage.flags() == 0,
            desc.memory_ty == MemoryType::CpuVisible,
    {
        BufferDescription { name: None, usage: BufferUsage::empty(), memory_ty: MemoryType::CpuVisible }
    }
}

/// A buffer: its Vulkan buffer by raw handle, its size in bytes, how many elements it
/// was filled with, and whether its memory is mapped for the CPU.
pub struct Buffer {
    pub raw: u64,
    pub size_bytes: u64,
    pub num_elements: Option<u32>,
    pub mapped: bool,
}

/// What a descriptor of a whole buffer names: the buffer, offset zero and its size.
#[derive(Debug, Clone, Copy, PartialEq, Eq, Structural)]
pub struct BindBufferInfo {
    pub buffer: u64,
    pub offset: u64,
    pub range: u64,
}

impl Buffer {
    pub fn bind_info(&self) -> (info: BindBufferInfo)
        ensures
            info == (BindBufferInfo { buffer: self.raw, offset: 0, range: self.size_bytes }),
    {
        BindBufferInfo { buffer: self.raw, offset: 0, range: self.size_bytes }
    }

    pub fn size_bytes(&self) -> (size: u64)
        ensures
            size == self.size_bytes,
    {
        self.size_bytes
    }

    pub fn num_elements(&self) -> (n: Option<u32>)
        ensures
            n == self.num_elements,
    {
        self.num_elements
    }

    /// Where a copy of data into the buffer at `offset` starts: only mapped memory can
    /// be written from the CPU.
    pub fn mem_copy_offset(&self, offset: u64) -> (dst: Result<u64, BufferError>)
        ensures
            self.mapped ==> dst == Ok::<u64, BufferError>(offset),
            !self.mapped ==> dst == Err::<u64, BufferError>(BufferError::NotMemoryMappable),
    {
        if self.mapped {
            Ok(offset)
        } else {
            Err(BufferError::NotMemoryMappable)
        }
    }
}

/// How a buffer of `size` bytes and description `desc` is created: its usage bits, and
/// whether it is mapped for the CPU.
pub fn buffer_settings(size: u64, desc: &BufferDescription) -> (settings: (u64, u32, bool))
    ensures
        settings == (size, desc.usage.flags(), desc.memory_ty == MemoryType::CpuVisible),
{
    (size, desc.usage.bits(), desc.memory_ty.is_cpu_visible())
}

/// A buffer filled with `count` elements of `element_size` bytes: its size in bytes and
/// element count.
pub fn buffer_with_data_size(element_size: u64, count: usize) -> (size: (u64, Option<u32>))
    requires
        element_size * count <= u64::MAX,
        count <= u32::MAX,
    ensures
        size == ((element_size * count) as u64, Some(count as u32)),
{
    (element_size * (count as u64), Some(count as u32))
}

/// The memory type a buffer of `desc` is allocated from: the first one its memory
/// requirements allow that has the properties of its memory type; an error where there
/// is none.
pub fn buffer_memory_type_index(type_bits: u32, properties: &Vec<u32>, desc: &BufferDescription) -> (index: Result<u32, BufferError>)
    requires
        properties@.len() <= MAX_MEMORY_TYPES,
    ensures
        match index {
            Ok(i) => memory_type_fits(type_bits, properties@, required_properties(desc.memory_ty), i as int)
                && forall|j: int| 0 <= j < i ==> !memory_type_fits(type_bits, properties@, required_properties(desc.memory_ty), j),
            Err(e) => e == BufferError::NoSuitableMemoryType
                && forall|j: int| 0 <= j < properties@.len() ==> !memory_type_fits(type_bits, properties@, required_properties(desc.memory_ty), j),
        },
{
    match find_memory_type_index(type_bits, properties, desc.memory_ty.property_flags()) {
        Some(i) => Ok(i),
        None => Err(BufferError::NoSuitableMemoryType),
    }
}

} // verus!
