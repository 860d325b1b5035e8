//! Device memory: where a resource lives and which memory type it is allocated from.
use vstd::prelude::*;

verus! {

pub const MEMORY_PROPERTY_DEVICE_LOCAL: u32 = 0x1;
pub const MEMORY_PROPERTY_HOST_VISIBLE: u32 = 0x2;
pub const MEMORY_PROPERTY_HOST_COHERENT: u32 = 0x4;
/// Host visible and host coherent together.
pub const MEMORY_PROPERTY_HOST_VISIBLE_COHERENT: u32 = 0x6;

/// The most memory types a device reports.
pub const MAX_MEMORY_TYPES: usize = 32;

/// Where a resource's memory lives: mapped into the CPU's address space, or on the
/// GPU only.
#[derive(Debug, Clone, Copy, PartialEq, Eq, Structural)]
pub enum MemoryType {
    CpuVisible,
    GpuOnly,
}

impl Default for MemoryType {
    fn default() -> (ty: Self)
        ensures
            ty == MemoryType::CpuVisible,
    {
        MemoryType::CpuVisible
    }
}

/// The memory property flags a memory type must have to hold memory of `ty`.
pub open spec fn required_properties(ty: MemoryType) -> u32 {
    match ty {
        MemoryType::CpuVisible => MEMORY_PROPERTY_HOST_VISIBLE_COHERENT,
        MemoryType::GpuOnly => MEMORY_PROPERTY_DEVICE_LOCAL,
    }
}

impl MemoryType {
    pub fn is_cpu_visible(&self) -> (visible: bool)
        ensures
            visible == (*self == MemoryType::CpuVisible),
    {
        match self {
            MemoryType::CpuVisible => true,
            MemoryType::GpuOnly => false,
        }
    }

    /// The property flags that memory of this type needs: host visible and coherent,
    /// or device local.
    pub fn property_flags(&self) -> (flags: u32)
        ensures
            flags == required_properties(*self),
    {
        match self {
            MemoryType::CpuVisible => MEMORY_PROPERTY_HOST_VISIBLE_COHERENT,
            MemoryType::GpuOnly => MEMORY_PROPERTY_DEVICE_LOCAL,
        }
    }
}

/// Whether memory type `index` may back a resource whose requirements allow the types
/// in `type_bits` and which needs the property flags `required`.
pub open spec fn memory_type_fits(type_bits: u32, properties: Seq<u32>, required: u32, index: int) -> bool {
    &&& 0 <= index < properties.len()
    &&& (1u32 << (index as u32)) & type_bits != 0
    &&& properties[index] & required == required
}

/// The first memory type that a resource may use and that has all the `required`
/// property flags, among the device's memory types with flags `properties`; `None`
/// where there is none.
pub fn find_memory_type_index(type_bits: u32, properties: &Vec<u32>, required: u32) -> (index: Option<u32>)
    requires
        properties@.len() <= MAX_MEMORY_TYPES,
    ensures
        match index {
            Some(i) => memory_type_fits(type_bits, properties@, required, i as int)
                && forall|j: int| 0 <= j < i ==> !memory_type_fits(type_bits, properties@, required, j),
            None => forall|j: int| 0 <= j < properties@.len() ==> !memory_type_fits(type_bits, properties@, required, j),
        },
{
    let mut i: usize = 0;
    while i < properties.len()
        invariant
            i <= properties@.len() <= MAX_MEMORY_TYPES,
            forall|j: int| 0 <= j < i ==> !memory_type_fits(type_bits, properties@, required, j),
        decreases properties@.len() - i,
    {
        let bit = 1u32 << (i as u32);
        if bit & type_bits != 0 && properties[i] & required == required {
            return Some(i as u32);
        }
        i += 1;
    }
    None
}

} // verus!
