//! Samplers: how a texture is filtered and addressed.
use vstd::prelude::*;

verus! {

pub const SAMPLER_FILTER_NEAREST: i32 = 0;
pub const SAMPLER_FILTER_LINEAR: i32 = 1;
pub const ADDRESS_MODE_REPEAT: i32 = 0;
pub const ADDRESS_MODE_MIRRORED_REPEAT: i32 = 1;
pub const ADDRESS_MODE_CLAMP_TO_EDGE: i32 = 2;
pub const ADDRESS_MODE_CLAMP_TO_BORDER: i32 = 3;

#[derive(Debug, Clone, Copy, PartialEq, Eq, Structural)]
pub enum Filter {
    Linear,
    Nearest,
}

impl Default for Filter {
    fn default() -> (filter: Self)
        ensures
            filter == Filter::Linear,
    {
        Filter::Linear
    }
}

pub open spec fn sampler_filter_raw(filter: Filter) -> i32 {
    match filter {
        Filter::Linear => SAMPLER_FILTER_LINEAR,
        Filter::Nearest => SAMPLER_FILTER_NEAREST,
    }
}

impl Filter {
    pub fn as_raw(&self) -> (raw: i32)
        ensures
            raw == sampler_filter_raw(*self),
    {
        match self {
            Filter::Linear => SAMPLER_FILTER_LINEAR,
            Filter::Nearest => SAMPLER_FILTER_NEAREST,
        }
    }
}

/// What a sampler does with coordinates outside the texture.
#[derive(Debug, Clone, Copy, PartialEq, Eq, Structural)]
pub enum AddressMode {
    Repeat,
    MirroredRepeat,
    ClampToEdge,
    ClampToBorder,
}

impl Default for AddressMode {
    fn default() -> (mode: Self)
        ensures
            mode == AddressMode::Repeat,
    {
        AddressMode::Repeat
    }
}

pub open spec fn address_mode_raw(mode: AddressMode) -> i32 {
    match mode {
        AddressMode::Repeat => ADDRESS_MODE_REPEAT,
        AddressMode::MirroredRepeat => ADDRESS_MODE_MIRRORED_REPEAT,
        AddressMode::ClampToEdge => ADDRESS_MODE_CLAMP_TO_EDGE,
        AddressMode::ClampToBorder => ADDRESS_MODE_CLAMP_TO_BORDER,
    }
}

impl AddressMode {
    pub fn as_raw(&self) -> (raw: i32)
        ensures
            raw == address_mode_raw(*self),
    {
        match self {
            AddressMode::Repeat => ADDRESS_MODE_REPEAT,
            AddressMode::MirroredRepeat => ADDRESS_MODE_MIRRORED_REPEAT,
            AddressMode::ClampToEdge => ADDRESS_MODE_CLAMP_TO_EDGE,
            AddressMode::ClampToBorder => ADDRESS_MODE_CLAMP_TO_BORDER,
        }
    }
}

/// How a sampler is created: its debug name, filter and address mode.
#[derive(Debug, Clone, Copy)]
pub struct SamplerDescription {
    pub name: Option<&'static str>,
    pub filter: Filter,
    pub address_mode: AddressMode,
}

impl Default for SamplerDescription {
    fn default() -> (desc: Self)
        ensures
            desc.name.is_none(),
            desc.filter == Filter::Linear,
            desc.address_mode == AddressMode::Repeat,
    {
        SamplerDescription { name: None, filter: Filter::Linear, address_mode: AddressMode::Repeat }
    }
}

/// The filters and address modes a sampler is created with, as Vulkan numbers.
#[derive(Debug, Clone, Copy, PartialEq, Eq, Structural)]
pub struct SamplerSettings {
    pub mag_filter: i32,
    pub min_filter: i32,
    pub address_mode_u: i32,
    pub address_mode_v: i32,
    pub address_mode_w: i32,
}

/// One filter for magnification and minification, one address mode for all three
/// coordinates.
pub fn sampler_settings(desc: &SamplerDescription) -> (settings: SamplerSettings)
    ensures
        settings == (SamplerSettings {
            mag_filter: sampler_filter_raw(desc.filter),
            min_filter: sampler_filter_raw(desc.filter),
            address_mode_u: address_mode_raw(desc.address_mode),
            address_mode_v: address_mode_raw(desc.address_mode),
            address_mode_w: address_mode_raw(desc.address_mode),
        }),
{
    let filter = desc.filter.as_raw();
    let mode = desc.address_mode.as_raw();
    SamplerSettings { mag_filter: filter, min_filter: filter, address_mode_u: mode, address_mode_v: mode, address_mode_w: mode }
}

} // verus!
