//! The per-slot descriptor of a bind-group layout.
use vstd::prelude::*;

verus! {

/// Shader stage bit: the binding is visible to vertex shaders.
pub const VERTEX: u32 = 1;

/// Shader stage bit: the binding is visible to fragment shaders.
pub const FRAGMENT: u32 = 2;

/// Shader stage bit: the binding is visible to compute shaders.
pub const COMPUTE: u32 = 4;

/// The kind of resource a binding slot holds.
#[derive(Clone, Copy, Debug, PartialEq, Eq, Structural)]
pub enum GPUBindingType {
    UniformBuffer,
    StorageBuffer,
    ReadonlyStorageBuffer,
    Sampler,
    ComparisonSampler,
    SampledTexture,
    MultisampledTexture,
    ReadonlyStorageTexture,
    WriteonlyStorageTexture,
}

/// The dimension of a texture view bound to a slot.
#[derive(Clone, Copy, Debug, PartialEq, Eq, Structural)]
pub enum GPUTextureViewDimension {
    D1,
    D2,
    D2Array,
    Cube,
    CubeArray,
    D3,
}

/// The component type a sampled texture binding yields.
#[derive(Clone, Copy, Debug, PartialEq, Eq, Structural)]
pub enum GPUTextureComponentType {
    Float,
    Sint,
    Uint,
}

/// What a layout declares about one binding slot: the stages that see it,
/// the kind of resource, and the parameters that only some kinds use.
#[derive(Clone, Copy, Debug, PartialEq, Eq, Structural)]
pub struct GPUBindGroupLayoutEntry {
    /// The slot index.
    pub binding: u32,
    /// A mask of `VERTEX`, `FRAGMENT` and `COMPUTE`.
    pub visibility: u32,
    pub type_: GPUBindingType,
    /// Buffer kinds: whether the binding takes a dynamic offset.
    pub has_dynamic_offset: bool,
    /// Buffer kinds: the least size a bound buffer must have, 0 for none.
    pub min_buffer_binding_size: u64,
    /// Texture kinds: the view dimension, where one is declared.
    pub view_dimension: Option<GPUTextureViewDimension>,
    /// Sampled texture kinds: the component type, where one is declared.
    pub texture_component_type: Option<GPUTextureComponentType>,
}

} // verus!
