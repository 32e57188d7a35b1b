//! Plain descriptions of the device objects the engine asks for.
//!
//! Every choice the engine makes about a texture, a buffer or a binding is
//! made on these values; the device layer only hands them on.

use vstd::prelude::*;

verus! {

/// A texel format of a texture.
#[derive(Clone, Copy, Debug, PartialEq, Eq, Structural, Hash)]
pub enum TexelFormat {
    /// Four 32-bit float channels; the format of every intermediate image.
    Rgba32Float,
    /// Four 16-bit float channels.
    Rgba16Float,
}

/// The texture may be the source of a copy.
pub const TEXTURE_COPY_SRC: u32 = 1;

/// The texture may be the destination of a copy or of a queue write.
pub const TEXTURE_COPY_DST: u32 = 2;

/// The texture may be bound for sampling or loading.
pub const TEXTURE_BINDING: u32 = 4;

/// The texture may be bound as a storage texture.
pub const TEXTURE_STORAGE_BINDING: u32 = 8;

/// What a texture that receives an uploaded image is used for.
pub const UPLOAD_TEXTURE_USAGE: u32 = 6;

/// What the output texture of a compute step is used for.
pub const OUTPUT_TEXTURE_USAGE: u32 = 13;

/// The buffer may be mapped for reading.
pub const BUFFER_MAP_READ: u32 = 1;

/// The buffer may be the source of a copy.
pub const BUFFER_COPY_SRC: u32 = 4;

/// The buffer may be the destination of a copy.
pub const BUFFER_COPY_DST: u32 = 8;

/// The buffer may be bound as a storage buffer.
pub const BUFFER_STORAGE: u32 = 128;

/// What the buffer that a shader packs the final pixels into is used for.
pub const PACKED_BUFFER_USAGE: u32 = 132;

/// What a buffer that is read back on the host is used for.
pub const READBACK_BUFFER_USAGE: u32 = 9;

/// The usage constants are the unions of the single uses they are named for.
pub proof fn lemma_usage_unions()
    ensures
        UPLOAD_TEXTURE_USAGE == TEXTURE_BINDING | TEXTURE_COPY_DST,
        OUTPUT_TEXTURE_USAGE == TEXTURE_BINDING | TEXTURE_STORAGE_BINDING | TEXTURE_COPY_SRC,
        PACKED_BUFFER_USAGE == BUFFER_STORAGE | BUFFER_COPY_SRC,
        READBACK_BUFFER_USAGE == BUFFER_MAP_READ | BUFFER_COPY_DST,
{
    assert(6u32 == 4u32 | 2u32) by (bit_vector);
    assert(13u32 == 4u32 | 8u32 | 1u32) by (bit_vector);
    assert(132u32 == 128u32 | 4u32) by (bit_vector);
    assert(9u32 == 1u32 | 8u32) by (bit_vector);
}

/// How a sampler treats coordinates outside the texture.
#[derive(Clone, Copy, Debug, PartialEq, Eq, Structural, Hash)]
pub enum Addressing {
    ClampToEdge,
    Repeat,
    MirrorRepeat,
    ClampToBorder,
}

/// How a sampler combines texels.
#[derive(Clone, Copy, Debug, PartialEq, Eq, Structural, Hash)]
pub enum Filtering {
    Nearest,
    Linear,
}

/// What a binding of a bind group layout holds.
#[derive(Clone, Copy, Debug, PartialEq, Eq, Structural, Hash)]
pub enum BindingKind {
    /// A 2-D float texture that is loaded or sampled without filtering, not
    /// multisampled.
    SampledTexture,
    /// A write-only 2-D storage texture of format `Rgba32Float`.
    OutputTexture,
    /// A sampler.
    Sampler { filtering: bool },
    /// A storage buffer.
    StorageBuffer { read_only: bool },
}

/// One entry of a bind group layout, visible to the compute stage.
#[derive(Clone, Copy, Debug, PartialEq, Eq, Structural, Hash)]
pub struct LayoutEntry {
    /// The binding index.
    pub binding: u32,
    /// What is bound there.
    pub kind: BindingKind,
    /// The length of the binding array, or 0 where the binding is no array.
    pub count: u32,
}

/// What the engine requires of the device it runs on.
#[derive(Clone, Copy, Debug, PartialEq, Eq, Structural, Hash)]
pub struct DeviceRequirements {
    /// Arrays of textures can be bound.
    pub texture_binding_array: bool,
    /// Arrays of sampled textures and storage buffers can be indexed with
    /// values that are not uniform.
    pub non_uniform_indexing: bool,
    /// The least number of binding array elements per shader stage.
    pub max_binding_array_elements: u32,
    /// The least size of a storage buffer binding, in bytes.
    pub max_storage_buffer_binding_size: u32,
}

/// The requirements of the engine: texture binding arrays with non-uniform
/// indexing, 1000 binding array elements per stage, and storage buffer
/// bindings of 2 GiB less one byte.
pub fn engine_requirements() -> (requirements: DeviceRequirements)
    ensures
        requirements == (DeviceRequirements {
            texture_binding_array: true,
            non_uniform_indexing: true,
            max_binding_array_elements: 1000,
            max_storage_buffer_binding_size: 0x7fff_ffff,
        }),
{
    DeviceRequirements {
        texture_binding_array: true,
        non_uniform_indexing: true,
        max_binding_array_elements: 1000,
        max_storage_buffer_binding_size: 0x7fff_ffff,
    }
}

} // verus!
