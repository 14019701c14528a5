//! Typed model of a glTF 2.0 JSON document, with the helpers that turn its
//! buffer references (base64 data URIs, buffer views, accessors) into exact
//! byte ranges.
pub mod base64;
pub mod error;
pub mod gltf;
pub mod raw;
pub mod utils;

pub use error::{EnumDomain, GltfError};
pub use gltf::{
    debug_trim_string, Accessor, Asset, BaseColorTexture, Buffer, BufferView, BufferViewTarget,
    ComponentType, EmissiveTexture, Filter, FloatBits, Gltf, Image, Material, Mesh,
    MetallicRoughnessTexture, Node, NormalTexture, OcclusionTexture, PBRMetallicRoughness,
    Primitive, PrimitiveMode, Sampler, Scene, Sparse, SparseIndices, SparseValues, Texture,
    WrappingMode,
};
pub use raw::{
    RawAccessor, RawBufferView, RawGltf, RawMaterial, RawMesh, RawNode, RawNormalTexture,
    RawOcclusionTexture, RawPbrMetallicRoughness, RawPrimitive, RawSampler, RawTextureInfo,
};
