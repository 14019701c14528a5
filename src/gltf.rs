//! The document model: the entities of a glTF document, linked by indices
//! into the flat sequences that [`Gltf`] owns.
use std::collections::HashMap;
use vstd::prelude::*;
use vstd::string::StringSliceAdditionalSpecFns;
use vstd::utf8::{
    decode_utf8, encode_utf8_decode_utf8, encode_utf8_valid_utf8, is_char_boundary, valid_utf8,
};

use crate::error::{EnumDomain, GltfError};

verus! {

/// The decimal digits of `n`, without leading zeros.
pub open spec fn decimal(n: nat) -> Seq<char>
    decreases n,
{
    let digit = seq!['0', '1', '2', '3', '4', '5', '6', '7', '8', '9'][(n % 10) as int];
    if n < 10 {
        seq![digit]
    } else {
        decimal(n / 10) + seq![digit]
    }
}

/// Appends the decimal digits of `n` to `text`.
fn append_decimal(text: &mut String, n: usize)
    ensures
        final(text)@ == old(text)@ + decimal(n as nat),
    decreases n,
{
    if n >= 10 {
        append_decimal(text, n / 10);
    }
    let d = n % 10;
    let digits = "0123456789";
    proof {
        reveal_strlit("0123456789");
    }
    text.append(digits.substring_char(d, d + 1));
    proof {
        assert(digits@.subrange(d as int, d + 1) =~= seq![
            seq!['0', '1', '2', '3', '4', '5', '6', '7', '8', '9'][d as int],
        ]);
    }
}

/// The most bytes of a text that debug output shows.
pub const DEBUG_TEXT_LIMIT: usize = 30;

/// Where debug output cuts a text: at byte `i` if a character starts
/// there, else at the last character boundary before it.
pub open spec fn debug_cut(bytes: Seq<u8>, i: int) -> int
    decreases i,
{
    if i <= 0 {
        0
    } else if is_char_boundary(bytes, i) {
        i
    } else {
        debug_cut(bytes, i - 1)
    }
}

/// A text as debug output shows it. A text of more than thirty bytes (in
/// UTF-8) keeps its first thirty bytes, or fewer where byte thirty falls
/// inside a character (up to the character boundary before it), followed
/// by `.., total length: ` and its length in bytes.
pub fn debug_trim_string(text: &str) -> (r: String)
    ensures
        text.spec_bytes().len() <= DEBUG_TEXT_LIMIT ==> r@ == text@,
        text.spec_bytes().len() > DEBUG_TEXT_LIMIT ==> r@ == decode_utf8(
            text.spec_bytes().subrange(
                0,
                debug_cut(text.spec_bytes(), DEBUG_TEXT_LIMIT as int),
            ),
        ) + ".., total length: "@ + decimal(text.spec_bytes().len()),
{
    let n = text.as_bytes().len();
    if n <= DEBUG_TEXT_LIMIT {
        return text.to_owned();
    }
    let ghost bytes = text.spec_bytes();
    proof {
        encode_utf8_valid_utf8(text@);
    }
    let mut cut: usize = DEBUG_TEXT_LIMIT;
    while cut > 0 && !text.is_char_boundary(cut)
        invariant
            cut <= DEBUG_TEXT_LIMIT < n,
            bytes == text.spec_bytes(),
            valid_utf8(bytes),
            debug_cut(bytes, DEBUG_TEXT_LIMIT as int) == debug_cut(bytes, cut as int),
        decreases cut,
    {
        cut = cut - 1;
    }
    let (head, _) = text.split_at(cut);
    proof {
        encode_utf8_decode_utf8(head@);
    }
    let mut r = String::from_str(head);
    r.append(".., total length: ");
    append_decimal(&mut r, n);
    r
}

/// The type of each component of an accessor's elements.
#[derive(Debug, Clone, Copy, PartialEq, Eq, Structural)]
pub enum ComponentType {
    Byte,
    UnsignedByte,
    Short,
    UnsignedShort,
    UnsignedInt,
    Float,
}

/// The component type that a numeric code stands for, if any.
pub open spec fn component_type_of(code: u32) -> Option<ComponentType> {
    if code == 5120 {
        Some(ComponentType::Byte)
    } else if code == 5121 {
        Some(ComponentType::UnsignedByte)
    } else if code == 5122 {
        Some(ComponentType::Short)
    } else if code == 5123 {
        Some(ComponentType::UnsignedShort)
    } else if code == 5125 {
        Some(ComponentType::UnsignedInt)
    } else if code == 5126 {
        Some(ComponentType::Float)
    } else {
        None
    }
}

/// What validating `code` in `domain` gives, when the code has no variant.
pub open spec fn invalid_code(domain: EnumDomain, code: u32) -> GltfError {
    GltfError::InvalidEnumCode { domain, value: code }
}

/// The result of validating an optional code with `decode`.
pub open spec fn optional_code<T>(
    code: Option<u32>,
    decode: spec_fn(u32) -> Option<T>,
    domain: EnumDomain,
) -> Result<Option<T>, GltfError> {
    match code {
        None => Ok(None),
        Some(c) => match decode(c) {
            Some(t) => Ok(Some(t)),
            None => Err(invalid_code(domain, c)),
        },
    }
}

impl ComponentType {
    /// Size in bytes of one component.
    pub open spec fn size(self) -> nat {
        match self {
            ComponentType::Byte | ComponentType::UnsignedByte => 1,
            ComponentType::Short | ComponentType::UnsignedShort => 2,
            ComponentType::UnsignedInt | ComponentType::Float => 4,
        }
    }

    /// Validates a component-type code.
    pub fn from_code(code: u32) -> (r: Result<ComponentType, GltfError>)
        ensures
            r == (match component_type_of(code) {
                Some(t) => Ok(t),
                None => Err(invalid_code(EnumDomain::ComponentType, code)),
            }),
    {
        match code {
            5120 => Ok(ComponentType::Byte),
            5121 => Ok(ComponentType::UnsignedByte),
            5122 => Ok(ComponentType::Short),
            5123 => Ok(ComponentType::UnsignedShort),
            5125 => Ok(ComponentType::UnsignedInt),
            5126 => Ok(ComponentType::Float),
            _ => Err(GltfError::InvalidEnumCode { domain: EnumDomain::ComponentType, value: code }),
        }
    }

    /// Size in bytes of one component.
    pub fn byte_size(&self) -> (r: usize)
        ensures
            r == self.size(),
    {
        match self {
            ComponentType::Byte | ComponentType::UnsignedByte => 1,
            ComponentType::Short | ComponentType::UnsignedShort => 2,
            ComponentType::UnsignedInt => 4,
            ComponentType::Float => 4,
        }
    }
}

/// Validation of component-type codes accepts exactly the six codes of the
/// format, and each accepted code has the fixed component size: 1 byte for
/// 5120 and 5121, 2 for 5122 and 5123, 4 for 5125 and 5126.
pub proof fn lemma_component_type_codes(code: u32)
    ensures
        component_type_of(code) is None <==> !(code == 5120 || code == 5121 || code == 5122
            || code == 5123 || code == 5125 || code == 5126),
        component_type_of(code) matches Some(t) ==> t.size() == (if code <= 5121 {
            1nat
        } else if code <= 5123 {
            2nat
        } else {
            4nat
        }),
{
}

/// How a buffer view is meant to be bound.
#[derive(Debug, Clone, Copy, PartialEq, Eq, Structural)]
pub enum BufferViewTarget {
    ArrayBuffer,
    ElementArrayBuffer,
}

/// The buffer-view target that a numeric code stands for, if any.
pub open spec fn buffer_view_target_of(code: u32) -> Option<BufferViewTarget> {
    if code == 34962 {
        Some(BufferViewTarget::ArrayBuffer)
    } else if code == 34963 {
        Some(BufferViewTarget::ElementArrayBuffer)
    } else {
        None
    }
}

impl BufferViewTarget {
    /// Validates a buffer-view target code.
    pub fn from_code(code: u32) -> (r: Result<BufferViewTarget, GltfError>)
        ensures
            r == (match buffer_view_target_of(code) {
                Some(t) => Ok(t),
                None => Err(invalid_code(EnumDomain::BufferViewTarget, code)),
            }),
    {
        match code {
            34962 => Ok(BufferViewTarget::ArrayBuffer),
            34963 => Ok(BufferViewTarget::ElementArrayBuffer),
            _ => Err(GltfError::InvalidEnumCode { domain: EnumDomain::BufferViewTarget, value: code }),
        }
    }
}

/// The topology of a mesh primitive.
#[derive(Debug, Clone, Copy, PartialEq, Eq, Structural)]
pub enum PrimitiveMode {
    Points,
    Lines,
    LineLoop,
    LineStrip,
    Triangles,
    TriangleStrip,
    TriangleFan,
}

/// The primitive mode that a numeric code stands for, if any.
pub open spec fn primitive_mode_of(code: u32) -> Option<PrimitiveMode> {
    if code == 0 {
        Some(PrimitiveMode::Points)
    } else if code == 1 {
        Some(PrimitiveMode::Lines)
    } else if code == 2 {
        Some(PrimitiveMode::LineLoop)
    } else if code == 3 {
        Some(PrimitiveMode::LineStrip)
    } else if code == 4 {
        Some(PrimitiveMode::Triangles)
    } else if code == 5 {
        Some(PrimitiveMode::TriangleStrip)
    } else if code == 6 {
        Some(PrimitiveMode::TriangleFan)
    } else {
        None
    }
}

impl PrimitiveMode {
    /// Validates a primitive mode code.
    pub fn from_code(code: u32) -> (r: Result<PrimitiveMode, GltfError>)
        ensures
            r == (match primitive_mode_of(code) {
                Some(t) => Ok(t),
                None => Err(invalid_code(EnumDomain::PrimitiveMode, code)),
            }),
    {
        match code {
            0 => Ok(PrimitiveMode::Points),
            1 => Ok(PrimitiveMode::Lines),
            2 => Ok(PrimitiveMode::LineLoop),
            3 => Ok(PrimitiveMode::LineStrip),
            4 => Ok(PrimitiveMode::Triangles),
            5 => Ok(PrimitiveMode::TriangleStrip),
            6 => Ok(PrimitiveMode::TriangleFan),
            _ => Err(GltfError::InvalidEnumCode { domain: EnumDomain::PrimitiveMode, value: code }),
        }
    }
}

/// A texture filter of a sampler.
#[derive(Debug, Clone, Copy, PartialEq, Eq, Structural)]
pub enum Filter {
    Nearest,
    Linear,
    NearestMimpapNearest,
    LinearMipmapNearest,
    NearestMipmapLinear,
    LinearMipmapLinear,
}

/// The filter that a numeric code stands for, if any.
pub open spec fn filter_of(code: u32) -> Option<Filter> {
    if code == 9728 {
        Some(Filter::Nearest)
    } else if code == 9729 {
        Some(Filter::Linear)
    } else if code == 9984 {
        Some(Filter::NearestMimpapNearest)
    } else if code == 9985 {
        Some(Filter::LinearMipmapNearest)
    } else if code == 9986 {
        Some(Filter::NearestMipmapLinear)
    } else if code == 9987 {
        Some(Filter::LinearMipmapLinear)
    } else {
        None
    }
}

impl Filter {
    /// Validates a filter code.
    pub fn from_code(code: u32) -> (r: Result<Filter, GltfError>)
        ensures
            r == (match filter_of(code) {
                Some(t) => Ok(t),
                None => Err(invalid_code(EnumDomain::Filter, code)),
            }),
    {
        match code {
            9728 => Ok(Filter::Nearest),
            9729 => Ok(Filter::Linear),
            9984 => Ok(Filter::NearestMimpapNearest),
            9985 => Ok(Filter::LinearMipmapNearest),
            9986 => Ok(Filter::NearestMipmapLinear),
            9987 => Ok(Filter::LinearMipmapLinear),
            _ => Err(GltfError::InvalidEnumCode { domain: EnumDomain::Filter, value: code }),
        }
    }
}

/// A texture wrapping mode of a sampler.
#[derive(Debug, Clone, Copy, PartialEq, Eq, Structural)]
pub enum WrappingMode {
    ClampToEdge,
    MirroredRepeat,
    Repeat,
}

/// The wrapping mode that a numeric code stands for, if any.
pub open spec fn wrapping_mode_of(code: u32) -> Option<WrappingMode> {
    if code == 33071 {
        Some(WrappingMode::ClampToEdge)
    } else if code == 33648 {
        Some(WrappingMode::MirroredRepeat)
    } else if code == 10497 {
        Some(WrappingMode::Repeat)
    } else {
        None
    }
}

impl WrappingMode {
    /// Validates a wrapping mode code.
    pub fn from_code(code: u32) -> (r: Result<WrappingMode, GltfError>)
        ensures
            r == (match wrapping_mode_of(code) {
                Some(t) => Ok(t),
                None => Err(invalid_code(EnumDomain::WrappingMode, code)),
            }),
    {
        match code {
            33071 => Ok(WrappingMode::ClampToEdge),
            33648 => Ok(WrappingMode::MirroredRepeat),
            10497 => Ok(WrappingMode::Repeat),
            _ => Err(GltfError::InvalidEnumCode { domain: EnumDomain::WrappingMode, value: code }),
        }
    }
}

/// A number of the document, kept as the bit pattern of an IEEE-754
/// binary64 value.
#[derive(Debug, Clone, Copy, PartialEq, Eq, Structural)]
pub struct FloatBits {
    pub bits: u64,
}

/// The bits of `0.0`.
pub const ZERO_BITS: u64 = 0;

/// The bits of `0.5`.
pub const HALF_BITS: u64 = 0x3FE0_0000_0000_0000;

/// The bits of `1.0`.
pub const ONE_BITS: u64 = 0x3FF0_0000_0000_0000;

/// The root of a document: every entity, in flat sequences that the
/// entities index into.
#[derive(Debug, PartialEq)]
pub struct Gltf {
    pub accessors: Vec<Accessor>,
    pub assets: Vec<Asset>,
    pub buffers: Vec<Buffer>,
    pub buffer_views: Vec<BufferView>,
    pub images: Vec<Image>,
    pub scenes: Vec<Scene>,
    pub materials: Vec<Material>,
    pub meshes: Vec<Mesh>,
    pub nodes: Vec<Node>,
}

/// How to read a byte range of a buffer as typed elements.
#[derive(Debug, PartialEq)]
pub struct Accessor {
    pub buffer_view: Option<usize>,
    pub byte_offset: usize,
    pub component_type: ComponentType,
    pub normalized: bool,
    pub count: usize,
    pub max: Option<Vec<FloatBits>>,
    pub min: Option<Vec<FloatBits>>,
    pub sparse: Option<Sparse>,
    pub name: Option<String>,
    /// The element type tag: `SCALAR`, `VEC2`, `VEC3`, `VEC4`, `MAT2`,
    /// `MAT3` or `MAT4`.
    pub type_: Option<String>,
}

/// Where the indices of a sparse accessor lie.
#[derive(Debug, PartialEq)]
pub struct SparseIndices {
    pub buffer_view: usize,
    pub byte_offset: usize,
    pub component_type: u32,
}

/// Where the values of a sparse accessor lie.
#[derive(Debug, PartialEq)]
pub struct SparseValues {
    pub buffer_view: usize,
    pub byte_offset: usize,
}

/// A sparse override of an accessor's dense data.
#[derive(Debug, PartialEq)]
pub struct Sparse {
    pub count: usize,
    pub indices: SparseIndices,
    pub values: SparseValues,
}

/// Metadata of the document.
#[derive(Debug, PartialEq)]
pub struct Asset {
    pub copyright: Option<String>,
    pub generator: Option<String>,
    pub version: String,
    pub min_version: Option<String>,
}

/// A source of raw bytes, inline or external.
#[derive(Debug, PartialEq)]
pub struct Buffer {
    pub uri: String,
    pub byte_length: usize,
    pub name: Option<String>,
}

/// A byte sub-range of a buffer.
#[derive(Debug, PartialEq)]
pub struct BufferView {
    pub buffer: usize,
    pub byte_offset: usize,
    pub byte_length: usize,
    pub stride: Option<usize>,
    pub target: Option<BufferViewTarget>,
    pub name: Option<String>,
}

/// An image, given by a URI or by a buffer view.
#[derive(Debug, PartialEq)]
pub struct Image {
    pub uri: Option<String>,
    pub mime_type: Option<String>,
    pub buffer_view: Option<usize>,
    pub name: Option<String>,
}

/// The metallic-roughness parameters of a material.
#[derive(Debug, PartialEq)]
pub struct PBRMetallicRoughness {
    pub base_color_factor: [FloatBits; 4],
    pub base_color_texture: Option<BaseColorTexture>,
    pub metallic_factor: FloatBits,
    pub roughness_factor: FloatBits,
    pub metallic_roughness_texture: Option<MetallicRoughnessTexture>,
}

/// A reference to a base color texture.
#[derive(Debug, PartialEq)]
pub struct BaseColorTexture {
    pub index: usize,
    pub tex_coord: usize,
}

/// A reference to a normal texture.
#[derive(Debug, PartialEq)]
pub struct NormalTexture {
    pub index: usize,
    pub tex_coord: usize,
    pub scale: FloatBits,
}

/// A reference to an occlusion texture.
#[derive(Debug, PartialEq)]
pub struct OcclusionTexture {
    pub index: usize,
    pub tex_coord: usize,
    pub strength: FloatBits,
}

/// A reference to an emissive texture.
#[derive(Debug, PartialEq)]
pub struct EmissiveTexture {
    pub index: usize,
    pub tex_coord: usize,
}

/// A reference to a metallic-roughness texture.
#[derive(Debug, PartialEq)]
pub struct MetallicRoughnessTexture {
    pub index: usize,
    pub tex_coord: usize,
}

/// The appearance of a surface.
#[derive(Debug, PartialEq)]
pub struct Material {
    pub name: Option<String>,
    pub pbr_metallic_roughness: PBRMetallicRoughness,
    pub normal_texture: Option<NormalTexture>,
    pub occlusion_texture: Option<OcclusionTexture>,
    pub emissive_texture: Option<EmissiveTexture>,
    pub emissive_factor: [FloatBits; 3],
    /// One of `OPAQUE`, `MASK` and `BLEND`.
    pub alpha_mode: String,
    pub alpha_cutoff: FloatBits,
    pub double_sided: bool,
}

/// A set of primitives to be drawn.
#[derive(Debug, PartialEq)]
pub struct Mesh {
    pub primitives: Vec<Primitive>,
    pub weights: Option<Vec<FloatBits>>,
    pub name: Option<String>,
}

/// A drawable part of a mesh.
#[derive(Debug, PartialEq)]
pub struct Primitive {
    /// Accessor index of each attribute, by semantic name (`POSITION`,
    /// `NORMAL`, `TEXCOORD_0`, ...).
    pub attributes: HashMap<String, usize>,
    pub indices: Option<usize>,
    pub material: Option<usize>,
    pub mode: Option<PrimitiveMode>,
    pub targets: Option<HashMap<String, usize>>,
}

/// A node of the scene graph.
#[derive(Debug, PartialEq)]
pub struct Node {
    pub camera: Option<usize>,
    pub children: Vec<usize>,
    pub skin: Option<usize>,
    pub matrix: Option<[FloatBits; 16]>,
    pub mesh: Option<usize>,
    pub rotation: Option<[FloatBits; 4]>,
    pub scale: Option<[FloatBits; 3]>,
    pub translation: Option<[FloatBits; 3]>,
    pub weights: Option<Vec<FloatBits>>,
    pub name: Option<String>,
}

/// Filtering and wrapping of a texture.
#[derive(Debug, PartialEq)]
pub struct Sampler {
    pub mag_filter: Option<Filter>,
    pub min_filter: Option<Filter>,
    pub wrap_s: Option<WrappingMode>,
    pub wrap_t: Option<WrappingMode>,
    pub name: Option<String>,
}

/// The root nodes of a scene.
#[derive(Debug, PartialEq)]
pub struct Scene {
    pub nodes: Vec<usize>,
    pub name: Option<String>,
}

/// A texture: an image and the sampler to read it with.
#[derive(Debug, PartialEq)]
pub struct Texture {
    pub sampler: Option<usize>,
    pub source: Option<usize>,
    pub name: Option<String>,
}

} // verus!
