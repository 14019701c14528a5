//! The document as its JSON text spells it, before defaults are applied and
//! numeric codes are validated, and the conversion into the [`Gltf`] model.
//!
//! A field that the format lets the text leave out is an `Option` here; a
//! numeric code is the plain integer of the text.
use std::collections::HashMap;
use vstd::prelude::*;

use crate::error::{EnumDomain, GltfError};
use crate::gltf::{
    buffer_view_target_of, component_type_of, filter_of, invalid_code, optional_code,
    primitive_mode_of, wrapping_mode_of, Filter, Sampler, WrappingMode,
    Accessor, Asset, BaseColorTexture, Buffer, BufferView, BufferViewTarget, ComponentType,
    EmissiveTexture, FloatBits, Gltf, Image, Material, Mesh, MetallicRoughnessTexture, Node,
    NormalTexture, OcclusionTexture, PBRMetallicRoughness, Primitive, PrimitiveMode, Scene,
    Sparse, HALF_BITS, ONE_BITS, ZERO_BITS,
};

verus! {

/// The value of an optional field, or its default.
pub open spec fn or_default<T>(field: Option<T>, default: T) -> T {
    match field {
        Some(v) => v,
        None => default,
    }
}

/// The items of an optional collection; an absent one is empty.
pub open spec fn items<T>(field: Option<Vec<T>>) -> Seq<T> {
    match field {
        Some(v) => v@,
        None => Seq::empty(),
    }
}

/// The first failure that `fail` finds among the items, in order.
pub open spec fn first_failure<R>(raws: Seq<R>, fail: spec_fn(R) -> Option<GltfError>) -> Option<
    GltfError,
>
    decreases raws.len(),
{
    if raws.len() == 0 {
        None
    } else {
        match first_failure(raws.drop_last(), fail) {
            Some(e) => Some(e),
            None => fail(raws.last()),
        }
    }
}

/// `out` holds, item by item, what `rel` relates to the items of `raws`.
pub open spec fn converted<R, T>(raws: Seq<R>, out: Seq<T>, rel: spec_fn(R, T) -> bool) -> bool {
    &&& out.len() == raws.len()
    &&& forall|i: int| 0 <= i < raws.len() ==> rel(raws[i], #[trigger] out[i])
}

/// A failure on a prefix is the first failure of the whole.
pub proof fn lemma_first_failure_prefix<R>(
    raws: Seq<R>,
    fail: spec_fn(R) -> Option<GltfError>,
    i: int,
)
    requires
        0 <= i <= raws.len(),
        first_failure(raws.take(i), fail) is Some,
    ensures
        first_failure(raws, fail) == first_failure(raws.take(i), fail),
    decreases raws.len() - i,
{
    if i < raws.len() {
        assert(raws.take(i + 1).drop_last() =~= raws.take(i));
        lemma_first_failure_prefix(raws, fail, i + 1);
    } else {
        assert(raws.take(i) =~= raws);
    }
}

/// The items of an optional collection, in a vector.
fn take_items<T>(field: Option<Vec<T>>) -> (r: Vec<T>)
    ensures
        r@ == items(field),
{
    match field {
        Some(v) => v,
        None => Vec::new(),
    }
}

// ---------------------------------------------------------------- accessors

/// An accessor as the text gives it.
#[derive(Debug, PartialEq)]
pub struct RawAccessor {
    pub buffer_view: Option<usize>,
    pub byte_offset: Option<usize>,
    pub component_type: u32,
    pub normalized: Option<bool>,
    pub count: usize,
    pub max: Option<Vec<FloatBits>>,
    pub min: Option<Vec<FloatBits>>,
    pub sparse: Option<Sparse>,
    pub name: Option<String>,
    pub type_: Option<String>,
}

/// Why `raw` cannot be converted, if it cannot: its component type code.
pub open spec fn accessor_failure(raw: RawAccessor) -> Option<GltfError> {
    match component_type_of(raw.component_type) {
        None => Some(invalid_code(EnumDomain::ComponentType, raw.component_type)),
        Some(_) => None,
    }
}

/// `a` is the accessor that `raw` stands for.
pub open spec fn accessor_matches(raw: RawAccessor, a: Accessor) -> bool {
    &&& component_type_of(raw.component_type) == Some(a.component_type)
    &&& a.buffer_view == raw.buffer_view
    &&& a.byte_offset == or_default(raw.byte_offset, 0)
    &&& a.normalized == or_default(raw.normalized, false)
    &&& a.count == raw.count
    &&& a.max == raw.max
    &&& a.min == raw.min
    &&& a.sparse == raw.sparse
    &&& a.name == raw.name
    &&& a.type_ == raw.type_
}

impl RawAccessor {
    /// Applies the defaults and validates the component type.
    pub fn into_accessor(self) -> (r: Result<Accessor, GltfError>)
        ensures
            match accessor_failure(self) {
                Some(e) => r == Err::<Accessor, GltfError>(e),
                None => r matches Ok(a) && accessor_matches(self, a),
            },
    {
        let component_type = match ComponentType::from_code(self.component_type) {
            Ok(t) => t,
            Err(e) => {
                return Err(e);
            },
        };
        Ok(Accessor {
            buffer_view: self.buffer_view,
            byte_offset: match self.byte_offset {
                Some(o) => o,
                None => 0,
            },
            component_type,
            normalized: match self.normalized {
                Some(n) => n,
                None => false,
            },
            count: self.count,
            max: self.max,
            min: self.min,
            sparse: self.sparse,
            name: self.name,
            type_: self.type_,
        })
    }
}

fn convert_accessors(raws: Vec<RawAccessor>) -> (r: Result<Vec<Accessor>, GltfError>)
    ensures
        match first_failure(raws@, |a: RawAccessor| accessor_failure(a)) {
            Some(e) => r == Err::<Vec<Accessor>, GltfError>(e),
            None => r matches Ok(v) && converted(
                raws@,
                v@,
                |a: RawAccessor, b: Accessor| accessor_matches(a, b),
            ),
        },
{
    let ghost all = raws@;
    let ghost fail = |a: RawAccessor| accessor_failure(a);
    let ghost rel = |a: RawAccessor, b: Accessor| accessor_matches(a, b);
    let mut out: Vec<Accessor> = Vec::new();
    for raw in it: raws.into_iter()
        invariant
            it.seq() == all,
            fail == (|a: RawAccessor| accessor_failure(a)),
            rel == (|a: RawAccessor, b: Accessor| accessor_matches(a, b)),
            first_failure(all.take(it.index() as int), fail) is None,
            converted(all.take(it.index() as int), out@, rel),
    {
        let ghost i = it.index() as int;
        proof {
            assert(all.take(i + 1).drop_last() =~= all.take(i));
        }
        match raw.into_accessor() {
            Ok(a) => out.push(a),
            Err(e) => {
                proof {
                    lemma_first_failure_prefix(all, fail, i + 1);
                }
                return Err(e);
            },
        }
    }
    proof {
        assert(all.take(all.len() as int) =~= all);
    }
    Ok(out)
}

// ------------------------------------------------------------- buffer views

/// A buffer view as the text gives it.
#[derive(Debug, PartialEq)]
pub struct RawBufferView {
    pub buffer: usize,
    pub byte_offset: Option<usize>,
    pub byte_length: usize,
    pub stride: Option<usize>,
    pub target: Option<u32>,
    pub name: Option<String>,
}

/// Why `raw` cannot be converted, if it cannot: its target code.
pub open spec fn buffer_view_failure(raw: RawBufferView) -> Option<GltfError> {
    match optional_code(
        raw.target,
        |c: u32| buffer_view_target_of(c),
        EnumDomain::BufferViewTarget,
    ) {
        Err(e) => Some(e),
        Ok(_) => None,
    }
}

/// `v` is the buffer view that `raw` stands for.
pub open spec fn buffer_view_matches(raw: RawBufferView, v: BufferView) -> bool {
    &&& optional_code(raw.target, |c: u32| buffer_view_target_of(c), EnumDomain::BufferViewTarget)
        == Ok::<Option<BufferViewTarget>, GltfError>(v.target)
    &&& v.buffer == raw.buffer
    &&& v.byte_offset == or_default(raw.byte_offset, 0)
    &&& v.byte_length == raw.byte_length
    &&& v.stride == raw.stride
    &&& v.name == raw.name
}

impl RawBufferView {
    /// Applies the defaults and validates the target.
    pub fn into_buffer_view(self) -> (r: Result<BufferView, GltfError>)
        ensures
            match buffer_view_failure(self) {
                Some(e) => r == Err::<BufferView, GltfError>(e),
                None => r matches Ok(v) && buffer_view_matches(self, v),
            },
    {
        let target = match self.target {
            None => None,
            Some(code) => match BufferViewTarget::from_code(code) {
                Ok(t) => Some(t),
                Err(e) => {
                    return Err(e);
                },
            },
        };
        Ok(BufferView {
            buffer: self.buffer,
            byte_offset: match self.byte_offset {
                Some(o) => o,
                None => 0,
            },
            byte_length: self.byte_length,
            stride: self.stride,
            target,
            name: self.name,
        })
    }
}

fn convert_buffer_views(raws: Vec<RawBufferView>) -> (r: Result<Vec<BufferView>, GltfError>)
    ensures
        match first_failure(raws@, |a: RawBufferView| buffer_view_failure(a)) {
            Some(e) => r == Err::<Vec<BufferView>, GltfError>(e),
            None => r matches Ok(v) && converted(
                raws@,
                v@,
                |a: RawBufferView, b: BufferView| buffer_view_matches(a, b),
            ),
        },
{
    let ghost all = raws@;
    let ghost fail = |a: RawBufferView| buffer_view_failure(a);
    let ghost rel = |a: RawBufferView, b: BufferView| buffer_view_matches(a, b);
    let mut out: Vec<BufferView> = Vec::new();
    for raw in it: raws.into_iter()
        invariant
            it.seq() == all,
            fail == (|a: RawBufferView| buffer_view_failure(a)),
            rel == (|a: RawBufferView, b: BufferView| buffer_view_matches(a, b)),
            first_failure(all.take(it.index() as int), fail) is None,
            converted(all.take(it.index() as int), out@, rel),
    {
        let ghost i = it.index() as int;
        proof {
            assert(all.take(i + 1).drop_last() =~= all.take(i));
        }
        match raw.into_buffer_view() {
            Ok(v) => out.push(v),
            Err(e) => {
                proof {
                    lemma_first_failure_prefix(all, fail, i + 1);
                }
                return Err(e);
            },
        }
    }
    proof {
        assert(all.take(all.len() as int) =~= all);
    }
    Ok(out)
}

// ---------------------------------------------------------------- materials

/// A reference to a texture as the text gives it.
#[derive(Debug, PartialEq, Eq, Clone, Copy, Structural)]
pub struct RawTextureInfo {
    pub index: usize,
    pub tex_coord: Option<usize>,
}

/// A normal texture reference as the text gives it.
#[derive(Debug, PartialEq, Eq, Clone, Copy, Structural)]
pub struct RawNormalTexture {
    pub index: usize,
    pub tex_coord: Option<usize>,
    pub scale: Option<FloatBits>,
}

/// An occlusion texture reference as the text gives it.
#[derive(Debug, PartialEq, Eq, Clone, Copy, Structural)]
pub struct RawOcclusionTexture {
    pub index: usize,
    pub tex_coord: Option<usize>,
    pub strength: Option<FloatBits>,
}

/// The metallic-roughness parameters as the text gives them.
#[derive(Debug, PartialEq, Eq, Clone, Copy)]
pub struct RawPbrMetallicRoughness {
    pub base_color_factor: Option<[FloatBits; 4]>,
    pub base_color_texture: Option<RawTextureInfo>,
    pub metallic_factor: Option<FloatBits>,
    pub roughness_factor: Option<FloatBits>,
    pub metallic_roughness_texture: Option<RawTextureInfo>,
}

/// A material as the text gives it.
#[derive(Debug, PartialEq)]
pub struct RawMaterial {
    pub name: Option<String>,
    pub pbr_metallic_roughness: Option<RawPbrMetallicRoughness>,
    pub normal_texture: Option<RawNormalTexture>,
    pub occlusion_texture: Option<RawOcclusionTexture>,
    pub emissive_texture: Option<RawTextureInfo>,
    pub emissive_factor: Option<[FloatBits; 3]>,
    pub alpha_mode: Option<String>,
    pub alpha_cutoff: Option<FloatBits>,
    pub double_sided: Option<bool>,
}

/// `0.0`.
pub open spec fn zero() -> FloatBits {
    FloatBits { bits: ZERO_BITS }
}

/// `0.5`.
pub open spec fn half() -> FloatBits {
    FloatBits { bits: HALF_BITS }
}

/// `1.0`.
pub open spec fn one() -> FloatBits {
    FloatBits { bits: ONE_BITS }
}

/// A texture reference with texture coordinate set 0 by default.
pub open spec fn base_color_texture_of(raw: RawTextureInfo) -> BaseColorTexture {
    BaseColorTexture { index: raw.index, tex_coord: or_default(raw.tex_coord, 0) }
}

/// A texture reference with texture coordinate set 0 by default.
pub open spec fn metallic_roughness_texture_of(raw: RawTextureInfo) -> MetallicRoughnessTexture {
    MetallicRoughnessTexture { index: raw.index, tex_coord: or_default(raw.tex_coord, 0) }
}

/// A texture reference with texture coordinate set 0 by default.
pub open spec fn emissive_texture_of(raw: RawTextureInfo) -> EmissiveTexture {
    EmissiveTexture { index: raw.index, tex_coord: or_default(raw.tex_coord, 0) }
}

/// A normal texture reference: coordinate set 0 and scale `1.0` by default.
pub open spec fn normal_texture_of(raw: RawNormalTexture) -> NormalTexture {
    NormalTexture {
        index: raw.index,
        tex_coord: or_default(raw.tex_coord, 0),
        scale: or_default(raw.scale, one()),
    }
}

/// An occlusion texture reference: coordinate set 0 and strength `1.0` by
/// default.
pub open spec fn occlusion_texture_of(raw: RawOcclusionTexture) -> OcclusionTexture {
    OcclusionTexture {
        index: raw.index,
        tex_coord: or_default(raw.tex_coord, 0),
        strength: or_default(raw.strength, one()),
    }
}

/// `p` is what the optional parameters `raw` stand for: each absent factor
/// takes its default, opaque white for the base color and `1.0` for
/// metallic and roughness.
pub open spec fn pbr_matches(raw: Option<RawPbrMetallicRoughness>, p: PBRMetallicRoughness) -> bool {
    match raw {
        None => {
            &&& p.base_color_factor@ == seq![one(), one(), one(), one()]
            &&& p.base_color_texture is None
            &&& p.metallic_factor == one()
            &&& p.roughness_factor == one()
            &&& p.metallic_roughness_texture is None
        },
        Some(r) => {
            &&& p.base_color_factor@ == (match r.base_color_factor {
                Some(f) => f@,
                None => seq![one(), one(), one(), one()],
            })
            &&& p.base_color_texture == (match r.base_color_texture {
                Some(t) => Some(base_color_texture_of(t)),
                None => None,
            })
            &&& p.metallic_factor == or_default(r.metallic_factor, one())
            &&& p.roughness_factor == or_default(r.roughness_factor, one())
            &&& p.metallic_roughness_texture == (match r.metallic_roughness_texture {
                Some(t) => Some(metallic_roughness_texture_of(t)),
                None => None,
            })
        },
    }
}

/// `m` is the material that `raw` stands for.
pub open spec fn material_matches(raw: RawMaterial, m: Material) -> bool {
    &&& m.name == raw.name
    &&& pbr_matches(raw.pbr_metallic_roughness, m.pbr_metallic_roughness)
    &&& m.normal_texture == (match raw.normal_texture {
        Some(t) => Some(normal_texture_of(t)),
        None => None,
    })
    &&& m.occlusion_texture == (match raw.occlusion_texture {
        Some(t) => Some(occlusion_texture_of(t)),
        None => None,
    })
    &&& m.emissive_texture == (match raw.emissive_texture {
        Some(t) => Some(emissive_texture_of(t)),
        None => None,
    })
    &&& m.emissive_factor@ == (match raw.emissive_factor {
        Some(f) => f@,
        None => seq![zero(), zero(), zero()],
    })
    &&& m.alpha_mode@ == (match raw.alpha_mode {
        Some(s) => s@,
        None => "OPAQUE"@,
    })
    &&& m.alpha_cutoff == or_default(raw.alpha_cutoff, half())
    &&& m.double_sided == or_default(raw.double_sided, false)
}

impl RawTextureInfo {
    /// Applies the default texture coordinate set.
    pub fn into_base_color_texture(self) -> (r: BaseColorTexture)
        ensures
            r == base_color_texture_of(self),
    {
        BaseColorTexture {
            index: self.index,
            tex_coord: match self.tex_coord {
                Some(t) => t,
                None => 0,
            },
        }
    }

    /// Applies the default texture coordinate set.
    pub fn into_metallic_roughness_texture(self) -> (r: MetallicRoughnessTexture)
        ensures
            r == metallic_roughness_texture_of(self),
    {
        MetallicRoughnessTexture {
            index: self.index,
            tex_coord: match self.tex_coord {
                Some(t) => t,
                None => 0,
            },
        }
    }

    /// Applies the default texture coordinate set.
    pub fn into_emissive_texture(self) -> (r: EmissiveTexture)
        ensures
            r == emissive_texture_of(self),
    {
        EmissiveTexture {
            index: self.index,
            tex_coord: match self.tex_coord {
                Some(t) => t,
                None => 0,
            },
        }
    }
}

impl RawNormalTexture {
    /// Applies the defaults of the absent fields.
    pub fn into_normal_texture(self) -> (r: NormalTexture)
        ensures
            r == normal_texture_of(self),
    {
        NormalTexture {
            index: self.index,
            tex_coord: match self.tex_coord {
                Some(t) => t,
                None => 0,
            },
            scale: match self.scale {
                Some(s) => s,
                None => FloatBits { bits: ONE_BITS },
            },
        }
    }
}

impl RawOcclusionTexture {
    /// Applies the defaults of the absent fields.
    pub fn into_occlusion_texture(self) -> (r: OcclusionTexture)
        ensures
            r == occlusion_texture_of(self),
    {
        OcclusionTexture {
            index: self.index,
            tex_coord: match self.tex_coord {
                Some(t) => t,
                None => 0,
            },
            strength: match self.strength {
                Some(s) => s,
                None => FloatBits { bits: ONE_BITS },
            },
        }
    }
}

/// The metallic-roughness parameters, with the defaults of the absent ones.
pub fn pbr_metallic_roughness(raw: Option<RawPbrMetallicRoughness>) -> (r: PBRMetallicRoughness)
    ensures
        pbr_matches(raw, r),
{
    let one = FloatBits { bits: ONE_BITS };
    match raw {
        None => PBRMetallicRoughness {
            base_color_factor: [one, one, one, one],
            base_color_texture: None,
            metallic_factor: one,
            roughness_factor: one,
            metallic_roughness_texture: None,
        },
        Some(r) => PBRMetallicRoughness {
            base_color_factor: match r.base_color_factor {
                Some(f) => f,
                None => [one, one, one, one],
            },
            base_color_texture: match r.base_color_texture {
                Some(t) => Some(t.into_base_color_texture()),
                None => None,
            },
            metallic_factor: match r.metallic_factor {
                Some(f) => f,
                None => one,
            },
            roughness_factor: match r.roughness_factor {
                Some(f) => f,
                None => one,
            },
            metallic_roughness_texture: match r.metallic_roughness_texture {
                Some(t) => Some(t.into_metallic_roughness_texture()),
                None => None,
            },
        },
    }
}

impl RawMaterial {
    /// Applies the defaults of the absent fields.
    pub fn into_material(self) -> (r: Material)
        ensures
            material_matches(self, r),
    {
        let zero = FloatBits { bits: ZERO_BITS };
        Material {
            name: self.name,
            pbr_metallic_roughness: pbr_metallic_roughness(self.pbr_metallic_roughness),
            normal_texture: match self.normal_texture {
                Some(t) => Some(t.into_normal_texture()),
                None => None,
            },
            occlusion_texture: match self.occlusion_texture {
                Some(t) => Some(t.into_occlusion_texture()),
                None => None,
            },
            emissive_texture: match self.emissive_texture {
                Some(t) => Some(t.into_emissive_texture()),
                None => None,
            },
            emissive_factor: match self.emissive_factor {
                Some(f) => f,
                None => [zero, zero, zero],
            },
            alpha_mode: match self.alpha_mode {
                Some(s) => s,
                None => String::from_str("OPAQUE"),
            },
            alpha_cutoff: match self.alpha_cutoff {
                Some(c) => c,
                None => FloatBits { bits: HALF_BITS },
            },
            double_sided: match self.double_sided {
                Some(d) => d,
                None => false,
            },
        }
    }
}

fn convert_materials(raws: Vec<RawMaterial>) -> (r: Vec<Material>)
    ensures
        converted(raws@, r@, |a: RawMaterial, b: Material| material_matches(a, b)),
{
    let ghost all = raws@;
    let ghost rel = |a: RawMaterial, b: Material| material_matches(a, b);
    let mut out: Vec<Material> = Vec::new();
    for raw in it: raws.into_iter()
        invariant
            it.seq() == all,
            rel == (|a: RawMaterial, b: Material| material_matches(a, b)),
            converted(all.take(it.index() as int), out@, rel),
    {
        out.push(raw.into_material());
    }
    proof {
        assert(all.take(all.len() as int) =~= all);
    }
    out
}

// ------------------------------------------------------------------- meshes

/// A mesh primitive as the text gives it.
#[derive(Debug, PartialEq)]
pub struct RawPrimitive {
    pub attributes: Option<HashMap<String, usize>>,
    pub indices: Option<usize>,
    pub material: Option<usize>,
    pub mode: Option<u32>,
    pub targets: Option<HashMap<String, usize>>,
}

/// Why `raw` cannot be converted, if it cannot: its mode code.
pub open spec fn primitive_failure(raw: RawPrimitive) -> Option<GltfError> {
    match optional_code(raw.mode, |c: u32| primitive_mode_of(c), EnumDomain::PrimitiveMode) {
        Err(e) => Some(e),
        Ok(_) => None,
    }
}

/// `p` is the primitive that `raw` stands for; absent attributes are none.
pub open spec fn primitive_matches(raw: RawPrimitive, p: Primitive) -> bool {
    &&& optional_code(raw.mode, |c: u32| primitive_mode_of(c), EnumDomain::PrimitiveMode)
        == Ok::<Option<PrimitiveMode>, GltfError>(p.mode)
    &&& match raw.attributes {
        Some(a) => p.attributes == a,
        None => p.attributes@ == Map::<String, usize>::empty(),
    }
    &&& p.indices == raw.indices
    &&& p.material == raw.material
    &&& p.targets == raw.targets
}

impl RawPrimitive {
    /// Applies the defaults and validates the mode.
    pub fn into_primitive(self) -> (r: Result<Primitive, GltfError>)
        ensures
            match primitive_failure(self) {
                Some(e) => r == Err::<Primitive, GltfError>(e),
                None => r matches Ok(p) && primitive_matches(self, p),
            },
    {
        let mode = match self.mode {
            None => None,
            Some(code) => match PrimitiveMode::from_code(code) {
                Ok(m) => Some(m),
                Err(e) => {
                    return Err(e);
                },
            },
        };
        Ok(Primitive {
            attributes: match self.attributes {
                Some(a) => a,
                None => HashMap::new(),
            },
            indices: self.indices,
            material: self.material,
            mode,
            targets: self.targets,
        })
    }
}

/// A mesh as the text gives it.
#[derive(Debug, PartialEq)]
pub struct RawMesh {
    pub primitives: Option<Vec<RawPrimitive>>,
    pub weights: Option<Vec<FloatBits>>,
    pub name: Option<String>,
}

/// Why `raw` cannot be converted, if it cannot: the first failing primitive.
pub open spec fn mesh_failure(raw: RawMesh) -> Option<GltfError> {
    first_failure(items(raw.primitives), |p: RawPrimitive| primitive_failure(p))
}

/// `m` is the mesh that `raw` stands for.
pub open spec fn mesh_matches(raw: RawMesh, m: Mesh) -> bool {
    &&& converted(
        items(raw.primitives),
        m.primitives@,
        |a: RawPrimitive, b: Primitive| primitive_matches(a, b),
    )
    &&& m.weights == raw.weights
    &&& m.name == raw.name
}

fn convert_primitives(raws: Vec<RawPrimitive>) -> (r: Result<Vec<Primitive>, GltfError>)
    ensures
        match first_failure(raws@, |a: RawPrimitive| primitive_failure(a)) {
            Some(e) => r == Err::<Vec<Primitive>, GltfError>(e),
            None => r matches Ok(v) && converted(
                raws@,
                v@,
                |a: RawPrimitive, b: Primitive| primitive_matches(a, b),
            ),
        },
{
    let ghost all = raws@;
    let ghost fail = |a: RawPrimitive| primitive_failure(a);
    let ghost rel = |a: RawPrimitive, b: Primitive| primitive_matches(a, b);
    let mut out: Vec<Primitive> = Vec::new();
    for raw in it: raws.into_iter()
        invariant
            it.seq() == all,
            fail == (|a: RawPrimitive| primitive_failure(a)),
            rel == (|a: RawPrimitive, b: Primitive| primitive_matches(a, b)),
            first_failure(all.take(it.index() as int), fail) is None,
            converted(all.take(it.index() as int), out@, rel),
    {
        let ghost i = it.index() as int;
        proof {
            assert(all.take(i + 1).drop_last() =~= all.take(i));
        }
        match raw.into_primitive() {
            Ok(p) => out.push(p),
            Err(e) => {
                proof {
                    lemma_first_failure_prefix(all, fail, i + 1);
                }
                return Err(e);
            },
        }
    }
    proof {
        assert(all.take(all.len() as int) =~= all);
    }
    Ok(out)
}

impl RawMesh {
    /// Converts each primitive, in order.
    pub fn into_mesh(self) -> (r: Result<Mesh, GltfError>)
        ensures
            match mesh_failure(self) {
                Some(e) => r == Err::<Mesh, GltfError>(e),
                None => r matches Ok(m) && mesh_matches(self, m),
            },
    {
        let primitives = match convert_primitives(take_items(self.primitives)) {
            Ok(p) => p,
            Err(e) => {
                return Err(e);
            },
        };
        Ok(Mesh { primitives, weights: self.weights, name: self.name })
    }
}

fn convert_meshes(raws: Vec<RawMesh>) -> (r: Result<Vec<Mesh>, GltfError>)
    ensures
        match first_failure(raws@, |a: RawMesh| mesh_failure(a)) {
            Some(e) => r == Err::<Vec<Mesh>, GltfError>(e),
            None => r matches Ok(v) && converted(
                raws@,
                v@,
                |a: RawMesh, b: Mesh| mesh_matches(a, b),
            ),
        },
{
    let ghost all = raws@;
    let ghost fail = |a: RawMesh| mesh_failure(a);
    let ghost rel = |a: RawMesh, b: Mesh| mesh_matches(a, b);
    let mut out: Vec<Mesh> = Vec::new();
    for raw in it: raws.into_iter()
        invariant
            it.seq() == all,
            fail == (|a: RawMesh| mesh_failure(a)),
            rel == (|a: RawMesh, b: Mesh| mesh_matches(a, b)),
            first_failure(all.take(it.index() as int), fail) is None,
            converted(all.take(it.index() as int), out@, rel),
    {
        let ghost i = it.index() as int;
        proof {
            assert(all.take(i + 1).drop_last() =~= all.take(i));
        }
        match raw.into_mesh() {
            Ok(m) => out.push(m),
            Err(e) => {
                proof {
                    lemma_first_failure_prefix(all, fail, i + 1);
                }
                return Err(e);
            },
        }
    }
    proof {
        assert(all.take(all.len() as int) =~= all);
    }
    Ok(out)
}

// -------------------------------------------------------------------- nodes

/// A node as the text gives it.
#[derive(Debug, PartialEq)]
pub struct RawNode {
    pub camera: Option<usize>,
    pub children: Option<Vec<usize>>,
    pub skin: Option<usize>,
    pub matrix: Option<[FloatBits; 16]>,
    pub mesh: Option<usize>,
    pub rotation: Option<[FloatBits; 4]>,
    pub scale: Option<[FloatBits; 3]>,
    pub translation: Option<[FloatBits; 3]>,
    pub weights: Option<Vec<FloatBits>>,
    pub name: Option<String>,
}

/// `n` is the node that `raw` stands for; absent children are none.
pub open spec fn node_matches(raw: RawNode, n: Node) -> bool {
    &&& n.children@ == items(raw.children)
    &&& n.camera == raw.camera
    &&& n.skin == raw.skin
    &&& n.matrix == raw.matrix
    &&& n.mesh == raw.mesh
    &&& n.rotation == raw.rotation
    &&& n.scale == raw.scale
    &&& n.translation == raw.translation
    &&& n.weights == raw.weights
    &&& n.name == raw.name
}

impl RawNode {
    /// Applies the defaults of the absent fields.
    pub fn into_node(self) -> (r: Node)
        ensures
            node_matches(self, r),
    {
        Node {
            camera: self.camera,
            children: take_items(self.children),
            skin: self.skin,
            matrix: self.matrix,
            mesh: self.mesh,
            rotation: self.rotation,
            scale: self.scale,
            translation: self.translation,
            weights: self.weights,
            name: self.name,
        }
    }
}

fn convert_nodes(raws: Vec<RawNode>) -> (r: Vec<Node>)
    ensures
        converted(raws@, r@, |a: RawNode, b: Node| node_matches(a, b)),
{
    let ghost all = raws@;
    let ghost rel = |a: RawNode, b: Node| node_matches(a, b);
    let mut out: Vec<Node> = Vec::new();
    for raw in it: raws.into_iter()
        invariant
            it.seq() == all,
            rel == (|a: RawNode, b: Node| node_matches(a, b)),
            converted(all.take(it.index() as int), out@, rel),
    {
        out.push(raw.into_node());
    }
    proof {
        assert(all.take(all.len() as int) =~= all);
    }
    out
}

// ----------------------------------------------------------------- samplers

/// A sampler as the text gives it.
#[derive(Debug, PartialEq)]
pub struct RawSampler {
    pub mag_filter: Option<u32>,
    pub min_filter: Option<u32>,
    pub wrap_s: Option<u32>,
    pub wrap_t: Option<u32>,
    pub name: Option<String>,
}

/// The validated filter of an optional code.
pub open spec fn filter_field(code: Option<u32>) -> Result<Option<Filter>, GltfError> {
    optional_code(code, |c: u32| filter_of(c), EnumDomain::Filter)
}

/// The validated wrapping mode of an optional code.
pub open spec fn wrapping_field(code: Option<u32>) -> Result<Option<WrappingMode>, GltfError> {
    optional_code(code, |c: u32| wrapping_mode_of(c), EnumDomain::WrappingMode)
}

/// Why `raw` cannot be converted, if it cannot: the first invalid code, in
/// the order magnification filter, minification filter, wrap S, wrap T.
pub open spec fn sampler_failure(raw: RawSampler) -> Option<GltfError> {
    if filter_field(raw.mag_filter) is Err {
        Some(filter_field(raw.mag_filter)->Err_0)
    } else if filter_field(raw.min_filter) is Err {
        Some(filter_field(raw.min_filter)->Err_0)
    } else if wrapping_field(raw.wrap_s) is Err {
        Some(wrapping_field(raw.wrap_s)->Err_0)
    } else if wrapping_field(raw.wrap_t) is Err {
        Some(wrapping_field(raw.wrap_t)->Err_0)
    } else {
        None
    }
}

/// `s` is the sampler that `raw` stands for.
pub open spec fn sampler_matches(raw: RawSampler, s: Sampler) -> bool {
    &&& filter_field(raw.mag_filter) == Ok::<Option<Filter>, GltfError>(s.mag_filter)
    &&& filter_field(raw.min_filter) == Ok::<Option<Filter>, GltfError>(s.min_filter)
    &&& wrapping_field(raw.wrap_s) == Ok::<Option<WrappingMode>, GltfError>(s.wrap_s)
    &&& wrapping_field(raw.wrap_t) == Ok::<Option<WrappingMode>, GltfError>(s.wrap_t)
    &&& s.name == raw.name
}

fn optional_filter(code: Option<u32>) -> (r: Result<Option<Filter>, GltfError>)
    ensures
        r == filter_field(code),
{
    match code {
        None => Ok(None),
        Some(c) => match Filter::from_code(c) {
            Ok(f) => Ok(Some(f)),
            Err(e) => Err(e),
        },
    }
}

fn optional_wrapping(code: Option<u32>) -> (r: Result<Option<WrappingMode>, GltfError>)
    ensures
        r == wrapping_field(code),
{
    match code {
        None => Ok(None),
        Some(c) => match WrappingMode::from_code(c) {
            Ok(w) => Ok(Some(w)),
            Err(e) => Err(e),
        },
    }
}

impl RawSampler {
    /// Validates the filter and wrapping codes.
    pub fn into_sampler(self) -> (r: Result<Sampler, GltfError>)
        ensures
            match sampler_failure(self) {
                Some(e) => r == Err::<Sampler, GltfError>(e),
                None => r matches Ok(s) && sampler_matches(self, s),
            },
    {
        let mag_filter = match optional_filter(self.mag_filter) {
            Ok(f) => f,
            Err(e) => {
                return Err(e);
            },
        };
        let min_filter = match optional_filter(self.min_filter) {
            Ok(f) => f,
            Err(e) => {
                return Err(e);
            },
        };
        let wrap_s = match optional_wrapping(self.wrap_s) {
            Ok(w) => w,
            Err(e) => {
                return Err(e);
            },
        };
        let wrap_t = match optional_wrapping(self.wrap_t) {
            Ok(w) => w,
            Err(e) => {
                return Err(e);
            },
        };
        Ok(Sampler { mag_filter, min_filter, wrap_s, wrap_t, name: self.name })
    }
}

// ----------------------------------------------------------------- document

/// A document as the text gives it; an absent collection is `None`.
#[derive(Debug, PartialEq)]
pub struct RawGltf {
    pub accessors: Option<Vec<RawAccessor>>,
    pub assets: Option<Vec<Asset>>,
    pub buffers: Option<Vec<Buffer>>,
    pub buffer_views: Option<Vec<RawBufferView>>,
    pub images: Option<Vec<Image>>,
    pub scenes: Option<Vec<Scene>>,
    pub materials: Option<Vec<RawMaterial>>,
    pub meshes: Option<Vec<RawMesh>>,
    pub nodes: Option<Vec<RawNode>>,
}

/// The failure of loading `raw`: the first invalid code among the
/// accessors, then the buffer views, then the meshes' primitives.
pub open spec fn load_failure(raw: RawGltf) -> Option<GltfError> {
    match first_failure(items(raw.accessors), |a: RawAccessor| accessor_failure(a)) {
        Some(e) => Some(e),
        None => match first_failure(
            items(raw.buffer_views),
            |v: RawBufferView| buffer_view_failure(v),
        ) {
            Some(e) => Some(e),
            None => first_failure(items(raw.meshes), |m: RawMesh| mesh_failure(m)),
        },
    }
}

/// `g` is the document that `raw` stands for: every collection converted
/// item by item, in order, an absent one empty.
pub open spec fn loaded(raw: RawGltf, g: Gltf) -> bool {
    &&& converted(
        items(raw.accessors),
        g.accessors@,
        |a: RawAccessor, b: Accessor| accessor_matches(a, b),
    )
    &&& g.assets@ == items(raw.assets)
    &&& g.buffers@ == items(raw.buffers)
    &&& converted(
        items(raw.buffer_views),
        g.buffer_views@,
        |a: RawBufferView, b: BufferView| buffer_view_matches(a, b),
    )
    &&& g.images@ == items(raw.images)
    &&& g.scenes@ == items(raw.scenes)
    &&& converted(
        items(raw.materials),
        g.materials@,
        |a: RawMaterial, b: Material| material_matches(a, b),
    )
    &&& converted(items(raw.meshes), g.meshes@, |a: RawMesh, b: Mesh| mesh_matches(a, b))
    &&& converted(items(raw.nodes), g.nodes@, |a: RawNode, b: Node| node_matches(a, b))
}

impl Gltf {
    /// Builds the document from its raw form: applies the defaults of the
    /// absent fields and validates every numeric code.
    pub fn from_raw(raw: RawGltf) -> (r: Result<Gltf, GltfError>)
        ensures
            match load_failure(raw) {
                Some(e) => r == Err::<Gltf, GltfError>(e),
                None => r matches Ok(g) && loaded(raw, g),
            },
    {
        let accessors = match convert_accessors(take_items(raw.accessors)) {
            Ok(a) => a,
            Err(e) => {
                return Err(e);
            },
        };
        let buffer_views = match convert_buffer_views(take_items(raw.buffer_views)) {
            Ok(v) => v,
            Err(e) => {
                return Err(e);
            },
        };
        let meshes = match convert_meshes(take_items(raw.meshes)) {
            Ok(m) => m,
            Err(e) => {
                return Err(e);
            },
        };
        Ok(Gltf {
            accessors,
            assets: take_items(raw.assets),
            buffers: take_items(raw.buffers),
            buffer_views,
            images: take_items(raw.images),
            scenes: take_items(raw.scenes),
            materials: convert_materials(take_items(raw.materials)),
            meshes,
            nodes: convert_nodes(take_items(raw.nodes)),
        })
    }
}

/// Loading a document whose text has no `materials` gives no materials.
pub proof fn lemma_absent_materials_are_empty(raw: RawGltf, g: Gltf)
    requires
        raw.materials is None,
        loaded(raw, g),
    ensures
        g.materials@ == Seq::<Material>::empty(),
{
    assert(g.materials@ =~= Seq::<Material>::empty());
}

/// Loading a document in which material `i` has no `baseColorFactor` gives
/// that material opaque white, `[1.0, 1.0, 1.0, 1.0]`.
pub proof fn lemma_absent_base_color_is_white(raw: RawGltf, g: Gltf, i: int)
    requires
        loaded(raw, g),
        0 <= i < items(raw.materials).len(),
        items(raw.materials)[i].pbr_metallic_roughness matches Some(p)
            ==> p.base_color_factor is None,
    ensures
        g.materials@[i].pbr_metallic_roughness.base_color_factor@ == seq![
            one(),
            one(),
            one(),
            one(),
        ],
{
    assert(material_matches(items(raw.materials)[i], g.materials@[i]));
}

} // verus!
