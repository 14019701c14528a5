use std::collections::HashMap;

use nanogltf::{
    Asset, BaseColorTexture, ComponentType, EnumDomain, FloatBits, Gltf, GltfError,
    NormalTexture, OcclusionTexture, PrimitiveMode, RawAccessor, RawBufferView, RawGltf,
    RawMaterial, RawMesh, RawNode, RawNormalTexture, RawOcclusionTexture,
    RawPbrMetallicRoughness, RawPrimitive, RawSampler, RawTextureInfo, Scene, Filter,
    WrappingMode,
};

fn bits(x: f64) -> FloatBits {
    FloatBits { bits: x.to_bits() }
}

fn empty() -> RawGltf {
    RawGltf {
        accessors: None,
        assets: None,
        buffers: None,
        buffer_views: None,
        images: None,
        scenes: None,
        materials: None,
        meshes: None,
        nodes: None,
    }
}

fn raw_accessor(component_type: u32) -> RawAccessor {
    RawAccessor {
        buffer_view: Some(0),
        byte_offset: None,
        component_type,
        normalized: None,
        count: 3,
        max: Some(vec![bits(1.0), bits(2.0), bits(3.0)]),
        min: None,
        sparse: None,
        name: Some("positions".to_string()),
        type_: Some("VEC3".to_string()),
    }
}

fn raw_material() -> RawMaterial {
    RawMaterial {
        name: Some("steel".to_string()),
        pbr_metallic_roughness: None,
        normal_texture: None,
        occlusion_texture: None,
        emissive_texture: None,
        emissive_factor: None,
        alpha_mode: None,
        alpha_cutoff: None,
        double_sided: None,
    }
}

fn raw_primitive(mode: Option<u32>) -> RawPrimitive {
    RawPrimitive { attributes: None, indices: Some(1), material: None, mode, targets: None }
}

#[test]
fn from_raw_absent_collections_are_empty() {
    let g = Gltf::from_raw(empty()).unwrap();
    assert!(g.materials.is_empty());
    assert!(g.accessors.is_empty());
    assert!(g.buffers.is_empty());
    assert!(g.buffer_views.is_empty());
    assert!(g.images.is_empty());
    assert!(g.scenes.is_empty());
    assert!(g.meshes.is_empty());
    assert!(g.nodes.is_empty());
    assert!(g.assets.is_empty());
}

#[test]
fn from_raw_material_defaults() {
    let mut raw = empty();
    raw.materials = Some(vec![raw_material()]);
    let g = Gltf::from_raw(raw).unwrap();
    let m = &g.materials[0];
    let pbr = &m.pbr_metallic_roughness;
    assert_eq!(pbr.base_color_factor, [bits(1.0); 4]);
    assert_eq!(pbr.metallic_factor, bits(1.0));
    assert_eq!(pbr.roughness_factor, bits(1.0));
    assert_eq!(pbr.base_color_texture, None);
    assert_eq!(m.emissive_factor, [bits(0.0); 3]);
    assert_eq!(m.alpha_mode, "OPAQUE");
    assert_eq!(m.alpha_cutoff, bits(0.5));
    assert!(!m.double_sided);
    assert_eq!(m.name.as_deref(), Some("steel"));
}

#[test]
fn from_raw_base_color_absent_in_present_pbr() {
    let mut material = raw_material();
    material.pbr_metallic_roughness = Some(RawPbrMetallicRoughness {
        base_color_factor: None,
        base_color_texture: Some(RawTextureInfo { index: 2, tex_coord: None }),
        metallic_factor: Some(bits(0.25)),
        roughness_factor: None,
        metallic_roughness_texture: None,
    });
    let mut raw = empty();
    raw.materials = Some(vec![material]);
    let g = Gltf::from_raw(raw).unwrap();
    let pbr = &g.materials[0].pbr_metallic_roughness;
    assert_eq!(pbr.base_color_factor, [bits(1.0), bits(1.0), bits(1.0), bits(1.0)]);
    assert_eq!(pbr.base_color_texture, Some(BaseColorTexture { index: 2, tex_coord: 0 }));
    assert_eq!(pbr.metallic_factor, bits(0.25));
    assert_eq!(pbr.roughness_factor, bits(1.0));
}

#[test]
fn from_raw_material_keeps_given_values() {
    let mut material = raw_material();
    material.pbr_metallic_roughness = Some(RawPbrMetallicRoughness {
        base_color_factor: Some([bits(0.5), bits(0.25), bits(0.125), bits(1.0)]),
        base_color_texture: None,
        metallic_factor: None,
        roughness_factor: Some(bits(0.75)),
        metallic_roughness_texture: Some(RawTextureInfo { index: 4, tex_coord: Some(1) }),
    });
    material.normal_texture = Some(RawNormalTexture { index: 1, tex_coord: None, scale: None });
    material.occlusion_texture =
        Some(RawOcclusionTexture { index: 3, tex_coord: Some(1), strength: Some(bits(0.5)) });
    material.alpha_mode = Some("MASK".to_string());
    material.alpha_cutoff = Some(bits(0.3));
    material.double_sided = Some(true);
    material.emissive_factor = Some([bits(1.0), bits(0.0), bits(0.0)]);
    let mut raw = empty();
    raw.materials = Some(vec![material]);
    let g = Gltf::from_raw(raw).unwrap();
    let m = &g.materials[0];
    assert_eq!(
        m.pbr_metallic_roughness.base_color_factor,
        [bits(0.5), bits(0.25), bits(0.125), bits(1.0)]
    );
    assert_eq!(m.pbr_metallic_roughness.roughness_factor, bits(0.75));
    assert_eq!(m.pbr_metallic_roughness.metallic_roughness_texture.as_ref().unwrap().tex_coord, 1);
    assert_eq!(m.normal_texture, Some(NormalTexture { index: 1, tex_coord: 0, scale: bits(1.0) }));
    assert_eq!(
        m.occlusion_texture,
        Some(OcclusionTexture { index: 3, tex_coord: 1, strength: bits(0.5) })
    );
    assert_eq!(m.alpha_mode, "MASK");
    assert_eq!(m.alpha_cutoff, bits(0.3));
    assert!(m.double_sided);
    assert_eq!(m.emissive_factor, [bits(1.0), bits(0.0), bits(0.0)]);
}

#[test]
fn from_raw_accessor_defaults_and_code() {
    let mut raw = empty();
    raw.accessors = Some(vec![raw_accessor(5126), raw_accessor(5123)]);
    let g = Gltf::from_raw(raw).unwrap();
    assert_eq!(g.accessors.len(), 2);
    let a = &g.accessors[0];
    assert_eq!(a.component_type, ComponentType::Float);
    assert_eq!(a.byte_offset, 0);
    assert!(!a.normalized);
    assert_eq!(a.count, 3);
    assert_eq!(a.max, Some(vec![bits(1.0), bits(2.0), bits(3.0)]));
    assert_eq!(a.type_.as_deref(), Some("VEC3"));
    assert_eq!(g.accessors[1].component_type, ComponentType::UnsignedShort);
}

#[test]
fn from_raw_rejects_bad_component_type() {
    let mut raw = empty();
    raw.accessors = Some(vec![raw_accessor(5126), raw_accessor(5124), raw_accessor(1)]);
    assert_eq!(
        Gltf::from_raw(raw),
        Err(GltfError::InvalidEnumCode { domain: EnumDomain::ComponentType, value: 5124 })
    );
}

#[test]
fn from_raw_buffer_views() {
    let mut raw = empty();
    raw.buffer_views = Some(vec![
        RawBufferView {
            buffer: 0,
            byte_offset: None,
            byte_length: 64,
            stride: Some(12),
            target: Some(34962),
            name: None,
        },
        RawBufferView {
            buffer: 0,
            byte_offset: Some(64),
            byte_length: 32,
            stride: None,
            target: None,
            name: None,
        },
    ]);
    let g = Gltf::from_raw(raw).unwrap();
    assert_eq!(g.buffer_views[0].byte_offset, 0);
    assert_eq!(g.buffer_views[0].target, Some(nanogltf::BufferViewTarget::ArrayBuffer));
    assert_eq!(g.buffer_views[1].byte_offset, 64);
    assert_eq!(g.buffer_views[1].target, None);

    let mut raw = empty();
    raw.buffer_views = Some(vec![RawBufferView {
        buffer: 0,
        byte_offset: None,
        byte_length: 64,
        stride: None,
        target: Some(1),
        name: None,
    }]);
    assert_eq!(
        Gltf::from_raw(raw),
        Err(GltfError::InvalidEnumCode { domain: EnumDomain::BufferViewTarget, value: 1 })
    );
}

#[test]
fn from_raw_meshes_and_modes() {
    let mut attributes = HashMap::new();
    attributes.insert("POSITION".to_string(), 0usize);
    let mut with_attributes = raw_primitive(Some(4));
    with_attributes.attributes = Some(attributes.clone());
    let mut raw = empty();
    raw.meshes = Some(vec![RawMesh {
        primitives: Some(vec![with_attributes, raw_primitive(None)]),
        weights: None,
        name: Some("helmet".to_string()),
    }]);
    let g = Gltf::from_raw(raw).unwrap();
    let mesh = &g.meshes[0];
    assert_eq!(mesh.primitives.len(), 2);
    assert_eq!(mesh.primitives[0].mode, Some(PrimitiveMode::Triangles));
    assert_eq!(mesh.primitives[0].attributes, attributes);
    assert_eq!(mesh.primitives[0].attributes["POSITION"], 0);
    assert_eq!(mesh.primitives[1].mode, None);
    assert!(mesh.primitives[1].attributes.is_empty());
    assert_eq!(mesh.primitives[1].indices, Some(1));

    let mut raw = empty();
    raw.meshes = Some(vec![RawMesh { primitives: None, weights: None, name: None }]);
    assert!(Gltf::from_raw(raw).unwrap().meshes[0].primitives.is_empty());
}

#[test]
fn from_raw_rejects_bad_primitive_mode() {
    let mut raw = empty();
    raw.meshes = Some(vec![
        RawMesh { primitives: Some(vec![raw_primitive(Some(0))]), weights: None, name: None },
        RawMesh {
            primitives: Some(vec![raw_primitive(Some(6)), raw_primitive(Some(9))]),
            weights: None,
            name: None,
        },
    ]);
    assert_eq!(
        Gltf::from_raw(raw),
        Err(GltfError::InvalidEnumCode { domain: EnumDomain::PrimitiveMode, value: 9 })
    );
}

#[test]
fn from_raw_reports_accessors_before_meshes() {
    let mut raw = empty();
    raw.meshes = Some(vec![RawMesh {
        primitives: Some(vec![raw_primitive(Some(9))]),
        weights: None,
        name: None,
    }]);
    raw.accessors = Some(vec![raw_accessor(7)]);
    assert_eq!(
        Gltf::from_raw(raw),
        Err(GltfError::InvalidEnumCode { domain: EnumDomain::ComponentType, value: 7 })
    );
}

#[test]
fn from_raw_nodes_scenes_assets() {
    let mut raw = empty();
    raw.nodes = Some(vec![
        RawNode {
            camera: None,
            children: None,
            skin: None,
            matrix: None,
            mesh: Some(0),
            rotation: Some([bits(0.0), bits(0.0), bits(0.0), bits(1.0)]),
            scale: None,
            translation: None,
            weights: None,
            name: Some("root".to_string()),
        },
        RawNode {
            camera: None,
            children: Some(vec![0]),
            skin: None,
            matrix: None,
            mesh: None,
            rotation: None,
            scale: None,
            translation: Some([bits(1.0), bits(2.0), bits(3.0)]),
            weights: None,
            name: None,
        },
    ]);
    raw.scenes = Some(vec![Scene { nodes: vec![1], name: None }]);
    raw.assets = Some(vec![Asset {
        copyright: None,
        generator: None,
        version: "2.0".to_string(),
        min_version: None,
    }]);
    let g = Gltf::from_raw(raw).unwrap();
    assert!(g.nodes[0].children.is_empty());
    assert_eq!(g.nodes[0].mesh, Some(0));
    assert_eq!(g.nodes[1].children, vec![0]);
    assert_eq!(g.nodes[1].translation, Some([bits(1.0), bits(2.0), bits(3.0)]));
    assert_eq!(g.scenes[0].nodes, vec![1]);
    assert_eq!(g.assets[0].version, "2.0");
}

fn raw_sampler(mag: Option<u32>, min: Option<u32>, s: Option<u32>, t: Option<u32>) -> RawSampler {
    RawSampler { mag_filter: mag, min_filter: min, wrap_s: s, wrap_t: t, name: None }
}

#[test]
fn into_sampler_validates_codes() {
    let s = raw_sampler(Some(9729), Some(9987), Some(10497), None).into_sampler().unwrap();
    assert_eq!(s.mag_filter, Some(Filter::Linear));
    assert_eq!(s.min_filter, Some(Filter::LinearMipmapLinear));
    assert_eq!(s.wrap_s, Some(WrappingMode::Repeat));
    assert_eq!(s.wrap_t, None);

    let empty = raw_sampler(None, None, None, None).into_sampler().unwrap();
    assert_eq!(empty.mag_filter, None);
    assert_eq!(empty.wrap_t, None);
}

#[test]
fn into_sampler_reports_first_bad_code() {
    assert_eq!(
        raw_sampler(Some(1), Some(2), None, None).into_sampler(),
        Err(GltfError::InvalidEnumCode { domain: EnumDomain::Filter, value: 1 })
    );
    assert_eq!(
        raw_sampler(Some(9728), None, Some(33071), Some(5)).into_sampler(),
        Err(GltfError::InvalidEnumCode { domain: EnumDomain::WrappingMode, value: 5 })
    );
    assert_eq!(
        raw_sampler(None, Some(9728), Some(3), None).into_sampler(),
        Err(GltfError::InvalidEnumCode { domain: EnumDomain::WrappingMode, value: 3 })
    );
}
