use nanogltf::utils::{attribute_bytes, image_source, ImageSource};
use nanogltf::{
    Accessor, Buffer, BufferView, ComponentType, Gltf, GltfError, Image, Sparse, SparseIndices,
    SparseValues,
};

fn accessor(component_type: ComponentType, tag: &str, count: usize) -> Accessor {
    Accessor {
        buffer_view: Some(0),
        byte_offset: 8,
        component_type,
        normalized: false,
        count,
        max: None,
        min: None,
        sparse: None,
        name: None,
        type_: Some(tag.to_string()),
    }
}

fn view(buffer: usize, byte_offset: usize, byte_length: usize) -> BufferView {
    BufferView { buffer, byte_offset, byte_length, stride: None, target: None, name: None }
}

fn buffer() -> Buffer {
    Buffer { uri: "model.bin".to_string(), byte_length: 4096, name: None }
}

fn document(accessors: Vec<Accessor>, buffer_views: Vec<BufferView>, buffers: Vec<Buffer>) -> Gltf {
    Gltf {
        accessors,
        assets: vec![],
        buffers,
        buffer_views,
        images: vec![],
        scenes: vec![],
        materials: vec![],
        meshes: vec![],
        nodes: vec![],
    }
}

#[test]
fn attribute_bytes_float_vec3() {
    let g = document(
        vec![accessor(ComponentType::Float, "VEC3", 24)],
        vec![view(1, 100, 400)],
        vec![buffer(), buffer()],
    );
    assert_eq!(attribute_bytes(&g, 0), Ok((1, 108, 288)));
}

#[test]
fn attribute_bytes_element_sizes() {
    let cases = [
        (ComponentType::UnsignedShort, "SCALAR", 36, 72),
        (ComponentType::Float, "VEC2", 10, 80),
        (ComponentType::UnsignedByte, "VEC4", 5, 20),
        (ComponentType::Short, "MAT2", 3, 24),
        (ComponentType::Byte, "MAT3", 2, 18),
        (ComponentType::Float, "MAT4", 2, 128),
        (ComponentType::UnsignedInt, "SCALAR", 0, 0),
    ];
    for (t, tag, count, length) in cases {
        let g = document(vec![accessor(t, tag, count)], vec![view(0, 0, 4096)], vec![buffer()]);
        assert_eq!(attribute_bytes(&g, 0), Ok((0, 8, length)));
    }
}

#[test]
fn attribute_bytes_rejects_sparse_accessor() {
    let mut a = accessor(ComponentType::Float, "VEC3", 24);
    a.sparse = Some(Sparse {
        count: 2,
        indices: SparseIndices { buffer_view: 0, byte_offset: 0, component_type: 5123 },
        values: SparseValues { buffer_view: 0, byte_offset: 16 },
    });
    let g = document(vec![a], vec![view(0, 0, 4096)], vec![buffer()]);
    assert_eq!(attribute_bytes(&g, 0), Err(GltfError::SparseAccessorUnsupported));

    // a sparse descriptor fails the accessor before anything else is looked at
    let mut b = accessor(ComponentType::Float, "NOPE", 24);
    b.buffer_view = None;
    b.sparse = Some(Sparse {
        count: 1,
        indices: SparseIndices { buffer_view: 9, byte_offset: 0, component_type: 5125 },
        values: SparseValues { buffer_view: 9, byte_offset: 0 },
    });
    let g = document(vec![b], vec![], vec![]);
    assert_eq!(attribute_bytes(&g, 0), Err(GltfError::SparseAccessorUnsupported));
}

#[test]
fn attribute_bytes_missing_buffer_view() {
    let mut a = accessor(ComponentType::Float, "VEC3", 24);
    a.buffer_view = None;
    let g = document(vec![a], vec![view(0, 0, 4096)], vec![buffer()]);
    assert_eq!(attribute_bytes(&g, 0), Err(GltfError::MissingBufferView));
}

#[test]
fn attribute_bytes_index_out_of_range() {
    let g = document(
        vec![accessor(ComponentType::Float, "VEC3", 24)],
        vec![view(0, 0, 4096)],
        vec![buffer()],
    );
    assert_eq!(attribute_bytes(&g, 1), Err(GltfError::IndexOutOfRange));

    let g = document(vec![accessor(ComponentType::Float, "VEC3", 24)], vec![], vec![buffer()]);
    assert_eq!(attribute_bytes(&g, 0), Err(GltfError::IndexOutOfRange));

    let g = document(
        vec![accessor(ComponentType::Float, "VEC3", 24)],
        vec![view(3, 0, 4096)],
        vec![buffer()],
    );
    assert_eq!(attribute_bytes(&g, 0), Err(GltfError::IndexOutOfRange));
}

#[test]
fn attribute_bytes_invalid_type_tag() {
    let g = document(
        vec![accessor(ComponentType::Float, "VEC5", 24)],
        vec![view(0, 0, 4096)],
        vec![buffer()],
    );
    assert_eq!(attribute_bytes(&g, 0), Err(GltfError::InvalidAccessorType));

    let g = document(
        vec![accessor(ComponentType::Float, "vec3", 24)],
        vec![view(0, 0, 4096)],
        vec![buffer()],
    );
    assert_eq!(attribute_bytes(&g, 0), Err(GltfError::InvalidAccessorType));

    let mut a = accessor(ComponentType::Float, "VEC3", 24);
    a.type_ = None;
    let g = document(vec![a], vec![view(0, 0, 4096)], vec![buffer()]);
    assert_eq!(attribute_bytes(&g, 0), Err(GltfError::InvalidAccessorType));
}

#[test]
fn attribute_bytes_range_overflow() {
    let g = document(
        vec![accessor(ComponentType::Float, "VEC3", usize::MAX / 4)],
        vec![view(0, 0, 4096)],
        vec![buffer()],
    );
    assert_eq!(attribute_bytes(&g, 0), Err(GltfError::RangeOverflow));

    let g = document(
        vec![accessor(ComponentType::Float, "VEC3", 1)],
        vec![view(0, usize::MAX - 7, 4096)],
        vec![buffer()],
    );
    assert_eq!(attribute_bytes(&g, 0), Err(GltfError::RangeOverflow));

    let g = document(
        vec![accessor(ComponentType::Float, "VEC3", 1)],
        vec![view(0, usize::MAX - 8, 4096)],
        vec![buffer()],
    );
    assert_eq!(attribute_bytes(&g, 0), Ok((0, usize::MAX, 12)));
}

fn image(uri: Option<&str>, buffer_view: Option<usize>) -> Image {
    Image {
        uri: uri.map(|u| u.to_string()),
        mime_type: Some("image/png".to_string()),
        buffer_view,
        name: None,
    }
}

#[test]
fn image_source_from_data_uri() {
    let g = document(vec![], vec![], vec![]);
    let img = image(Some("data:image/png;base64,iVBORw=="), None);
    assert_eq!(image_source(&g, &img), Ok(ImageSource::Bytes(vec![0x89, 0x50, 0x4e, 0x47])));
}

#[test]
fn image_source_from_path() {
    let g = document(vec![], vec![], vec![]);
    let img = image(Some("albedo.png"), Some(0));
    assert_eq!(image_source(&g, &img), Ok(ImageSource::RelativePath("albedo.png".to_string())));
}

#[test]
fn image_source_from_buffer_view() {
    let g = document(vec![], vec![view(0, 10, 20), view(2, 64, 512)], vec![buffer()]);
    let img = image(None, Some(1));
    assert_eq!(
        image_source(&g, &img),
        Ok(ImageSource::Slice { buffer: 2, offset: 64, length: 512 })
    );
}

#[test]
fn image_source_failures() {
    let g = document(vec![], vec![view(0, 10, 20)], vec![buffer()]);
    assert_eq!(image_source(&g, &image(None, None)), Err(GltfError::ImageSourceMissing));
    assert_eq!(image_source(&g, &image(None, Some(1))), Err(GltfError::IndexOutOfRange));
    assert_eq!(
        image_source(&g, &image(Some("data:image/gif;base64,R0lG"), None)),
        Err(GltfError::UnsupportedDataUri)
    );
    assert_eq!(
        image_source(&g, &image(Some("data:image/png;base64,i"), None)),
        Err(GltfError::MalformedBase64)
    );
}
