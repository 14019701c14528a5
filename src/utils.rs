//! Helpers that extract the data out of a parsed document: data URIs,
//! attribute byte ranges and image sources.
use vstd::prelude::*;
use vstd::string::StringSliceAdditionalSpecFns;
use vstd::utf8::{encode_utf8, encode_utf8_decode_utf8};

use crate::base64::{decode_from, decoded};
use crate::error::GltfError;
use crate::gltf::{Gltf, Image};

verus! {

/// What a URI refers to.
#[derive(Debug, PartialEq)]
pub enum UriData {
    /// The bytes embedded in a data URI.
    Bytes(Vec<u8>),
    /// An external reference, left unresolved.
    RelativePath(String),
}

/// Whether `s` begins with `q`.
pub open spec fn starts_with(s: Seq<u8>, q: Seq<u8>) -> bool {
    q.len() <= s.len() && s.subrange(0, q.len() as int) == q
}

/// The UTF-8 bytes of `data:`, the scheme of every data URI.
pub open spec fn data_scheme() -> Seq<u8> {
    "data:".spec_bytes()
}

/// The UTF-8 bytes that begin a base64 data URI of binary data, up to
/// its payload.
pub open spec fn octet_stream_prefix() -> Seq<u8> {
    "data:application/octet-stream;base64,".spec_bytes()
}

/// The UTF-8 bytes that begin a base64 data URI of a JPEG image, up to
/// its payload.
pub open spec fn jpeg_prefix() -> Seq<u8> {
    "data:image/jpeg;base64,".spec_bytes()
}

/// The UTF-8 bytes that begin a base64 data URI of a PNG image, up to
/// its payload.
pub open spec fn png_prefix() -> Seq<u8> {
    "data:image/png;base64,".spec_bytes()
}

/// Where the base64 payload of a data URI begins, for the recognised
/// media types.
pub open spec fn payload_start(s: Seq<u8>) -> Option<int> {
    if starts_with(s, octet_stream_prefix()) {
        Some(octet_stream_prefix().len() as int)
    } else if starts_with(s, jpeg_prefix()) {
        Some(jpeg_prefix().len() as int)
    } else if starts_with(s, png_prefix()) {
        Some(png_prefix().len() as int)
    } else {
        None
    }
}

/// `r` is the classification of the URI whose text is `uri`: an external
/// reference unless it is a data URI, whose recognised payload is decoded.
pub open spec fn classified(uri: Seq<char>, r: Result<UriData, GltfError>) -> bool {
    let s = encode_utf8(uri);
    if !starts_with(s, data_scheme()) {
        r matches Ok(UriData::RelativePath(p)) && p@ == uri
    } else {
        match payload_start(s) {
            None => r == Err::<UriData, GltfError>(GltfError::UnsupportedDataUri),
            Some(k) => match decoded(s.subrange(k, s.len() as int)) {
                Some(v) => r matches Ok(UriData::Bytes(b)) && b@ == v,
                None => r == Err::<UriData, GltfError>(GltfError::MalformedBase64),
            },
        }
    }
}

fn has_prefix(s: &[u8], q: &[u8]) -> (r: bool)
    ensures
        r == starts_with(s@, q@),
{
    if q.len() > s.len() {
        return false;
    }
    let mut i: usize = 0;
    while i < q.len()
        invariant
            q@.len() <= s@.len(),
            i <= q@.len(),
            forall|j: int| 0 <= j < i ==> s@[j] == q@[j],
        decreases q@.len() - i,
    {
        if s[i] != q[i] {
            assert(s@.subrange(0, q@.len() as int)[i as int] != q@[i as int]);
            return false;
        }
        i = i + 1;
    }
    assert(s@.subrange(0, q@.len() as int) =~= q@);
    true
}

/// Classifies a URI: a `data:` URI with a recognised media type gives its
/// decoded payload, any other `data:` URI fails, and every other URI is an
/// external reference.
pub fn parse_uri(uri: &str) -> (r: Result<UriData, GltfError>)
    ensures
        classified(uri@, r),
{
    let p = uri.as_bytes();
    if !has_prefix(p, "data:".as_bytes()) {
        return Ok(UriData::RelativePath(uri.to_owned()));
    }
    let octet_stream = "data:application/octet-stream;base64,".as_bytes();
    let jpeg = "data:image/jpeg;base64,".as_bytes();
    let png = "data:image/png;base64,".as_bytes();
    let start = if has_prefix(p, octet_stream) {
        octet_stream.len()
    } else if has_prefix(p, jpeg) {
        jpeg.len()
    } else if has_prefix(p, png) {
        png.len()
    } else {
        return Err(GltfError::UnsupportedDataUri);
    };
    match decode_from(p, start) {
        Ok(bytes) => Ok(UriData::Bytes(bytes)),
        Err(e) => Err(e),
    }
}

/// Whether two texts are the same.
fn text_eq(a: &str, b: &str) -> (r: bool)
    ensures
        r == (a@ == b@),
{
    let x = a.as_bytes();
    let y = b.as_bytes();
    if x.len() != y.len() {
        return false;
    }
    let mut i: usize = 0;
    while i < x.len()
        invariant
            x@ == encode_utf8(a@),
            y@ == encode_utf8(b@),
            x@.len() == y@.len(),
            i <= x@.len(),
            forall|j: int| 0 <= j < i ==> x@[j] == y@[j],
        decreases x@.len() - i,
    {
        if x[i] != y[i] {
            assert(x@[i as int] != y@[i as int]);
            return false;
        }
        i = i + 1;
    }
    proof {
        assert(x@ =~= y@);
        encode_utf8_decode_utf8(a@);
        encode_utf8_decode_utf8(b@);
    }
    true
}

/// The number of components in an element of the given type tag.
pub open spec fn multiplicity(tag: Seq<char>) -> Option<nat> {
    if tag == "SCALAR"@ {
        Some(1)
    } else if tag == "VEC2"@ {
        Some(2)
    } else if tag == "VEC3"@ {
        Some(3)
    } else if tag == "VEC4"@ {
        Some(4)
    } else if tag == "MAT2"@ {
        Some(4)
    } else if tag == "MAT3"@ {
        Some(9)
    } else if tag == "MAT4"@ {
        Some(16)
    } else {
        None
    }
}

fn element_multiplicity(tag: &str) -> (r: Option<usize>)
    ensures
        match multiplicity(tag@) {
            Some(k) => r == Some(k as usize),
            None => r is None,
        },
        r matches Some(k) ==> k <= 16,
{
    if text_eq(tag, "SCALAR") {
        Some(1)
    } else if text_eq(tag, "VEC2") {
        Some(2)
    } else if text_eq(tag, "VEC3") {
        Some(3)
    } else if text_eq(tag, "VEC4") {
        Some(4)
    } else if text_eq(tag, "MAT2") {
        Some(4)
    } else if text_eq(tag, "MAT3") {
        Some(9)
    } else if text_eq(tag, "MAT4") {
        Some(16)
    } else {
        None
    }
}

/// The byte range that accessor `attribute` of `gltf` covers:
/// `(buffer index, offset in the buffer, length in bytes)`.
pub open spec fn attribute_range(gltf: &Gltf, attribute: int) -> Result<
    (usize, usize, usize),
    GltfError,
> {
    if !(0 <= attribute < gltf.accessors@.len()) {
        Err(GltfError::IndexOutOfRange)
    } else {
        let accessor = gltf.accessors@[attribute];
        if accessor.sparse is Some {
            Err(GltfError::SparseAccessorUnsupported)
        } else {
            match accessor.buffer_view {
                None => Err(GltfError::MissingBufferView),
                Some(v) => if v >= gltf.buffer_views@.len() {
                    Err(GltfError::IndexOutOfRange)
                } else {
                    let view = gltf.buffer_views@[v as int];
                    let k = match accessor.type_ {
                        Some(tag) => multiplicity(tag@),
                        None => None,
                    };
                    if view.buffer >= gltf.buffers@.len() {
                        Err(GltfError::IndexOutOfRange)
                    } else if k is None {
                        Err(GltfError::InvalidAccessorType)
                    } else {
                        let offset = view.byte_offset + accessor.byte_offset;
                        let length = accessor.count * (accessor.component_type.size()
                            * k->Some_0);
                        if offset > usize::MAX || length > usize::MAX {
                            Err(GltfError::RangeOverflow)
                        } else {
                            Ok((view.buffer, offset as usize, length as usize))
                        }
                    }
                },
            }
        }
    }
}

/// Resolves accessor `attribute` to `(buffer index, offset in the buffer,
/// length in bytes)`, through its buffer view.
///
/// Could be used as
/// `utils::attribute_bytes(&model, primitive.attributes["TEXCOORD_0"])`
/// or `utils::attribute_bytes(&model, indices)`.
pub fn attribute_bytes(gltf: &Gltf, attribute: usize) -> (r: Result<
    (usize, usize, usize),
    GltfError,
>)
    ensures
        r == attribute_range(gltf, attribute as int),
{
    if attribute >= gltf.accessors.len() {
        return Err(GltfError::IndexOutOfRange);
    }
    let accessor = &gltf.accessors[attribute];
    if accessor.sparse.is_some() {
        return Err(GltfError::SparseAccessorUnsupported);
    }
    let v = match accessor.buffer_view {
        Some(v) => v,
        None => {
            return Err(GltfError::MissingBufferView);
        },
    };
    if v >= gltf.buffer_views.len() {
        return Err(GltfError::IndexOutOfRange);
    }
    let view = &gltf.buffer_views[v];
    if view.buffer >= gltf.buffers.len() {
        return Err(GltfError::IndexOutOfRange);
    }
    let k = match &accessor.type_ {
        Some(tag) => element_multiplicity(tag.as_str()),
        None => None,
    };
    let k = match k {
        Some(k) => k,
        None => {
            return Err(GltfError::InvalidAccessorType);
        },
    };
    let size = accessor.component_type.byte_size();
    assert(size * k <= 64) by (nonlinear_arith)
        requires
            size <= 4,
            k <= 16,
    ;
    let element_size = size * k;
    let offset = match view.byte_offset.checked_add(accessor.byte_offset) {
        Some(offset) => offset,
        None => {
            return Err(GltfError::RangeOverflow);
        },
    };
    let length = match accessor.count.checked_mul(element_size) {
        Some(length) => length,
        None => {
            return Err(GltfError::RangeOverflow);
        },
    };
    Ok((view.buffer, offset, length))
}

/// Resolving an accessor that carries a sparse descriptor always fails
/// with `SparseAccessorUnsupported`, whatever else the document holds.
pub proof fn lemma_sparse_accessor_rejected(gltf: &Gltf, attribute: int)
    requires
        0 <= attribute < gltf.accessors@.len(),
        gltf.accessors@[attribute].sparse is Some,
    ensures
        attribute_range(gltf, attribute) == Err::<(usize, usize, usize), GltfError>(
            GltfError::SparseAccessorUnsupported,
        ),
{
}

/// Where the bytes of an image come from.
#[derive(Debug, PartialEq)]
pub enum ImageSource {
    /// Bytes decoded from a data URI.
    Bytes(Vec<u8>),
    /// A byte range of a buffer, from the image's buffer view.
    Slice { buffer: usize, offset: usize, length: usize },
    /// An external reference, left unresolved.
    RelativePath(String),
}

/// `r` is the source of `image`: its URI, classified, if it has one, else
/// the byte range of its buffer view.
pub open spec fn image_source_of(gltf: &Gltf, image: &Image, r: Result<ImageSource, GltfError>) -> bool {
    match image.uri {
        Some(uri) => match r {
            Ok(ImageSource::Bytes(b)) => classified(uri@, Ok(UriData::Bytes(b))),
            Ok(ImageSource::RelativePath(p)) => classified(uri@, Ok(UriData::RelativePath(p))),
            Ok(ImageSource::Slice { .. }) => false,
            Err(e) => classified(uri@, Err(e)),
        },
        None => match image.buffer_view {
            None => r == Err::<ImageSource, GltfError>(GltfError::ImageSourceMissing),
            Some(v) => if v < gltf.buffer_views@.len() {
                let view = gltf.buffer_views@[v as int];
                r == Ok::<ImageSource, GltfError>(
                    ImageSource::Slice {
                        buffer: view.buffer,
                        offset: view.byte_offset,
                        length: view.byte_length,
                    },
                )
            } else {
                r == Err::<ImageSource, GltfError>(GltfError::IndexOutOfRange)
            },
        },
    }
}

/// The source of an image's bytes: its URI, classified, if it has one;
/// otherwise the `(buffer, offset, length)` of its buffer view.
pub fn image_source(gltf: &Gltf, image: &Image) -> (r: Result<ImageSource, GltfError>)
    ensures
        image_source_of(gltf, image, r),
{
    match &image.uri {
        Some(uri) => match parse_uri(uri.as_str()) {
            Ok(UriData::Bytes(bytes)) => Ok(ImageSource::Bytes(bytes)),
            Ok(UriData::RelativePath(path)) => Ok(ImageSource::RelativePath(path)),
            Err(e) => Err(e),
        },
        None => match image.buffer_view {
            Some(v) => {
                if v >= gltf.buffer_views.len() {
                    return Err(GltfError::IndexOutOfRange);
                }
                let view = &gltf.buffer_views[v];
                Ok(ImageSource::Slice {
                    buffer: view.buffer,
                    offset: view.byte_offset,
                    length: view.byte_length,
                })
            },
            None => Err(GltfError::ImageSourceMissing),
        },
    }
}

} // verus!
