//! The failures that loading and resolution report.
use vstd::prelude::*;

verus! {

/// The numeric-code domains that the loader validates.
#[derive(Debug, Clone, Copy, PartialEq, Eq, Structural)]
pub enum EnumDomain {
    ComponentType,
    BufferViewTarget,
    PrimitiveMode,
    Filter,
    WrappingMode,
}

/// Every failure of the crate, reported to the immediate caller.
#[derive(Debug, Clone, PartialEq, Eq)]
pub enum GltfError {
    /// The text is not base64: a bad length, a misplaced `=`, or a character
    /// outside the alphabet.
    MalformedBase64,
    /// A `data:` URI whose media type or encoding is not one of the known ones.
    UnsupportedDataUri,
    /// A numeric code outside the closed set of its domain.
    InvalidEnumCode { domain: EnumDomain, value: u32 },
    /// The accessor carries a sparse descriptor, which is not resolved.
    SparseAccessorUnsupported,
    /// The accessor names no buffer view.
    MissingBufferView,
    /// The accessor's type tag is absent or unknown.
    InvalidAccessorType,
    /// The image has neither a URI nor a buffer view.
    ImageSourceMissing,
    /// The JSON text does not have the shape of a document.
    MalformedDocument { reason: String },
    /// An index field names a position beyond its sequence.
    IndexOutOfRange,
    /// A resolved offset or length does not fit in `usize`.
    RangeOverflow,
}

} // verus!
