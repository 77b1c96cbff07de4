use vstd::prelude::*;

verus! {

/// Pixel encodings a raster band may be stored in, as the raster library
/// reports them.
#[derive(Clone, Copy, Debug, PartialEq, Eq, Structural)]
pub enum BandDataType {
    Unknown,
    UInt8,
    Int8,
    UInt16,
    Int16,
    UInt32,
    Int32,
    UInt64,
    Int64,
    Float32,
    Float64,
}

/// Caller-facing type tag of a band.
///
/// `Int8`, `UInt64` and `Int64` are part of the tag set for symmetry, but no
/// band encoding maps to them.
#[derive(Clone, Copy, Debug, PartialEq, Eq, Structural)]
pub enum TypeTag {
    UInt8,
    Int8,
    UInt16,
    Int16,
    UInt32,
    Int32,
    UInt64,
    Int64,
    Float32,
    Float64,
    Unknown,
}

/// The seven fixed-width read paths.
#[derive(Clone, Copy, Debug, PartialEq, Eq, Structural)]
pub enum DecodePath {
    UInt8,
    Int16,
    UInt16,
    Int32,
    UInt32,
    Float32,
    Float64,
}

/// The encodings that have a read path of their own.
pub open spec fn is_supported(dt: BandDataType) -> bool {
    match dt {
        BandDataType::UInt8
        | BandDataType::Int16
        | BandDataType::UInt16
        | BandDataType::Int32
        | BandDataType::UInt32
        | BandDataType::Float32
        | BandDataType::Float64 => true,
        _ => false,
    }
}

pub open spec fn tag_of(dt: BandDataType) -> TypeTag {
    match dt {
        BandDataType::UInt8 => TypeTag::UInt8,
        BandDataType::Int16 => TypeTag::Int16,
        BandDataType::UInt16 => TypeTag::UInt16,
        BandDataType::Int32 => TypeTag::Int32,
        BandDataType::UInt32 => TypeTag::UInt32,
        BandDataType::Float32 => TypeTag::Float32,
        BandDataType::Float64 => TypeTag::Float64,
        _ => TypeTag::Unknown,
    }
}

/// The read path of an encoding; an unsupported encoding is read as 64-bit
/// floats, as the raster library itself promotes it.
pub open spec fn path_of(dt: BandDataType) -> DecodePath {
    match dt {
        BandDataType::UInt8 => DecodePath::UInt8,
        BandDataType::Int16 => DecodePath::Int16,
        BandDataType::UInt16 => DecodePath::UInt16,
        BandDataType::Int32 => DecodePath::Int32,
        BandDataType::UInt32 => DecodePath::UInt32,
        BandDataType::Float32 => DecodePath::Float32,
        _ => DecodePath::Float64,
    }
}

impl DecodePath {
    pub open spec fn width_spec(self) -> nat {
        match self {
            DecodePath::UInt8 => 1,
            DecodePath::Int16 | DecodePath::UInt16 => 2,
            DecodePath::Int32 | DecodePath::UInt32 | DecodePath::Float32 => 4,
            DecodePath::Float64 => 8,
        }
    }

    /// Byte width of one element read through this path.
    pub fn width(self) -> (r: usize)
        ensures
            r == self.width_spec(),
    {
        match self {
            DecodePath::UInt8 => 1,
            DecodePath::Int16 | DecodePath::UInt16 => 2,
            DecodePath::Int32 | DecodePath::UInt32 | DecodePath::Float32 => 4,
            DecodePath::Float64 => 8,
        }
    }
}

/// The tag reported for a band of encoding `dt`: `Unknown` exactly for the
/// encodings without a read path of their own.
pub fn type_tag(dt: BandDataType) -> (r: TypeTag)
    ensures
        r == tag_of(dt),
        (r == TypeTag::Unknown) <==> !is_supported(dt),
{
    match dt {
        BandDataType::UInt8 => TypeTag::UInt8,
        BandDataType::Int16 => TypeTag::Int16,
        BandDataType::UInt16 => TypeTag::UInt16,
        BandDataType::Int32 => TypeTag::Int32,
        BandDataType::UInt32 => TypeTag::UInt32,
        BandDataType::Float32 => TypeTag::Float32,
        BandDataType::Float64 => TypeTag::Float64,
        _ => TypeTag::Unknown,
    }
}

/// Picks the read path for a full-band read of encoding `dt`.
pub fn decode_path(dt: BandDataType) -> (r: DecodePath)
    ensures
        r == path_of(dt),
        !is_supported(dt) ==> r == DecodePath::Float64,
{
    match dt {
        BandDataType::UInt8 => DecodePath::UInt8,
        BandDataType::Int16 => DecodePath::Int16,
        BandDataType::UInt16 => DecodePath::UInt16,
        BandDataType::Int32 => DecodePath::Int32,
        BandDataType::UInt32 => DecodePath::UInt32,
        BandDataType::Float32 => DecodePath::Float32,
        _ => DecodePath::Float64,
    }
}

/// A band whose tag is `Unknown` is read through the 64-bit path, eight
/// bytes per pixel; any other band is read through the path of its tag.
pub proof fn lemma_unknown_reads_as_float64(dt: BandDataType)
    ensures
        tag_of(dt) == TypeTag::Unknown <==> !is_supported(dt),
        tag_of(dt) == TypeTag::Unknown ==> path_of(dt) == DecodePath::Float64
            && path_of(dt).width_spec() == 8,
{
}

} // verus!
