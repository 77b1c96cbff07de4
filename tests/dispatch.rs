use ex_gdal_nif::encoding::{decode_path, type_tag, BandDataType, DecodePath, TypeTag};

#[test]
fn supported_encodings_keep_their_tag() {
    assert_eq!(type_tag(BandDataType::UInt8), TypeTag::UInt8);
    assert_eq!(type_tag(BandDataType::Int16), TypeTag::Int16);
    assert_eq!(type_tag(BandDataType::UInt16), TypeTag::UInt16);
    assert_eq!(type_tag(BandDataType::Int32), TypeTag::Int32);
    assert_eq!(type_tag(BandDataType::UInt32), TypeTag::UInt32);
    assert_eq!(type_tag(BandDataType::Float32), TypeTag::Float32);
    assert_eq!(type_tag(BandDataType::Float64), TypeTag::Float64);
}

#[test]
fn other_encodings_are_unknown() {
    for dt in [
        BandDataType::Unknown,
        BandDataType::Int8,
        BandDataType::UInt64,
        BandDataType::Int64,
    ] {
        assert_eq!(type_tag(dt), TypeTag::Unknown);
        assert_eq!(decode_path(dt), DecodePath::Float64);
    }
}

#[test]
fn decode_paths_and_widths() {
    assert_eq!(decode_path(BandDataType::UInt8).width(), 1);
    assert_eq!(decode_path(BandDataType::Int16).width(), 2);
    assert_eq!(decode_path(BandDataType::UInt16).width(), 2);
    assert_eq!(decode_path(BandDataType::Int32).width(), 4);
    assert_eq!(decode_path(BandDataType::UInt32).width(), 4);
    assert_eq!(decode_path(BandDataType::Float32).width(), 4);
    assert_eq!(decode_path(BandDataType::Float64).width(), 8);
    assert_eq!(decode_path(BandDataType::UInt64).width(), 8);
    assert_eq!(decode_path(BandDataType::Int16), DecodePath::Int16);
}
