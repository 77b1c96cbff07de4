use ex_gdal_nif::bridge::{band_bytes, resolve_band, window_bytes, BridgeError};
use ex_gdal_nif::encoding::{decode_path, type_tag, BandDataType, TypeTag};
use ex_gdal_nif::marshal::{native_order, ByteOrder};
use ex_gdal_nif::pixels::PixelBuffer;

fn pixels_for(dt: BandDataType, n: usize) -> PixelBuffer {
    match dt {
        BandDataType::UInt8 => PixelBuffer::UInt8(vec![1; n]),
        BandDataType::Int16 => PixelBuffer::Int16(vec![-1; n]),
        BandDataType::UInt16 => PixelBuffer::UInt16(vec![2; n]),
        BandDataType::Int32 => PixelBuffer::Int32(vec![-3; n]),
        BandDataType::UInt32 => PixelBuffer::UInt32(vec![4; n]),
        BandDataType::Float32 => PixelBuffer::Float32Bits(vec![0.5f32.to_bits(); n]),
        _ => PixelBuffer::Float64Bits(vec![0.5f64.to_bits(); n]),
    }
}

#[test]
fn band_length_is_count_times_width() {
    let cases = [
        (BandDataType::UInt8, 1),
        (BandDataType::Int16, 2),
        (BandDataType::UInt16, 2),
        (BandDataType::Int32, 4),
        (BandDataType::UInt32, 4),
        (BandDataType::Float32, 4),
        (BandDataType::Float64, 8),
    ];
    for (dt, size) in cases {
        let p = pixels_for(dt, 5 * 7);
        assert_eq!(band_bytes(dt, 5, 7, &p, native_order()).len(), 5 * 7 * size);
    }
}

#[test]
fn unknown_band_reads_eight_bytes_per_pixel() {
    for dt in [BandDataType::Unknown, BandDataType::Int8, BandDataType::Int64] {
        assert_eq!(type_tag(dt), TypeTag::Unknown);
        let p = pixels_for(dt, 6);
        assert_eq!(p.path(), decode_path(dt));
        assert_eq!(band_bytes(dt, 3, 2, &p, ByteOrder::Little).len(), 48);
    }
}

#[test]
fn band_index_is_one_based() {
    assert_eq!(resolve_band(1, 1).ok(), Some(1));
    assert_eq!(resolve_band(3, 3).ok(), Some(3));
    assert!(matches!(resolve_band(0, 3), Err(BridgeError::Band { index: 0, count: 3 })));
    assert!(matches!(resolve_band(4, 3), Err(BridgeError::Band { index: 4, count: 3 })));
    assert!(matches!(resolve_band(1, 0), Err(BridgeError::Band { index: 1, count: 0 })));
}

#[test]
fn single_band_uint8_raster() {
    // A 4 x 3 raster of one 8-bit band.
    let samples: Vec<u8> = (0u8..12).map(|v| v * 10).collect();
    assert_eq!(resolve_band(1, 1).ok(), Some(1));
    assert_eq!(type_tag(BandDataType::UInt8), TypeTag::UInt8);
    let p = PixelBuffer::UInt8(samples.clone());
    let bytes = band_bytes(BandDataType::UInt8, 4, 3, &p, native_order());
    assert_eq!(bytes.len(), 12);
    assert_eq!(bytes, samples);
}

#[test]
fn window_of_two_by_two() {
    // The top-left 2 x 2 window of the raster above, as the raster library
    // hands it back: row 0 then row 1.
    let window: Vec<u8> = vec![0, 10, 40, 50];
    let bytes = window_bytes(2, 2, &window);
    assert_eq!(bytes.len(), 4);
    assert_eq!(bytes, vec![0, 10, 40, 50]);
}

#[test]
fn window_ignores_band_encoding() {
    let samples: Vec<u8> = vec![7; 3 * 5];
    assert_eq!(window_bytes(3, 5, &samples).len(), 15);
    assert_eq!(window_bytes(0, 5, &Vec::new()).len(), 0);
}
