use std::io::Write;

use tiled_json::error::LoadError;
use tiled_json::layerreader::TileLayerDataReader;
use tiled_json::layerreader::decode_tile_layer_data;
use tiled_json::layerreader::get_tile_layer_data;

fn le_bytes(ws: &[u32]) -> Vec<u8> {
    let mut out = Vec::new();
    for w in ws {
        out.extend_from_slice(&w.to_le_bytes());
    }
    out
}

fn zlib_compress(bytes: &[u8]) -> Vec<u8> {
    let mut enc = flate2::write::ZlibEncoder::new(Vec::new(), flate2::Compression::default());
    enc.write_all(bytes).unwrap();
    enc.finish().unwrap()
}

fn gzip_compress(bytes: &[u8]) -> Vec<u8> {
    let mut enc = flate2::write::GzEncoder::new(Vec::new(), flate2::Compression::default());
    enc.write_all(bytes).unwrap();
    enc.finish().unwrap()
}

#[test]
fn vector_source_is_identity() {
    // A literal integer array of length w*h decodes to exactly itself.
    let v: Vec<u32> = vec![1, 2, 3, 4, 5, 6];
    let r = get_tile_layer_data(Some(TileLayerDataReader::Vector(v.clone())), 6, "ground", &None);
    assert_eq!(r.unwrap(), v);
}

#[test]
fn absent_source_is_empty_not_padded() {
    // A 10x10 grid with no data at all: an empty sequence, not 100 zeros
    // and not a size mismatch.
    let r = get_tile_layer_data(None, 100, "ground", &None);
    let v = r.unwrap();
    assert_eq!(v.len(), 0);
}

#[test]
fn base64_uncompressed_words_round_trip() {
    let ws: Vec<u32> = vec![0x12345678, 0, 0xffffffff, 7];
    let b64 = base64::encode(le_bytes(&ws));
    let r = get_tile_layer_data(Some(TileLayerDataReader::Base64(b64)), 4, "ground", &None);
    assert_eq!(r.unwrap(), ws);
}

#[test]
fn base64_little_endian_order_is_exact() {
    // One word spelled byte by byte: 0x04030201 little-endian.
    let b64 = base64::encode(&[0x01u8, 0x02, 0x03, 0x04]);
    let r = get_tile_layer_data(Some(TileLayerDataReader::Base64(b64)), 1, "ground", &None);
    assert_eq!(r.unwrap(), vec![0x04030201u32]);
}

#[test]
fn zlib_round_trip() {
    let ws: Vec<u32> = vec![9, 8, 7, 6, 5, 4, 3, 2, 1, 0x80000001];
    let b64 = base64::encode(zlib_compress(&le_bytes(&ws)));
    let r = get_tile_layer_data(
        Some(TileLayerDataReader::Base64(b64)),
        10,
        "ground",
        &Some("zlib".to_string()),
    );
    assert_eq!(r.unwrap(), ws);
}

#[test]
fn gzip_round_trip() {
    let ws: Vec<u32> = vec![42, 43, 44];
    let b64 = base64::encode(gzip_compress(&le_bytes(&ws)));
    let r = get_tile_layer_data(
        Some(TileLayerDataReader::Base64(b64)),
        3,
        "ground",
        &Some("gzip".to_string()),
    );
    assert_eq!(r.unwrap(), ws);
}

#[test]
fn empty_compression_name_means_none() {
    let ws: Vec<u32> = vec![1, 2];
    let b64 = base64::encode(le_bytes(&ws));
    let r = get_tile_layer_data(
        Some(TileLayerDataReader::Base64(b64)),
        2,
        "ground",
        &Some(String::new()),
    );
    assert_eq!(r.unwrap(), ws);
}

#[test]
fn bad_base64_is_invalid_encoding() {
    let r = get_tile_layer_data(
        Some(TileLayerDataReader::Base64("@@@not-base64@@@".to_string())),
        1,
        "ground",
        &None,
    );
    match r {
        Err(LoadError::InvalidEncoding { layer_name }) => assert_eq!(layer_name, "ground"),
        other => panic!("expected InvalidEncoding, got {:?}", other),
    }
}

#[test]
fn unknown_scheme_is_unsupported_compression() {
    let b64 = base64::encode(&[0u8; 8]);
    let r = get_tile_layer_data(
        Some(TileLayerDataReader::Base64(b64)),
        2,
        "ground",
        &Some("lz4".to_string()),
    );
    match r {
        Err(LoadError::UnsupportedCompression { layer_name, scheme }) => {
            assert_eq!(layer_name, "ground");
            assert_eq!(scheme, "lz4");
        },
        other => panic!("expected UnsupportedCompression, got {:?}", other),
    }
}

#[test]
fn corrupt_zlib_stream_is_corrupt_data() {
    // Valid base64 of bytes that are no zlib stream at all.
    let b64 = base64::encode(&[0xffu8, 0xfe, 0xfd, 0xfc, 0xfb, 0xfa]);
    let r = get_tile_layer_data(
        Some(TileLayerDataReader::Base64(b64)),
        1,
        "ground",
        &Some("zlib".to_string()),
    );
    match r {
        Err(LoadError::CorruptData { layer_name }) => assert_eq!(layer_name, "ground"),
        other => panic!("expected CorruptData, got {:?}", other),
    }
}

#[test]
fn truncated_zlib_stream_is_corrupt_data() {
    let mut z = zlib_compress(&le_bytes(&[1, 2, 3, 4, 5, 6, 7, 8]));
    z.truncate(z.len() - 3);
    let b64 = base64::encode(z);
    let r = get_tile_layer_data(
        Some(TileLayerDataReader::Base64(b64)),
        8,
        "ground",
        &Some("zlib".to_string()),
    );
    assert!(matches!(r, Err(LoadError::CorruptData { .. })));
}

#[test]
fn wrong_byte_count_is_size_mismatch_never_truncated() {
    // Five bytes can never spell one 4-byte word: a hard mismatch.
    let b64 = base64::encode(&[1u8, 2, 3, 4, 5]);
    let r = get_tile_layer_data(Some(TileLayerDataReader::Base64(b64)), 1, "ground", &None);
    match r {
        Err(LoadError::SizeMismatch { layer_name }) => assert_eq!(layer_name, "ground"),
        other => panic!("expected SizeMismatch, got {:?}", other),
    }
}

#[test]
fn too_few_words_is_size_mismatch() {
    // 8 bytes but 3 words expected: mismatch, not zero-padding.
    let b64 = base64::encode(le_bytes(&[1, 2]));
    let r = get_tile_layer_data(Some(TileLayerDataReader::Base64(b64)), 3, "ground", &None);
    assert!(matches!(r, Err(LoadError::SizeMismatch { .. })));
}

#[test]
fn decompressed_size_mismatch_after_zlib() {
    // The length check applies after decompression.
    let b64 = base64::encode(zlib_compress(&[0u8; 6]));
    let r = decode_tile_layer_data(&b64, 1, "ground", &Some("zlib".to_string()));
    assert!(matches!(r, Err(LoadError::SizeMismatch { .. })));
}

#[test]
fn explicitly_empty_payload_is_empty_grid() {
    // base64 of zero bytes decodes to an empty (but present) payload.
    let r = decode_tile_layer_data("", 4, "ground", &None);
    assert!(matches!(r, Ok(None)));
    let r2 = get_tile_layer_data(
        Some(TileLayerDataReader::Base64(String::new())),
        4,
        "ground",
        &None,
    );
    assert_eq!(r2.unwrap().len(), 0);
}
