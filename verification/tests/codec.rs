use tex_codec::error::{DecompressionError, Error};
use tex_codec::format::TexFormat;
use tex_codec::gdf::{GDfDecompressor, TileStream};
use tex_codec::tex::{MipData, Tex, TexHeader};

fn push_u16(out: &mut Vec<u8>, v: u16) {
    out.extend_from_slice(&v.to_le_bytes());
}

fn push_u32(out: &mut Vec<u8>, v: u32) {
    out.extend_from_slice(&v.to_le_bytes());
}

fn push_u64(out: &mut Vec<u8>, v: u64) {
    out.extend_from_slice(&v.to_le_bytes());
}

/// A 32-byte header for an old-layout version: magic, version, dims,
/// (mipmap_count, tex_count), format code, swizzle control, cubemap
/// marker, two reserved bytes and a reserved u16.
fn header_bytes_old_layout(
    version: u32,
    width: u16,
    height: u16,
    depth: u16,
    mipmap_count: u8,
    tex_count: u8,
    format_code: u32,
) -> Vec<u8> {
    let mut out = vec![0x54, 0x45, 0x58, 0x00];
    push_u32(&mut out, version);
    push_u16(&mut out, width);
    push_u16(&mut out, height);
    push_u16(&mut out, depth);
    out.push(mipmap_count);
    out.push(tex_count);
    push_u32(&mut out, format_code);
    push_u32(&mut out, 0); // swizzle control
    push_u32(&mut out, 0); // cubemap marker
    out.push(0);
    out.push(0);
    push_u16(&mut out, 0);
    out
}

fn mip_entry_bytes(offset: u64, scanline: u32, uncompressed: u32) -> Vec<u8> {
    let mut out = Vec::new();
    push_u64(&mut out, offset);
    push_u32(&mut out, scanline);
    push_u32(&mut out, uncompressed);
    out
}

fn compression_info_bytes(size: u32, offset: u32) -> Vec<u8> {
    let mut out = Vec::new();
    push_u32(&mut out, size);
    push_u32(&mut out, offset);
    out
}

/// One texture, arbitrary mips: header, entry table, info table, then
/// the payloads laid out contiguously.
fn tex_bytes(format_code: u32, depth: u16, payloads: &[Vec<u8>], sizes: &[u32]) -> Vec<u8> {
    let n = payloads.len();
    let mut out = header_bytes_old_layout(1, 4, 4, depth, n as u8, 1, format_code);
    for (i, _) in payloads.iter().enumerate() {
        let mut e = mip_entry_bytes(0, 0, sizes[i]);
        out.append(&mut e);
    }
    let mut offset: u32 = 0;
    for p in payloads {
        let mut c = compression_info_bytes(p.len() as u32, offset);
        out.append(&mut c);
        offset += p.len() as u32;
    }
    for p in payloads {
        out.extend_from_slice(p);
    }
    out
}

/// A valid single-tile compressed payload carrying `data`, built with
/// the real entropy encoder.
fn tile_compressed_payload(data: &[u8]) -> Vec<u8> {
    assert!(data.len() < 65536 && !data.is_empty());
    let mut compressor = gdeflate::Compressor::new(gdeflate::CompressionLevel::Level6).unwrap();
    let result = compressor.compress(data, 65536).unwrap();
    assert_eq!(result.tiles.len(), 1);
    let mut out = vec![0x04, 0xFB];
    push_u16(&mut out, 1); // one tile
    push_u32(&mut out, 1 | ((data.len() as u32) << 2)); // tile size idx 1, last tile size
    push_u32(&mut out, result.tiles[0].compressed_size); // slot 0: last tile's compressed size
    out.extend_from_slice(&result.bytes);
    out
}

#[test]
fn test_is_type() {
    assert!(TexFormat::Astc10x10Typeless.is_astc());
    assert!(TexFormat::Astc4x4Typeless.is_astc());
    assert!(TexFormat::Astc6x6UnormSrgb.is_astc());

    assert!(TexFormat::Bc1Typeless.is_bc());
    assert!(TexFormat::Bc3Typeless.is_bc());
    assert!(TexFormat::Bc7Unorm.is_bc());

    assert!(TexFormat::R8G8B8G8Unorm.is_rgb());
    assert!(TexFormat::R16G16B16A16Sint.is_rgb());
    assert!(TexFormat::R16G16B16A16Snorm.is_rgb());
}

#[test]
fn test_format_catalog_lookup() {
    assert_eq!(TexFormat::from_repr(0x62), Some(TexFormat::Bc7Unorm));
    assert_eq!(TexFormat::from_repr(0x41), Some(TexFormat::A8Unorm));
    assert_eq!(TexFormat::from_repr(0x402), Some(TexFormat::Astc4x4Unorm));
    assert_eq!(TexFormat::from_repr(0x9999), None);
    assert_eq!(TexFormat::Bc7Unorm.code(), 0x62);
    assert_eq!(TexFormat::from_repr(TexFormat::R32Float.code()), Some(TexFormat::R32Float));
}

#[test]
fn test_bad_magic_is_not_tex_file() {
    let mut bytes = header_bytes_old_layout(1, 4, 4, 0, 0, 0, 0x62);
    bytes[0] = 0x58;
    assert!(matches!(TexHeader::from_reader(&bytes), Err(Error::NotTexFile)));
    assert!(matches!(Tex::from_reader(&bytes), Err(Error::NotTexFile)));
}

#[test]
fn test_unknown_format_code_rejected() {
    let bytes = header_bytes_old_layout(1, 4, 4, 0, 0, 0, 0x9999);
    assert!(matches!(
        TexHeader::from_reader(&bytes),
        Err(Error::UnsupportedTexFormat(0x9999))
    ));
    assert!(matches!(
        Tex::from_reader(&bytes),
        Err(Error::UnsupportedTexFormat(0x9999))
    ));
}

#[test]
fn test_truncated_input_rejected() {
    let bytes = header_bytes_old_layout(1, 4, 4, 0, 0, 0, 0x62);
    assert!(matches!(TexHeader::from_reader(&bytes[..10]), Err(Error::Truncated)));
    assert!(matches!(TexHeader::from_reader(&[]), Err(Error::Truncated)));
}

#[test]
fn test_swizzle_control_rejected() {
    let mut bytes = header_bytes_old_layout(1, 4, 4, 0, 0, 0, 0x62);
    bytes[20] = 1; // swizzle control word = 1
    assert!(matches!(TexHeader::from_reader(&bytes), Err(Error::Unimplemented)));
}

#[test]
fn test_version_selects_count_branch() {
    // magic 54 45 58 00, version 12: the (tex_count, mipmap_header_size)
    // branch is taken, and the mip count is derived from the table size.
    let mut bytes = vec![0x54, 0x45, 0x58, 0x00];
    push_u32(&mut bytes, 12);
    push_u16(&mut bytes, 16);
    push_u16(&mut bytes, 16);
    push_u16(&mut bytes, 0);
    bytes.push(2); // tex_count in this branch
    bytes.push(32); // mipmap_header_size: two 16-byte entries
    push_u32(&mut bytes, 0x62);
    push_u32(&mut bytes, 0);
    push_u32(&mut bytes, 0);
    bytes.extend_from_slice(&[0, 0, 0, 0]);
    let (header, consumed) = TexHeader::from_reader(&bytes).unwrap();
    assert_eq!(consumed, 32);
    assert_eq!(header.tex_count, 2);
    assert_eq!(header.mipmap_header_size, 32);
    assert_eq!(header.mipmap_count, 2);
}

#[test]
fn test_old_version_counts_read_directly() {
    let bytes = header_bytes_old_layout(1, 4, 4, 0, 3, 2, 0x62);
    let (header, consumed) = TexHeader::from_reader(&bytes).unwrap();
    assert_eq!(consumed, 32);
    assert_eq!(header.mipmap_count, 3);
    assert_eq!(header.tex_count, 2);
}

#[test]
fn test_header_round_trip() {
    let bytes = header_bytes_old_layout(1, 8, 16, 2, 1, 1, 0x62);
    let (header, consumed) = TexHeader::from_reader(&bytes).unwrap();
    let rewritten = header.as_bytes();
    assert_eq!(rewritten, bytes[..consumed].to_vec());
}

#[test]
fn test_header_round_trip_swizzle_layout() {
    // version 28 appends four swizzle-related fields (8 more bytes)
    let mut bytes = vec![0x54, 0x45, 0x58, 0x00];
    push_u32(&mut bytes, 28);
    push_u16(&mut bytes, 16);
    push_u16(&mut bytes, 16);
    push_u16(&mut bytes, 0);
    bytes.push(1);
    bytes.push(16);
    push_u32(&mut bytes, 0x62);
    push_u32(&mut bytes, 0);
    push_u32(&mut bytes, 0);
    bytes.extend_from_slice(&[0, 0, 0, 0]);
    bytes.extend_from_slice(&[3, 4]); // swizzle height/depth, width
    push_u16(&mut bytes, 0);
    push_u16(&mut bytes, 7);
    push_u16(&mut bytes, 1);
    let (header, consumed) = TexHeader::from_reader(&bytes).unwrap();
    assert_eq!(consumed, 40);
    assert_eq!(header.swizzle_height_depth, 3);
    assert_eq!(header.swizzle_width, 4);
    assert_eq!(header.as_bytes(), bytes);
}

#[test]
fn test_tex_parse_and_round_trip() {
    let payload = vec![9u8, 8, 7, 6];
    let bytes = tex_bytes(0x62, 0, &[payload.clone()], &[4]);
    let tex = Tex::from_reader(&bytes).unwrap();
    assert_eq!(tex.header().mipmap_count, 1);
    assert_eq!(tex.mip_datas().len(), 1);
    assert_eq!(tex.mip_datas()[0].texture_data, payload);
    assert!(!tex.mip_datas()[0].is_compressed());
    assert_eq!(tex.as_bytes(), bytes);
}

#[test]
fn test_tex_mip_size_mismatch_rejected() {
    // entry declares 5 logical bytes but the blob slice holds 4
    let bytes = tex_bytes(0x62, 0, &[vec![9u8, 8, 7, 6]], &[5]);
    assert!(matches!(Tex::from_reader(&bytes), Err(Error::Internal)));
}

#[test]
fn test_tex_slice_out_of_range_rejected() {
    let mut bytes = tex_bytes(0x62, 0, &[vec![9u8, 8, 7, 6]], &[4]);
    // grow the declared compressed size past the end of the blob
    bytes[32 + 16] = 200;
    assert!(matches!(Tex::from_reader(&bytes), Err(Error::Internal)));
}

#[test]
fn test_depth_scales_expected_mip_size() {
    // depth 2 at mip level 0 doubles the expected logical length
    let payload = vec![1u8; 8];
    let bytes = tex_bytes(0x62, 2, &[payload], &[4]);
    let tex = Tex::from_reader(&bytes).unwrap();
    assert_eq!(tex.mip_datas()[0].texture_data.len(), 8);
}

#[test]
fn test_tile_stream_parse_and_size() {
    // tile header 04 FB, one tile, flags packing last_tile_size = 100
    let mut bytes = vec![0x04, 0xFB];
    push_u16(&mut bytes, 1);
    push_u32(&mut bytes, 1 | (100 << 2));
    let ts = TileStream::from(&bytes).unwrap();
    assert!(ts.is_valid());
    assert_eq!(ts.num_tiles, 1);
    assert_eq!(ts.tile_size_idx, 1);
    assert_eq!(ts.last_tile_size, 100);
    assert_eq!(ts.get_uncompressed_size(), 65536 - (65536 - 100));
    assert_eq!(ts.get_uncompressed_size(), 100);
}

#[test]
fn test_tile_stream_new() {
    let ts = TileStream::new(100);
    assert!(ts.is_valid());
    assert_eq!(ts.num_tiles, 1);
    assert_eq!(ts.last_tile_size, 100);
    assert_eq!(ts.get_uncompressed_size(), 100);
    let full = TileStream::new(65536);
    assert_eq!(full.num_tiles, 1);
    assert_eq!(full.last_tile_size, 0);
    assert_eq!(full.get_uncompressed_size(), 65536);
    let two = TileStream::new(65536 + 5);
    assert_eq!(two.num_tiles, 2);
    assert_eq!(two.last_tile_size, 5);
    assert_eq!(two.get_uncompressed_size(), 65536 + 5);
}

#[test]
fn test_tile_header_self_check_rejected() {
    let mut decompressor = GDfDecompressor::new().unwrap();
    // id does not match magic xor 0xFF
    let mut bytes = vec![0x04, 0xFA];
    push_u16(&mut bytes, 1);
    push_u32(&mut bytes, 1 | (100 << 2));
    push_u32(&mut bytes, 4);
    bytes.extend_from_slice(&[0, 0, 0, 0]);
    assert!(matches!(
        decompressor.decompress(&bytes),
        Err(DecompressionError::BadData)
    ));
    // id is not the fixed marker
    let mut bytes = vec![0x05, 0xFA];
    push_u16(&mut bytes, 1);
    push_u32(&mut bytes, 1 | (100 << 2));
    push_u32(&mut bytes, 4);
    bytes.extend_from_slice(&[0, 0, 0, 0]);
    assert!(matches!(
        decompressor.decompress(&bytes),
        Err(DecompressionError::BadData)
    ));
    // too short for a framing header
    assert!(matches!(
        decompressor.decompress(&[0x04]),
        Err(DecompressionError::BadData)
    ));
}

#[test]
fn test_decompress_round_trip() {
    let data: Vec<u8> = (0..100u32).map(|i| (i * 7 % 251) as u8).collect();
    let payload = tile_compressed_payload(&data);
    let mut decompressor = GDfDecompressor::new().unwrap();
    let out = decompressor.decompress(&payload).unwrap();
    assert_eq!(out.len(), 100);
    assert_eq!(out, data);
}

#[test]
fn test_decompress_mipmap() {
    let data: Vec<u8> = (0..300u32).map(|i| (i % 251) as u8).collect();
    let payload = tile_compressed_payload(&data);
    let out = Tex::decompress_mipmap(&payload).unwrap();
    assert_eq!(out, data);
}

#[test]
fn test_mip_data_sniffs_tile_markers() {
    let entry = tex_codec::tex::MipEntry {
        offset: 0,
        scanline_length: 0,
        uncompressed_size: 2,
    };
    let info = tex_codec::tex::CompressionInfo {
        compressed_size: 2,
        compressed_offset: 0,
    };
    let compressed = MipData::new(entry, info, vec![0x04, 0xFB, 0, 0]);
    assert!(compressed.is_compressed());
    let raw = MipData::new(entry, info, vec![0x04, 0xFA, 0, 0]);
    assert!(!raw.is_compressed());
    let short = MipData::new(entry, info, vec![0x04]);
    assert!(!short.is_compressed());
}

#[test]
fn test_batch_decompress_recomputes_offsets() {
    // one tile-compressed mip followed by one raw mip
    let data: Vec<u8> = (0..100u32).map(|i| (i * 3 % 251) as u8).collect();
    let compressed = tile_compressed_payload(&data);
    let raw = vec![5u8, 6, 7, 8];
    let bytes = tex_bytes(0x62, 0, &[compressed, raw.clone()], &[100, 4]);
    let mut tex = Tex::from_reader(&bytes).unwrap();
    assert!(tex.mip_datas()[0].is_compressed());
    assert!(!tex.mip_datas()[1].is_compressed());

    tex.batch_decompress().unwrap();
    let mips = tex.mip_datas();
    assert!(!mips[0].is_compressed());
    assert_eq!(mips[0].texture_data, data);
    assert_eq!(mips[0].compression_info.compressed_size, 100);
    assert_eq!(mips[0].compression_info.compressed_offset, 0);
    assert_eq!(mips[1].texture_data, raw);
    assert_eq!(mips[1].compression_info.compressed_size, 4);
    assert_eq!(mips[1].compression_info.compressed_offset, 100);
}

#[test]
fn test_parse_validates_compressed_mip_length() {
    // the framing header declares 100 logical bytes but the entry expects 99
    let data: Vec<u8> = (0..100u32).map(|i| (i % 251) as u8).collect();
    let compressed = tile_compressed_payload(&data);
    let bytes = tex_bytes(0x62, 0, &[compressed], &[99]);
    assert!(matches!(Tex::from_reader(&bytes), Err(Error::Internal)));
}

#[test]
fn test_parse_rejects_malformed_compressed_mip() {
    // tile markers present, but the self-checking pair is broken
    let mut payload = vec![0x04, 0xFB];
    push_u16(&mut payload, 1);
    push_u32(&mut payload, 1 | (100 << 2));
    push_u32(&mut payload, 1000); // slot 0: compressed size past the payload end
    payload.extend_from_slice(&[0, 0, 0, 0]);
    let bytes = tex_bytes(0x62, 0, &[payload], &[100]);
    assert!(matches!(
        Tex::from_reader(&bytes),
        Err(Error::GDeflate(DecompressionError::BadData))
    ));
}

#[test]
fn test_to_dds() {
    // a single 4x4 block-compressed mip: 16 bytes
    let payload: Vec<u8> = (0..16u8).collect();
    let bytes = tex_bytes(0x62, 0, &[payload.clone()], &[16]);
    let tex = Tex::from_reader(&bytes).unwrap();
    let dds = tex.to_dds(1).unwrap();
    assert_eq!(dds.data, payload);
    assert_eq!(dds.get_width(), 4);
    assert_eq!(dds.get_height(), 4);
    assert_eq!(dds.get_dxgi_format(), Some(ddsfile::DxgiFormat::BC7_UNorm));
    assert_eq!(dds.get_num_mipmap_levels(), 1);
    assert!(matches!(tex.to_dds(2), Err(Error::Internal)));
}

#[test]
fn test_to_dds_unsupported_dxgi_format() {
    // an adaptive-block format: in the catalog, but not a DXGI code
    let payload = vec![0u8; 16];
    let bytes = tex_bytes(0x402, 0, &[payload], &[16]);
    let tex = Tex::from_reader(&bytes).unwrap();
    assert!(matches!(tex.to_dds(1), Err(Error::UnsupportedTexFormat(0x402))));
}

#[test]
fn test_dds_pixel_data_concatenates() {
    let a = vec![1u8, 2, 3, 4];
    let b = vec![5u8, 6, 7, 8];
    let bytes = tex_bytes(0x62, 0, &[a.clone(), b.clone()], &[4, 4]);
    let tex = Tex::from_reader(&bytes).unwrap();
    let pixels = tex.dds_pixel_data(2).unwrap();
    assert_eq!(pixels, [a, b].concat());
    let first = tex.dds_pixel_data(1).unwrap();
    assert_eq!(first, vec![1u8, 2, 3, 4]);
}

#[test]
fn test_mip_entry_record_round_trip() {
    let raw: Vec<u8> = (100..116u8).collect();
    let entry = tex_codec::tex::MipEntry::from_reader(&raw).unwrap();
    assert_eq!(entry.as_bytes(), raw);
    assert!(matches!(
        tex_codec::tex::MipEntry::from_reader(&raw[..10]),
        Err(Error::Truncated)
    ));
}

#[test]
fn test_compression_info_record_round_trip() {
    let raw = vec![1u8, 0, 0, 0, 16, 0, 0, 0];
    let info = tex_codec::tex::CompressionInfo::from_reader(&raw).unwrap();
    assert_eq!(info.compressed_size, 1);
    assert_eq!(info.compressed_offset, 16);
    assert_eq!(info.as_bytes(), raw);
}

#[test]
fn test_decompress_two_tiles() {
    // more than one full tile: the offset table carries the second
    // tile's offset in slot 1 and the last tile's size in slot 0
    let data: Vec<u8> = (0..65536 + 50u32).map(|i| (i * 13 % 251) as u8).collect();
    let mut compressor = gdeflate::Compressor::new(gdeflate::CompressionLevel::Level6).unwrap();
    let result = compressor.compress(&data, 65536).unwrap();
    assert_eq!(result.tiles.len(), 2);
    let mut payload = vec![0x04, 0xFB];
    payload.extend_from_slice(&2u16.to_le_bytes());
    payload.extend_from_slice(&(1u32 | (50 << 2)).to_le_bytes());
    payload.extend_from_slice(&result.tiles[1].compressed_size.to_le_bytes());
    payload.extend_from_slice(&result.tiles[0].compressed_size.to_le_bytes());
    payload.extend_from_slice(&result.bytes);
    let mut decompressor = GDfDecompressor::new().unwrap();
    let out = decompressor.decompress(&payload).unwrap();
    assert_eq!(out.len(), 2 * 65536 - (65536 - 50));
    assert_eq!(out, data);
}

#[test]
fn test_exempt_version_uses_old_layout() {
    // the exempt version is above both thresholds yet keeps the plain
    // (mipmap_count, tex_count) pair and the short header
    let bytes = header_bytes_old_layout(190820018, 4, 4, 0, 3, 2, 0x62);
    let (header, consumed) = TexHeader::from_reader(&bytes).unwrap();
    assert_eq!(consumed, 32);
    assert_eq!(header.mipmap_count, 3);
    assert_eq!(header.tex_count, 2);
    assert_eq!(header.as_bytes(), bytes);
}

#[test]
fn test_empty_container() {
    // zero mips: tables are empty and the round trip still holds
    let bytes = header_bytes_old_layout(1, 4, 4, 0, 0, 1, 0x62);
    let tex = Tex::from_reader(&bytes).unwrap();
    assert_eq!(tex.mip_datas().len(), 0);
    assert_eq!(tex.as_bytes(), bytes);
}

#[test]
fn test_to_dds_large_block_texture() {
    // a 16384 x 16384 block-compressed header with zero depth builds:
    // the overflow guard follows the builder's real pitch arithmetic
    let mut bytes = header_bytes_old_layout(1, 0, 0, 0, 1, 1, 0x62);
    bytes[8] = 0;
    bytes[9] = 0x40; // width 16384
    bytes[10] = 0;
    bytes[11] = 0x40; // height 16384
    let payload: Vec<u8> = vec![7u8; 16];
    let mut e = mip_entry_bytes(0, 0, 16);
    bytes.append(&mut e);
    let mut c = compression_info_bytes(16, 0);
    bytes.append(&mut c);
    bytes.extend_from_slice(&payload);
    let tex = Tex::from_reader(&bytes).unwrap();
    let dds = tex.to_dds(1).unwrap();
    assert_eq!(dds.get_width(), 16384);
    assert_eq!(dds.data, payload);
}

#[test]
fn test_to_dds_overflowing_dimensions_rejected() {
    // 65535 x 65535 block-compressed: the builder's own row-pitch
    // product would overflow its 32-bit arithmetic
    let mut bytes = header_bytes_old_layout(1, 0xFFFF, 0xFFFF, 1, 1, 1, 0x62);
    let payload: Vec<u8> = vec![7u8; 16];
    let mut e = mip_entry_bytes(0, 0, 16);
    bytes.append(&mut e);
    let mut c = compression_info_bytes(16, 0);
    bytes.append(&mut c);
    bytes.extend_from_slice(&payload);
    let tex = Tex::from_reader(&bytes).unwrap();
    assert!(matches!(tex.to_dds(1), Err(Error::Internal)));
}
