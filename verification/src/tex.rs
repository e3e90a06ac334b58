//! The top-level TEX container: the version-conditional header, the
//! fixed-width per-mip record tables, and the parse / validate /
//! serialize pipeline whose output is byte-identical to its input.

use crate::error::{DecompressionError, Error};
use crate::format::TexFormat;
use crate::gdf::GDfDecompressor;
use crate::rw::{read_u16_le, read_u32_le, read_u64_le, read_u8, write_u16_le, write_u32_le,
    write_u64_le, write_u8};
use vstd::bytes::{spec_u16_from_le_bytes, spec_u16_to_le_bytes, spec_u32_from_le_bytes,
    spec_u32_to_le_bytes, spec_u64_from_le_bytes, spec_u64_to_le_bytes,
    lemma_auto_spec_u16_to_from_le_bytes, lemma_auto_spec_u32_to_from_le_bytes,
    lemma_auto_spec_u64_to_from_le_bytes};
use vstd::prelude::*;
use vstd::slice::{slice_subrange, slice_to_vec};

verus! {

/// The four magic bytes that open every TEX container.
pub open spec fn spec_magic_seq() -> Seq<u8> {
    seq![0x54u8, 0x45u8, 0x58u8, 0x00u8]
}

/// Versions above this one (other than the exempt version) store the
/// texture count and the mip-table size instead of two plain counts.
pub const NEW_LAYOUT_VERSION: u32 = 11;

/// Versions above this one (other than the exempt version) append four
/// swizzle-related fields to the header.
pub const SWIZZLE_LAYOUT_VERSION: u32 = 27;

/// The one version that is exempt from both layout extensions.
pub const EXEMPT_VERSION: u32 = 190820018;

/// Whether `version` uses the (tex_count, mipmap_header_size) pair.
pub open spec fn spec_new_layout(version: u32) -> bool {
    version > NEW_LAYOUT_VERSION && version != EXEMPT_VERSION
}

/// Whether `version` appends the swizzle fields.
pub open spec fn spec_swizzle_layout(version: u32) -> bool {
    version > SWIZZLE_LAYOUT_VERSION && version != EXEMPT_VERSION
}

/// The header's byte length, fully determined by its version.
pub open spec fn spec_header_len(version: u32) -> int {
    if spec_swizzle_layout(version) {
        40int
    } else {
        32int
    }
}

/// The parsed top-level header. Which optional fields are populated is
/// determined by `version` alone, so serializing reproduces exactly
/// the field set that was parsed.
#[derive(Debug, Clone)]
pub struct TexHeader {
    pub version: u32,
    pub width: u16,
    pub height: u16,
    pub depth: u16,
    pub mipmap_count: u8,
    pub tex_count: u8,
    pub mipmap_header_size: u8,
    pub format: TexFormat,
    /// A signed control word in the file; value 1 declares a swizzled
    /// layout, which this codec rejects.
    pub swizzle_control: u32,
    pub cubemap_marker: u32,
    pub unkn04: u8,
    pub unkn05: u8,
    pub null0: u16,
    pub swizzle_height_depth: u8,
    pub swizzle_width: u8,
    pub null1: u16,
    pub seven: u16,
    pub one: u16,
}

/// The byte form of a header: the magic, the always-present fields,
/// the version-dependent count pair, and, on swizzle-capable
/// versions, the four extra swizzle fields.
pub open spec fn spec_header_bytes(h: TexHeader) -> Seq<u8> {
    spec_magic_seq() + spec_u32_to_le_bytes(h.version) + spec_u16_to_le_bytes(h.width)
        + spec_u16_to_le_bytes(h.height) + spec_u16_to_le_bytes(h.depth) + (if spec_new_layout(
        h.version,
    ) {
        seq![h.tex_count, h.mipmap_header_size]
    } else {
        seq![h.mipmap_count, h.tex_count]
    }) + spec_u32_to_le_bytes(h.format.code_spec()) + spec_u32_to_le_bytes(h.swizzle_control)
        + spec_u32_to_le_bytes(h.cubemap_marker) + seq![h.unkn04, h.unkn05] + spec_u16_to_le_bytes(
        h.null0,
    ) + (if spec_swizzle_layout(h.version) {
        seq![h.swizzle_height_depth, h.swizzle_width] + spec_u16_to_le_bytes(h.null1)
            + spec_u16_to_le_bytes(h.seven) + spec_u16_to_le_bytes(h.one)
    } else {
        Seq::<u8>::empty()
    })
}

/// The header denoted by a prefix of `s`, or the error that rejects
/// it: a truncated buffer, a wrong magic, an unknown format code, or a
/// swizzled layout. On success the second component is the number of
/// bytes the header occupies.
pub open spec fn spec_parse_header(s: Seq<u8>) -> Result<(TexHeader, int), Error> {
    if s.len() < 4 {
        Err(Error::Truncated)
    } else if s.subrange(0, 4) != spec_magic_seq() {
        Err(Error::NotTexFile)
    } else if s.len() < 16 {
        Err(Error::Truncated)
    } else {
        let version = spec_u32_from_le_bytes(s.subrange(4, 8));
        if s.len() < 20 {
            Err(Error::Truncated)
        } else {
            let format_code = spec_u32_from_le_bytes(s.subrange(16, 20));
            match TexFormat::spec_from_repr(format_code) {
                None => Err(Error::UnsupportedTexFormat(format_code)),
                Some(format) => {
                    if s.len() < 32 {
                        Err(Error::Truncated)
                    } else if spec_swizzle_layout(version) && s.len() < 40 {
                        Err(Error::Truncated)
                    } else {
                        let swizzle_control = spec_u32_from_le_bytes(s.subrange(20, 24));
                        if swizzle_control == 1 {
                            Err(Error::Unimplemented)
                        } else {
                            Ok((spec_header_value(s, version, format), spec_header_len(version)))
                        }
                    }
                },
            }
        }
    }
}

/// The header value assembled from an adequately long buffer, a
/// version and a resolved format.
pub open spec fn spec_header_value(s: Seq<u8>, version: u32, format: TexFormat) -> TexHeader {
    TexHeader {
        version,
        width: spec_u16_from_le_bytes(s.subrange(8, 10)),
        height: spec_u16_from_le_bytes(s.subrange(10, 12)),
        depth: spec_u16_from_le_bytes(s.subrange(12, 14)),
        mipmap_count: if spec_new_layout(version) {
            s[15] / 16
        } else {
            s[14]
        },
        tex_count: if spec_new_layout(version) {
            s[14]
        } else {
            s[15]
        },
        mipmap_header_size: if spec_new_layout(version) {
            s[15]
        } else {
            0
        },
        format,
        swizzle_control: spec_u32_from_le_bytes(s.subrange(20, 24)),
        cubemap_marker: spec_u32_from_le_bytes(s.subrange(24, 28)),
        unkn04: s[28],
        unkn05: s[29],
        null0: spec_u16_from_le_bytes(s.subrange(30, 32)),
        swizzle_height_depth: if spec_swizzle_layout(version) {
            s[32]
        } else {
            0
        },
        swizzle_width: if spec_swizzle_layout(version) {
            s[33]
        } else {
            0
        },
        null1: if spec_swizzle_layout(version) {
            spec_u16_from_le_bytes(s.subrange(34, 36))
        } else {
            0
        },
        seven: if spec_swizzle_layout(version) {
            spec_u16_from_le_bytes(s.subrange(36, 38))
        } else {
            0
        },
        one: if spec_swizzle_layout(version) {
            spec_u16_from_le_bytes(s.subrange(38, 40))
        } else {
            0
        },
    }
}

/// Law: a header whose first four bytes differ from the magic is
/// always rejected as not a TEX file, before any other field is read.
pub proof fn lemma_bad_magic_rejected(s: Seq<u8>)
    requires
        s.len() >= 4,
        s.subrange(0, 4) != spec_magic_seq(),
    ensures
        spec_parse_header(s) == Err::<(TexHeader, int), Error>(Error::NotTexFile),
{
}

/// Law: a format code that the catalog does not list is always
/// rejected as unsupported, carrying the offending code.
pub proof fn lemma_unknown_format_rejected(s: Seq<u8>)
    requires
        s.len() >= 20,
        s.subrange(0, 4) == spec_magic_seq(),
        TexFormat::spec_from_repr(spec_u32_from_le_bytes(s.subrange(16, 20))) is None,
    ensures
        spec_parse_header(s) == Err::<(TexHeader, int), Error>(
            Error::UnsupportedTexFormat(spec_u32_from_le_bytes(s.subrange(16, 20))),
        ),
{
}

/// Law: parsing a header and serializing it again reproduces exactly
/// the bytes the header was parsed from.
pub proof fn lemma_header_round_trip(s: Seq<u8>, h: TexHeader, n: int)
    requires
        spec_parse_header(s) == Ok::<(TexHeader, int), Error>((h, n)),
    ensures
        n == spec_header_len(h.version),
        spec_header_bytes(h) == s.subrange(0, n),
{
    lemma_auto_spec_u16_to_from_le_bytes();
    lemma_auto_spec_u32_to_from_le_bytes();
    let version = spec_u32_from_le_bytes(s.subrange(4, 8));
    let format_code = spec_u32_from_le_bytes(s.subrange(16, 20));
    TexFormat::lemma_from_repr_code(format_code);
    assert(spec_header_bytes(h) =~= s.subrange(0, n));
}

impl TexHeader {
    /// Parses a header from the start of `bytes`; on success also
    /// returns how many bytes it occupied.
    pub fn from_reader(bytes: &[u8]) -> (r: Result<(TexHeader, usize), Error>)
        ensures
            r matches Ok(hn) ==> spec_parse_header(bytes@) == Ok::<(TexHeader, int), Error>(
                (hn.0, hn.1 as int),
            ) && hn.1 <= bytes@.len(),
            r matches Err(e) ==> spec_parse_header(bytes@) == Err::<(TexHeader, int), Error>(e),
    {
        if bytes.len() < 4 {
            return Err(Error::Truncated);
        }
        let m0 = read_u8(bytes, 0);
        let m1 = read_u8(bytes, 1);
        let m2 = read_u8(bytes, 2);
        let m3 = read_u8(bytes, 3);
        if !(m0 == 0x54 && m1 == 0x45 && m2 == 0x58 && m3 == 0x00) {
            proof {
                assert(bytes@.subrange(0, 4) != spec_magic_seq());
            }
            return Err(Error::NotTexFile);
        }
        proof {
            assert(bytes@.subrange(0, 4) =~= spec_magic_seq());
        }
        if bytes.len() < 16 {
            return Err(Error::Truncated);
        }
        let version = read_u32_le(bytes, 4);
        let width = read_u16_le(bytes, 8);
        let height = read_u16_le(bytes, 10);
        let depth = read_u16_le(bytes, 12);
        let b0 = read_u8(bytes, 14);
        let b1 = read_u8(bytes, 15);
        if bytes.len() < 20 {
            return Err(Error::Truncated);
        }
        let format_code = read_u32_le(bytes, 16);
        let format = match TexFormat::from_repr(format_code) {
            Some(f) => f,
            None => {
                return Err(Error::UnsupportedTexFormat(format_code));
            },
        };
        if bytes.len() < 32 {
            return Err(Error::Truncated);
        }
        let new_layout = version > NEW_LAYOUT_VERSION && version != EXEMPT_VERSION;
        let swizzle_layout = version > SWIZZLE_LAYOUT_VERSION && version != EXEMPT_VERSION;
        if swizzle_layout && bytes.len() < 40 {
            return Err(Error::Truncated);
        }
        let swizzle_control = read_u32_le(bytes, 20);
        if swizzle_control == 1 {
            return Err(Error::Unimplemented);
        }
        let header = TexHeader {
            version,
            width,
            height,
            depth,
            mipmap_count: if new_layout {
                b1 / 16
            } else {
                b0
            },
            tex_count: if new_layout {
                b0
            } else {
                b1
            },
            mipmap_header_size: if new_layout {
                b1
            } else {
                0
            },
            format,
            swizzle_control,
            cubemap_marker: read_u32_le(bytes, 24),
            unkn04: read_u8(bytes, 28),
            unkn05: read_u8(bytes, 29),
            null0: read_u16_le(bytes, 30),
            swizzle_height_depth: if swizzle_layout {
                read_u8(bytes, 32)
            } else {
                0
            },
            swizzle_width: if swizzle_layout {
                read_u8(bytes, 33)
            } else {
                0
            },
            null1: if swizzle_layout {
                read_u16_le(bytes, 34)
            } else {
                0
            },
            seven: if swizzle_layout {
                read_u16_le(bytes, 36)
            } else {
                0
            },
            one: if swizzle_layout {
                read_u16_le(bytes, 38)
            } else {
                0
            },
        };
        let hlen: usize = if swizzle_layout {
            40
        } else {
            32
        };
        Ok((header, hlen))
    }

    /// Serializes the header; the `version` field alone decides which
    /// optional fields are written.
    pub fn as_bytes(&self) -> (r: Vec<u8>)
        ensures
            r@ == spec_header_bytes(*self),
    {
        let mut out: Vec<u8> = Vec::new();
        write_u8(&mut out, 0x54);
        write_u8(&mut out, 0x45);
        write_u8(&mut out, 0x58);
        write_u8(&mut out, 0x00);
        write_u32_le(&mut out, self.version);
        write_u16_le(&mut out, self.width);
        write_u16_le(&mut out, self.height);
        write_u16_le(&mut out, self.depth);
        let new_layout = self.version > NEW_LAYOUT_VERSION && self.version != EXEMPT_VERSION;
        let swizzle_layout = self.version > SWIZZLE_LAYOUT_VERSION && self.version
            != EXEMPT_VERSION;
        if new_layout {
            write_u8(&mut out, self.tex_count);
            write_u8(&mut out, self.mipmap_header_size);
        } else {
            write_u8(&mut out, self.mipmap_count);
            write_u8(&mut out, self.tex_count);
        }
        write_u32_le(&mut out, self.format.code());
        write_u32_le(&mut out, self.swizzle_control);
        write_u32_le(&mut out, self.cubemap_marker);
        write_u8(&mut out, self.unkn04);
        write_u8(&mut out, self.unkn05);
        write_u16_le(&mut out, self.null0);
        if swizzle_layout {
            write_u8(&mut out, self.swizzle_height_depth);
            write_u8(&mut out, self.swizzle_width);
            write_u16_le(&mut out, self.null1);
            write_u16_le(&mut out, self.seven);
            write_u16_le(&mut out, self.one);
        }
        proof {
            assert(out@ =~= spec_header_bytes(*self));
        }
        out
    }
}

/// One mip level's logical layout: a 16-byte little-endian record.
#[derive(Debug, Clone, Copy, PartialEq, Eq, Structural)]
pub struct MipEntry {
    /// Logical offset; informational, never used for slicing.
    pub offset: u64,
    pub scanline_length: u32,
    pub uncompressed_size: u32,
}

/// The byte form of a `MipEntry`.
pub open spec fn spec_mip_entry_bytes(e: MipEntry) -> Seq<u8> {
    spec_u64_to_le_bytes(e.offset) + spec_u32_to_le_bytes(e.scanline_length)
        + spec_u32_to_le_bytes(e.uncompressed_size)
}

/// The `MipEntry` denoted by a 16-byte buffer.
pub open spec fn spec_parse_mip_entry(s: Seq<u8>) -> MipEntry
    recommends
        s.len() == 16,
{
    MipEntry {
        offset: spec_u64_from_le_bytes(s.subrange(0, 8)),
        scanline_length: spec_u32_from_le_bytes(s.subrange(8, 12)),
        uncompressed_size: spec_u32_from_le_bytes(s.subrange(12, 16)),
    }
}

/// Law: serializing the `MipEntry` parsed from any 16 bytes gives
/// those bytes back.
pub proof fn lemma_mip_entry_round_trip(s: Seq<u8>)
    requires
        s.len() == 16,
    ensures
        spec_mip_entry_bytes(spec_parse_mip_entry(s)) == s,
{
    lemma_auto_spec_u32_to_from_le_bytes();
    lemma_auto_spec_u64_to_from_le_bytes();
    assert(spec_mip_entry_bytes(spec_parse_mip_entry(s)) =~= s);
}

impl MipEntry {
    /// Parses a record from the first 16 bytes of `bytes`.
    pub fn from_reader(bytes: &[u8]) -> (r: Result<MipEntry, Error>)
        ensures
            r is Ok <==> bytes@.len() >= 16,
            r matches Ok(e) ==> e == spec_parse_mip_entry(bytes@.subrange(0, 16)),
            r matches Err(e) ==> e == Error::Truncated,
    {
        if bytes.len() < 16 {
            return Err(Error::Truncated);
        }
        proof {
            assert(bytes@.subrange(0, 16).subrange(0, 8) =~= bytes@.subrange(0, 8));
            assert(bytes@.subrange(0, 16).subrange(8, 12) =~= bytes@.subrange(8, 12));
            assert(bytes@.subrange(0, 16).subrange(12, 16) =~= bytes@.subrange(12, 16));
        }
        Ok(
            MipEntry {
                offset: read_u64_le(bytes, 0),
                scanline_length: read_u32_le(bytes, 8),
                uncompressed_size: read_u32_le(bytes, 12),
            },
        )
    }

    /// Serializes the record to its 16-byte form.
    pub fn as_bytes(&self) -> (r: Vec<u8>)
        ensures
            r@ == spec_mip_entry_bytes(*self),
            r@.len() == 16,
    {
        let mut out: Vec<u8> = Vec::new();
        write_u64_le(&mut out, self.offset);
        write_u32_le(&mut out, self.scanline_length);
        write_u32_le(&mut out, self.uncompressed_size);
        proof {
            lemma_auto_spec_u32_to_from_le_bytes();
            lemma_auto_spec_u64_to_from_le_bytes();
            assert(out@ =~= spec_mip_entry_bytes(*self));
        }
        out
    }
}

/// One mip level's physical location inside the trailing data blob:
/// an 8-byte little-endian record.
#[derive(Debug, Clone, Copy, PartialEq, Eq, Structural)]
pub struct CompressionInfo {
    pub compressed_size: u32,
    /// Byte offset into the data blob, relative to the blob's start.
    pub compressed_offset: u32,
}

/// The byte form of a `CompressionInfo`.
pub open spec fn spec_compression_info_bytes(c: CompressionInfo) -> Seq<u8> {
    spec_u32_to_le_bytes(c.compressed_size) + spec_u32_to_le_bytes(c.compressed_offset)
}

/// The `CompressionInfo` denoted by an 8-byte buffer.
pub open spec fn spec_parse_compression_info(s: Seq<u8>) -> CompressionInfo
    recommends
        s.len() == 8,
{
    CompressionInfo {
        compressed_size: spec_u32_from_le_bytes(s.subrange(0, 4)),
        compressed_offset: spec_u32_from_le_bytes(s.subrange(4, 8)),
    }
}

/// Law: serializing the `CompressionInfo` parsed from any 8 bytes
/// gives those bytes back.
pub proof fn lemma_compression_info_round_trip(s: Seq<u8>)
    requires
        s.len() == 8,
    ensures
        spec_compression_info_bytes(spec_parse_compression_info(s)) == s,
{
    lemma_auto_spec_u32_to_from_le_bytes();
    assert(spec_compression_info_bytes(spec_parse_compression_info(s)) =~= s);
}

impl CompressionInfo {
    /// Parses a record from the first 8 bytes of `bytes`.
    pub fn from_reader(bytes: &[u8]) -> (r: Result<CompressionInfo, Error>)
        ensures
            r is Ok <==> bytes@.len() >= 8,
            r matches Ok(c) ==> c == spec_parse_compression_info(bytes@.subrange(0, 8)),
            r matches Err(e) ==> e == Error::Truncated,
    {
        if bytes.len() < 8 {
            return Err(Error::Truncated);
        }
        proof {
            assert(bytes@.subrange(0, 8).subrange(0, 4) =~= bytes@.subrange(0, 4));
            assert(bytes@.subrange(0, 8).subrange(4, 8) =~= bytes@.subrange(4, 8));
        }
        Ok(
            CompressionInfo {
                compressed_size: read_u32_le(bytes, 0),
                compressed_offset: read_u32_le(bytes, 4),
            },
        )
    }

    /// Serializes the record to its 8-byte form.
    pub fn as_bytes(&self) -> (r: Vec<u8>)
        ensures
            r@ == spec_compression_info_bytes(*self),
            r@.len() == 8,
    {
        let mut out: Vec<u8> = Vec::new();
        write_u32_le(&mut out, self.compressed_size);
        write_u32_le(&mut out, self.compressed_offset);
        proof {
            lemma_auto_spec_u32_to_from_le_bytes();
            assert(out@ =~= spec_compression_info_bytes(*self));
        }
        out
    }
}

/// Whether a payload opens with the two tile-compression marker
/// bytes; compression is detected by this sniff, not by a header
/// flag.
pub open spec fn spec_is_tile_compressed(s: Seq<u8>) -> bool {
    s.len() >= 2 && s[0] == 0x04 && s[1] == 0xfb
}

/// One mip level: its two table records, its raw bytes sliced from
/// the data blob, and whether those bytes are a tile-compressed
/// payload.
#[derive(Debug, Clone)]
pub struct MipData {
    pub entry: MipEntry,
    pub compression_info: CompressionInfo,
    pub texture_data: Vec<u8>,
    pub is_gdeflate: bool,
}

impl MipData {
    /// Assembles a mip, sniffing the payload for the tile-compression
    /// markers.
    pub fn new(entry: MipEntry, compression_info: CompressionInfo, texture_data: Vec<u8>) -> (r:
        MipData)
        ensures
            r.entry == entry,
            r.compression_info == compression_info,
            r.texture_data@ == texture_data@,
            r.is_gdeflate == spec_is_tile_compressed(texture_data@),
    {
        let is_gdeflate = texture_data.len() >= 2 && *vstd::slice::slice_index_get(
            texture_data.as_slice(),
            0,
        ) == 0x04 && *vstd::slice::slice_index_get(texture_data.as_slice(), 1) == 0xfb;
        MipData { entry, compression_info, texture_data, is_gdeflate }
    }

    /// The mip's logical byte length: the framing header's declared
    /// uncompressed size for a tile-compressed payload, the raw length
    /// otherwise.
    pub open spec fn spec_logical_len(self) -> int {
        if self.is_gdeflate {
            crate::gdf::spec_parse_tile_stream(self.texture_data@).spec_uncompressed_size()
        } else {
            self.texture_data@.len() as int
        }
    }

    /// Whether the payload is tile-compressed.
    pub fn is_compressed(&self) -> (r: bool)
        ensures
            r == self.is_gdeflate,
    {
        self.is_gdeflate
    }

    /// The mip's logical bytes: decompressed through `dec` when the
    /// payload is tile-compressed, otherwise a copy of the raw bytes.
    pub fn uncompressed_data(&self, dec: &mut GDfDecompressor) -> (r: Result<Vec<u8>, Error>)
        ensures
            !self.is_gdeflate ==> (r matches Ok(d) && d@ == self.texture_data@),
            self.is_gdeflate ==> (r is Ok <==> crate::gdf::spec_tile_container_wf(
                self.texture_data@,
            )),
            r matches Ok(d) ==> d@.len() == self.spec_logical_len(),
            self.is_gdeflate ==> (r matches Ok(d) ==> d@ == crate::gdf::spec_decompressed_bytes(
                self.texture_data@,
            )),
            r matches Err(e) ==> e == Error::GDeflate(DecompressionError::BadData),
    {
        if self.is_gdeflate {
            match dec.decompress(self.texture_data.as_slice()) {
                Ok(d) => Ok(d),
                Err(e) => Err(Error::GDeflate(e)),
            }
        } else {
            Ok(slice_to_vec(self.texture_data.as_slice()))
        }
    }
}

/// How many mips the container holds in all: mip count times texture
/// count.
pub open spec fn spec_mip_count(h: TexHeader) -> int {
    h.mipmap_count as int * h.tex_count as int
}

/// Where the data blob starts, after the header and both tables.
pub open spec fn spec_data_start(hlen: int, n: int) -> int {
    hlen + 24 * n
}

/// The `i`-th record of the mip-entry table.
pub open spec fn spec_entry_at(bytes: Seq<u8>, hlen: int, i: int) -> MipEntry {
    spec_parse_mip_entry(bytes.subrange(hlen + 16 * i, hlen + 16 * i + 16))
}

/// The `i`-th record of the compression-info table.
pub open spec fn spec_info_at(bytes: Seq<u8>, hlen: int, n: int, i: int) -> CompressionInfo {
    spec_parse_compression_info(
        bytes.subrange(hlen + 16 * n + 8 * i, hlen + 16 * n + 8 * i + 8),
    )
}

/// Whether the `i`-th mip's byte range lies inside the input.
pub open spec fn spec_slice_ok(bytes: Seq<u8>, hlen: int, n: int, i: int) -> bool {
    let ci = spec_info_at(bytes, hlen, n, i);
    spec_data_start(hlen, n) + ci.compressed_offset + ci.compressed_size <= bytes.len()
}

/// The `i`-th mip's raw bytes, sliced out of the data blob.
pub open spec fn spec_mip_slice(bytes: Seq<u8>, hlen: int, n: int, i: int) -> Seq<u8> {
    let ci = spec_info_at(bytes, hlen, n, i);
    bytes.subrange(
        spec_data_start(hlen, n) + ci.compressed_offset,
        spec_data_start(hlen, n) + ci.compressed_offset + ci.compressed_size,
    )
}

/// The `i`-th mip's logical length, read off the input bytes alone.
pub open spec fn spec_slice_logical_len(bytes: Seq<u8>, hlen: int, n: int, i: int) -> int {
    let s = spec_mip_slice(bytes, hlen, n, i);
    if spec_is_tile_compressed(s) {
        crate::gdf::spec_parse_tile_stream(s).spec_uncompressed_size()
    } else {
        s.len() as int
    }
}

/// The depth factor of mip level `m`: a volume texture's depth halves
/// each level, with a floor of one slice.
pub open spec fn spec_depth_factor(depth: u16, m: int) -> int {
    let d = if 0 <= m < 16 {
        ((depth as u32) >> (m as u32)) as int
    } else {
        0int
    };
    if d < 1 {
        1int
    } else {
        d
    }
}

/// The logical length the `i`-th mip must have: its entry's size
/// scaled by the depth factor of its level within its texture.
pub open spec fn spec_expected_mip_len(h: TexHeader, e: MipEntry, m: int) -> int {
    e.uncompressed_size as int * spec_depth_factor(h.depth, m)
}

/// When parsing a whole container succeeds: the header parses, both
/// tables fit, every mip's byte range lies inside the input, every
/// tile-compressed mip is a well-formed tile container, and every
/// mip's logical length matches its entry.
pub open spec fn spec_parse_ok(bytes: Seq<u8>) -> bool {
    let hr = spec_parse_header(bytes);
    &&& hr matches Ok(hn)
    &&& {
        let h = hn.0;
        let hlen = hn.1;
        let n = spec_mip_count(h);
        &&& bytes.len() >= spec_data_start(hlen, n)
        &&& forall|i: int| 0 <= i < n ==> #[trigger] spec_slice_ok(bytes, hlen, n, i)
        &&& forall|i: int|
            0 <= i < n ==> (spec_is_tile_compressed(
                #[trigger] spec_mip_slice(bytes, hlen, n, i),
            ) ==> crate::gdf::spec_tile_container_wf(spec_mip_slice(bytes, hlen, n, i)))
        &&& forall|i: int|
            0 <= i < n ==> #[trigger] spec_slice_logical_len(bytes, hlen, n, i)
                == spec_expected_mip_len(
                h,
                spec_entry_at(bytes, hlen, i),
                i % (h.mipmap_count as int),
            )
    }
}

/// How a parsed container relates to the bytes it was parsed from:
/// the header is the parsed header, and each mip holds exactly the
/// records and the slice of the blob that the tables address.
pub open spec fn parse_rel(bytes: Seq<u8>, tex: Tex) -> bool {
    let hr = spec_parse_header(bytes);
    &&& hr matches Ok(hn)
    &&& tex.header == hn.0
    &&& {
        let hlen = hn.1;
        let n = spec_mip_count(hn.0);
        &&& bytes.len() >= spec_data_start(hlen, n)
        &&& tex.mip_datas.len() == n
        &&& forall|i: int|
            0 <= i < n ==> (#[trigger] tex.mip_datas[i]).entry == spec_entry_at(bytes, hlen, i)
        &&& forall|i: int|
            0 <= i < n ==> (#[trigger] tex.mip_datas[i]).compression_info == spec_info_at(
                bytes,
                hlen,
                n,
                i,
            )
        &&& forall|i: int| 0 <= i < n ==> #[trigger] spec_slice_ok(bytes, hlen, n, i)
        &&& forall|i: int|
            0 <= i < n ==> (#[trigger] tex.mip_datas[i]).texture_data@ == spec_mip_slice(
                bytes,
                hlen,
                n,
                i,
            )
        &&& forall|i: int|
            0 <= i < n ==> (#[trigger] tex.mip_datas[i]).is_gdeflate == spec_is_tile_compressed(
                tex.mip_datas[i].texture_data@,
            )
    }
}

/// The cross-validation invariant a parsed container satisfies: the
/// mip sequence has length mip count times texture count, and each
/// mip's logical length equals its entry's size scaled by the depth
/// factor of its level.
pub open spec fn spec_sizes_valid(tex: Tex) -> bool {
    &&& tex.mip_datas.len() == spec_mip_count(tex.header)
    &&& forall|i: int|
        0 <= i < tex.mip_datas.len() ==> (#[trigger] tex.mip_datas[i]).spec_logical_len()
            == spec_expected_mip_len(
            tex.header,
            tex.mip_datas[i].entry,
            i % (tex.header.mipmap_count as int),
        )
}

/// A whole decoded container: the header and the ordered mips,
/// texture-major.
#[derive(Debug, Clone)]
pub struct Tex {
    pub header: TexHeader,
    pub mip_datas: Vec<MipData>,
}

impl Tex {
    /// Parses a whole container: the header, both record tables, and
    /// one blob slice per mip, then cross-validates every mip's
    /// logical length. Succeeds exactly when `spec_parse_ok` holds of
    /// the input; no partially built value is ever returned.
    pub fn from_reader(bytes: &[u8]) -> (r: Result<Tex, Error>)
        ensures
            r is Ok <==> spec_parse_ok(bytes@),
            r matches Ok(tex) ==> parse_rel(bytes@, tex) && spec_sizes_valid(tex),
            spec_parse_header(bytes@) matches Err(e) ==> r == Err::<Tex, Error>(e),
            (spec_parse_header(bytes@) matches Ok(hn) && bytes@.len() < spec_data_start(
                hn.1,
                spec_mip_count(hn.0),
            )) ==> r == Err::<Tex, Error>(Error::Truncated),
            (spec_parse_header(bytes@) matches Ok(hn) && bytes@.len() >= spec_data_start(
                hn.1,
                spec_mip_count(hn.0),
            ) && (exists|i: int|
                0 <= i < spec_mip_count(hn.0) && !(#[trigger] spec_slice_ok(
                    bytes@,
                    hn.1,
                    spec_mip_count(hn.0),
                    i,
                )))) ==> r == Err::<Tex, Error>(Error::Internal),
            (spec_parse_header(bytes@) matches Ok(hn) && bytes@.len() >= spec_data_start(
                hn.1,
                spec_mip_count(hn.0),
            ) && (forall|i: int|
                0 <= i < spec_mip_count(hn.0) ==> #[trigger] spec_slice_ok(
                    bytes@,
                    hn.1,
                    spec_mip_count(hn.0),
                    i,
                )) && (forall|i: int|
                0 <= i < spec_mip_count(hn.0) ==> (spec_is_tile_compressed(
                    #[trigger] spec_mip_slice(bytes@, hn.1, spec_mip_count(hn.0), i),
                ) ==> crate::gdf::spec_tile_container_wf(
                    spec_mip_slice(bytes@, hn.1, spec_mip_count(hn.0), i),
                ))) && (exists|i: int|
                0 <= i < spec_mip_count(hn.0) && #[trigger] spec_slice_logical_len(
                    bytes@,
                    hn.1,
                    spec_mip_count(hn.0),
                    i,
                ) != spec_expected_mip_len(
                    hn.0,
                    spec_entry_at(bytes@, hn.1, i),
                    i % (hn.0.mipmap_count as int),
                ))) ==> r == Err::<Tex, Error>(Error::Internal),
            r matches Err(e) ==> ({
                let hr = spec_parse_header(bytes@);
                ||| (hr matches Err(e0) && e == e0)
                ||| (hr matches Ok(hn) && ({
                    let h = hn.0;
                    let hlen = hn.1;
                    let n = spec_mip_count(h);
                    ||| (e == Error::Truncated && bytes@.len() < spec_data_start(hlen, n))
                    ||| (e == Error::Internal && (exists|i: int|
                        0 <= i < n && !(#[trigger] spec_slice_ok(bytes@, hlen, n, i))))
                    ||| (e == Error::GDeflate(DecompressionError::BadData) && (exists|i: int|
                        0 <= i < n && spec_is_tile_compressed(
                            #[trigger] spec_mip_slice(bytes@, hlen, n, i),
                        ) && !crate::gdf::spec_tile_container_wf(
                            spec_mip_slice(bytes@, hlen, n, i),
                        )))
                    ||| (e == Error::Internal && (exists|i: int|
                        0 <= i < n && #[trigger] spec_slice_logical_len(bytes@, hlen, n, i)
                            != spec_expected_mip_len(
                            h,
                            spec_entry_at(bytes@, hlen, i),
                            i % (h.mipmap_count as int),
                        )))
                }))
            }),
    {
        let ghost s = bytes@;
        let (header, hlen) = match TexHeader::from_reader(bytes) {
            Ok(hn) => hn,
            Err(e) => {
                return Err(e);
            },
        };
        proof {
            vstd::arithmetic::mul::lemma_mul_upper_bound(
                header.mipmap_count as int,
                255,
                header.tex_count as int,
                255,
            );
            broadcast use vstd::arithmetic::mul::lemma_mul_by_zero_is_zero;
        }
        let n: usize = header.mipmap_count as usize * header.tex_count as usize;
        let len: usize = bytes.len();
        if len - hlen < 24 * n {
            return Err(Error::Truncated);
        }
        let data_start: usize = hlen + 24 * n;
        let ghost hlen_i = hlen as int;
        let ghost n_i = n as int;
        // the mip-entry table
        let mut mip_entries: Vec<MipEntry> = Vec::new();
        let mut i: usize = 0;
        while i < n
            invariant
                s == bytes@,
                s.len() == len,
                spec_parse_header(s) == Ok::<(TexHeader, int), Error>((header, hlen_i)),
                n_i == spec_mip_count(header),
                hlen_i + 24 * n_i <= len,
                i <= n,
                n_i == n,
                hlen_i == hlen,
                mip_entries@.len() == i,
                forall|j: int|
                    0 <= j < i ==> mip_entries@[j] == spec_entry_at(s, hlen_i, j),
            decreases n - i,
        {
            let sub = slice_subrange(bytes, hlen + 16 * i, hlen + 16 * i + 16);
            proof {
                assert(sub@.subrange(0, 16) =~= sub@);
            }
            let e = match MipEntry::from_reader(sub) {
                Ok(e) => e,
                Err(_) => {
                    return Err(Error::Truncated);
                },
            };
            mip_entries.push(e);
            i = i + 1;
        }
        // the compression-info table
        let mut compression_infos: Vec<CompressionInfo> = Vec::new();
        let mut i: usize = 0;
        while i < n
            invariant
                s == bytes@,
                s.len() == len,
                spec_parse_header(s) == Ok::<(TexHeader, int), Error>((header, hlen_i)),
                n_i == spec_mip_count(header),
                hlen_i + 24 * n_i <= len,
                i <= n,
                n_i == n,
                hlen_i == hlen,
                compression_infos@.len() == i,
                forall|j: int|
                    0 <= j < i ==> compression_infos@[j] == spec_info_at(s, hlen_i, n_i, j),
            decreases n - i,
        {
            let sub = slice_subrange(bytes, hlen + 16 * n + 8 * i, hlen + 16 * n + 8 * i + 8);
            proof {
                assert(sub@.subrange(0, 8) =~= sub@);
            }
            let c = match CompressionInfo::from_reader(sub) {
                Ok(c) => c,
                Err(_) => {
                    return Err(Error::Truncated);
                },
            };
            compression_infos.push(c);
            i = i + 1;
        }
        // slice the data blob per mip
        let mut mip_datas: Vec<MipData> = Vec::new();
        let mut i: usize = 0;
        while i < n
            invariant
                s == bytes@,
                s.len() == len,
                spec_parse_header(s) == Ok::<(TexHeader, int), Error>((header, hlen_i)),
                n_i == spec_mip_count(header),
                hlen_i + 24 * n_i <= len,
                i <= n,
                n_i == n,
                hlen_i == hlen,
                data_start == hlen_i + 24 * n_i,
                mip_entries@.len() == n,
                compression_infos@.len() == n,
                forall|j: int|
                    0 <= j < n ==> mip_entries@[j] == spec_entry_at(s, hlen_i, j),
                forall|j: int|
                    0 <= j < n ==> compression_infos@[j] == spec_info_at(s, hlen_i, n_i, j),
                mip_datas@.len() == i,
                forall|j: int|
                    0 <= j < i ==> (#[trigger] mip_datas@[j]).entry == spec_entry_at(
                        s,
                        hlen_i,
                        j,
                    ),
                forall|j: int|
                    0 <= j < i ==> (#[trigger] mip_datas@[j]).compression_info == spec_info_at(
                        s,
                        hlen_i,
                        n_i,
                        j,
                    ),
                forall|j: int| 0 <= j < i ==> #[trigger] spec_slice_ok(s, hlen_i, n_i, j),
                forall|j: int|
                    0 <= j < i ==> (#[trigger] mip_datas@[j]).texture_data@ == spec_mip_slice(
                        s,
                        hlen_i,
                        n_i,
                        j,
                    ),
                forall|j: int|
                    0 <= j < i ==> (#[trigger] mip_datas@[j]).is_gdeflate
                        == spec_is_tile_compressed(mip_datas@[j].texture_data@),
            decreases n - i,
        {
            let ci: CompressionInfo = compression_infos[i];
            let off: usize = ci.compressed_offset as usize;
            let size: usize = ci.compressed_size as usize;
            let blob_len: usize = len - data_start;
            if off > blob_len || size > blob_len - off {
                proof {
                    assert(!spec_slice_ok(s, hlen_i, n_i, i as int));
                    assert(spec_parse_header(bytes@) matches Ok(hn) && hn.0 == header && hn.1
                        == hlen_i);
                    assert(exists|j: int|
                        0 <= j < n_i && !(#[trigger] spec_slice_ok(bytes@, hlen_i, n_i, j)));
                }
                return Err(Error::Internal);
            }
            let sl = slice_subrange(bytes, data_start + off, data_start + off + size);
            let data = slice_to_vec(sl);
            proof {
                assert(spec_slice_ok(s, hlen_i, n_i, i as int));
                assert(data@ =~= spec_mip_slice(s, hlen_i, n_i, i as int));
            }
            let mip = MipData::new(mip_entries[i], ci, data);
            mip_datas.push(mip);
            i = i + 1;
        }
        // cross-validate every mip's logical length
        let mc: usize = header.mipmap_count as usize;
        let mut i: usize = 0;
        while i < n
            invariant
                s == bytes@,
                s.len() == len,
                spec_parse_header(s) == Ok::<(TexHeader, int), Error>((header, hlen_i)),
                n_i == spec_mip_count(header),
                hlen_i + 24 * n_i <= len,
                i <= n,
                n_i == n,
                hlen_i == hlen,
                mc == header.mipmap_count as int,
                n != 0 ==> mc >= 1,
                mip_datas@.len() == n,
                forall|j: int|
                    0 <= j < n ==> (#[trigger] mip_datas@[j]).entry == spec_entry_at(
                        s,
                        hlen_i,
                        j,
                    ),
                forall|j: int| 0 <= j < n ==> #[trigger] spec_slice_ok(s, hlen_i, n_i, j),
                forall|j: int|
                    0 <= j < n ==> (#[trigger] mip_datas@[j]).texture_data@ == spec_mip_slice(
                        s,
                        hlen_i,
                        n_i,
                        j,
                    ),
                forall|j: int|
                    0 <= j < n ==> (#[trigger] mip_datas@[j]).is_gdeflate
                        == spec_is_tile_compressed(mip_datas@[j].texture_data@),
                forall|j: int|
                    0 <= j < i ==> (spec_is_tile_compressed(
                        #[trigger] spec_mip_slice(s, hlen_i, n_i, j),
                    ) ==> crate::gdf::spec_tile_container_wf(spec_mip_slice(s, hlen_i, n_i, j))),
                forall|j: int|
                    0 <= j < i ==> #[trigger] spec_slice_logical_len(s, hlen_i, n_i, j)
                        == spec_expected_mip_len(
                        header,
                        spec_entry_at(s, hlen_i, j),
                        j % (header.mipmap_count as int),
                    ),
            decreases n - i,
        {
            let mip = &mip_datas[i];
            let ulen: u64 = if mip.is_compressed() {
                if !crate::gdf::tile_container_check(mip.texture_data.as_slice()) {
                    proof {
                        assert(spec_is_tile_compressed(spec_mip_slice(s, hlen_i, n_i, i as int)));
                        assert(!crate::gdf::spec_tile_container_wf(
                            spec_mip_slice(s, hlen_i, n_i, i as int),
                        ));
                        assert(spec_parse_header(bytes@) matches Ok(hn) && hn.0 == header && hn.1
                            == hlen_i);
                        assert(exists|j: int|
                            0 <= j < n_i && spec_is_tile_compressed(
                                #[trigger] spec_mip_slice(bytes@, hlen_i, n_i, j),
                            ) && !crate::gdf::spec_tile_container_wf(
                                spec_mip_slice(bytes@, hlen_i, n_i, j),
                            ));
                    }
                    return Err(Error::GDeflate(DecompressionError::BadData));
                }
                let ts = match crate::gdf::TileStream::from(mip.texture_data.as_slice()) {
                    Ok(ts) => ts,
                    Err(_) => {
                        return Err(Error::GDeflate(DecompressionError::BadData));
                    },
                };
                ts.get_uncompressed_size() as u64
            } else {
                mip.texture_data.len() as u64
            };
            let m: usize = i % mc;
            let shifted: u32 = if m < 16 {
                (header.depth as u32) >> (m as u32)
            } else {
                0
            };
            let dfac: u32 = if shifted < 1 {
                1
            } else {
                shifted
            };
            proof {
                vstd::arithmetic::mul::lemma_mul_upper_bound(
                    mip.entry.uncompressed_size as int,
                    0xffffffff,
                    dfac as int,
                    0xffffffff,
                );
            }
            let expected: u64 = (mip.entry.uncompressed_size as u64) * (dfac as u64);
            if ulen != expected {
                proof {
                    assert(ulen as int == spec_slice_logical_len(s, hlen_i, n_i, i as int));
                    assert(expected as int == spec_expected_mip_len(
                        header,
                        spec_entry_at(s, hlen_i, i as int),
                        (i as int) % (header.mipmap_count as int),
                    ));
                    assert(spec_parse_header(bytes@) matches Ok(hn) && hn.0 == header && hn.1
                        == hlen_i);
                    assert(exists|j: int|
                        0 <= j < n_i && #[trigger] spec_slice_logical_len(bytes@, hlen_i, n_i, j)
                            != spec_expected_mip_len(
                            header,
                            spec_entry_at(bytes@, hlen_i, j),
                            j % (header.mipmap_count as int),
                        ));
                }
                return Err(Error::Internal);
            }
            i = i + 1;
        }
        proof {
            assert forall|j: int| 0 <= j < n_i implies (#[trigger] mip_datas@[j]).spec_logical_len()
                == spec_expected_mip_len(
                header,
                mip_datas@[j].entry,
                j % (header.mipmap_count as int),
            ) by {
                assert(mip_datas@[j].texture_data@ == spec_mip_slice(s, hlen_i, n_i, j));
                assert(spec_slice_logical_len(s, hlen_i, n_i, j) == spec_expected_mip_len(
                    header,
                    spec_entry_at(s, hlen_i, j),
                    j % (header.mipmap_count as int),
                ));
            }
        }
        Ok(Tex { header, mip_datas })
    }
}

/// The byte form of the mip-entry table.
pub open spec fn spec_entry_table_bytes(mips: Seq<MipData>) -> Seq<u8> {
    Seq::new(mips.len(), |i: int| spec_mip_entry_bytes(mips[i].entry)).flatten()
}

/// The byte form of the compression-info table.
pub open spec fn spec_info_table_bytes(mips: Seq<MipData>) -> Seq<u8> {
    Seq::new(mips.len(), |i: int| spec_compression_info_bytes(mips[i].compression_info)).flatten()
}

/// The concatenation of every mip's raw bytes, in table order.
pub open spec fn spec_payload_bytes(mips: Seq<MipData>) -> Seq<u8> {
    Seq::new(mips.len(), |i: int| mips[i].texture_data@).flatten()
}

/// The byte form of a whole container: header, the full entry table,
/// the full info table, then the payloads. Table-before-data is
/// load-bearing for the round trip.
pub open spec fn spec_tex_bytes(tex: Tex) -> Seq<u8> {
    spec_header_bytes(tex.header) + spec_entry_table_bytes(tex.mip_datas@)
        + spec_info_table_bytes(tex.mip_datas@) + spec_payload_bytes(tex.mip_datas@)
}

proof fn lemma_entry_table_push(mips: Seq<MipData>, k: int)
    requires
        0 <= k < mips.len(),
    ensures
        spec_entry_table_bytes(mips.take(k + 1)) == spec_entry_table_bytes(mips.take(k))
            + spec_mip_entry_bytes(mips[k].entry),
{
    let a = Seq::new(mips.take(k).len(), |i: int| spec_mip_entry_bytes(mips.take(k)[i].entry));
    let b = Seq::new(
        mips.take(k + 1).len(),
        |i: int| spec_mip_entry_bytes(mips.take(k + 1)[i].entry),
    );
    assert(b =~= a.push(spec_mip_entry_bytes(mips[k].entry)));
    a.lemma_flatten_push(spec_mip_entry_bytes(mips[k].entry));
}

proof fn lemma_info_table_push(mips: Seq<MipData>, k: int)
    requires
        0 <= k < mips.len(),
    ensures
        spec_info_table_bytes(mips.take(k + 1)) == spec_info_table_bytes(mips.take(k))
            + spec_compression_info_bytes(mips[k].compression_info),
{
    let a = Seq::new(
        mips.take(k).len(),
        |i: int| spec_compression_info_bytes(mips.take(k)[i].compression_info),
    );
    let b = Seq::new(
        mips.take(k + 1).len(),
        |i: int| spec_compression_info_bytes(mips.take(k + 1)[i].compression_info),
    );
    assert(b =~= a.push(spec_compression_info_bytes(mips[k].compression_info)));
    a.lemma_flatten_push(spec_compression_info_bytes(mips[k].compression_info));
}

proof fn lemma_payload_push(mips: Seq<MipData>, k: int)
    requires
        0 <= k < mips.len(),
    ensures
        spec_payload_bytes(mips.take(k + 1)) == spec_payload_bytes(mips.take(k))
            + mips[k].texture_data@,
{
    let a = Seq::new(mips.take(k).len(), |i: int| mips.take(k)[i].texture_data@);
    let b = Seq::new(mips.take(k + 1).len(), |i: int| mips.take(k + 1)[i].texture_data@);
    assert(b =~= a.push(mips[k].texture_data@));
    a.lemma_flatten_push(mips[k].texture_data@);
}

/// The running offset: the sum of the compressed sizes of the mips
/// before index `i`.
pub open spec fn spec_cum_offset(mips: Seq<MipData>, i: int) -> int
    decreases i,
{
    if i <= 0 {
        0int
    } else {
        spec_cum_offset(mips, i - 1) + mips[i - 1].compression_info.compressed_size
    }
}

proof fn lemma_cum_offset_push(mips: Seq<MipData>, x: MipData, i: int)
    requires
        0 <= i <= mips.len(),
    ensures
        spec_cum_offset(mips.push(x), i) == spec_cum_offset(mips, i),
    decreases i,
{
    if i > 0 {
        lemma_cum_offset_push(mips, x, i - 1);
        assert(mips.push(x)[i - 1] == mips[i - 1]);
    }
}

/// Whether the compression table tiles the data blob exactly: each
/// mip's offset is the running sum of the sizes before it.
pub open spec fn spec_mips_contiguous(tex: Tex) -> bool {
    forall|i: int|
        0 <= i < tex.mip_datas@.len() ==> (
        #[trigger] tex.mip_datas@[i]).compression_info.compressed_offset == spec_cum_offset(
            tex.mip_datas@,
            i,
        )
}

/// Where the payload region ends: the data blob's start plus the sum
/// of all compressed sizes.
pub open spec fn spec_total_payload_end(bytes: Seq<u8>, tex: Tex) -> int {
    let hn = spec_parse_header(bytes)->Ok_0;
    spec_data_start(hn.1, spec_mip_count(hn.0)) + spec_cum_offset(
        tex.mip_datas@,
        tex.mip_datas@.len() as int,
    )
}

proof fn lemma_entry_table_section(mips: Seq<MipData>, bytes: Seq<u8>, hlen: int, k: int)
    requires
        0 <= k <= mips.len(),
        0 <= hlen,
        hlen + 16 * mips.len() <= bytes.len(),
        forall|i: int|
            0 <= i < mips.len() ==> (#[trigger] mips[i]).entry == spec_entry_at(bytes, hlen, i),
    ensures
        spec_entry_table_bytes(mips.take(k)) == bytes.subrange(hlen, hlen + 16 * k),
    decreases k,
{
    if k == 0 {
        assert(Seq::new(mips.take(0).len(), |i: int| spec_mip_entry_bytes(mips.take(0)[i].entry))
            =~= Seq::<Seq<u8>>::empty());
        reveal_with_fuel(Seq::<Seq<u8>>::flatten, 2);
        assert(Seq::<Seq<u8>>::empty().flatten() =~= Seq::<u8>::empty());
        assert(spec_entry_table_bytes(mips.take(0)) =~= Seq::<u8>::empty());
        assert(bytes.subrange(hlen, hlen) =~= Seq::<u8>::empty());
    } else {
        lemma_entry_table_section(mips, bytes, hlen, k - 1);
        lemma_entry_table_push(mips, k - 1);
        lemma_mip_entry_round_trip(bytes.subrange(hlen + 16 * (k - 1), hlen + 16 * k));
        assert(bytes.subrange(hlen, hlen + 16 * k) =~= bytes.subrange(hlen, hlen + 16 * (k - 1))
            + bytes.subrange(hlen + 16 * (k - 1), hlen + 16 * k));
    }
}

proof fn lemma_info_table_section(mips: Seq<MipData>, bytes: Seq<u8>, start: int, k: int)
    requires
        0 <= k <= mips.len(),
        0 <= start,
        start + 8 * mips.len() <= bytes.len(),
        forall|i: int|
            0 <= i < mips.len() ==> (#[trigger] mips[i]).compression_info
                == spec_parse_compression_info(bytes.subrange(start + 8 * i, start + 8 * i + 8)),
    ensures
        spec_info_table_bytes(mips.take(k)) == bytes.subrange(start, start + 8 * k),
    decreases k,
{
    if k == 0 {
        assert(Seq::new(
            mips.take(0).len(),
            |i: int| spec_compression_info_bytes(mips.take(0)[i].compression_info),
        ) =~= Seq::<Seq<u8>>::empty());
        reveal_with_fuel(Seq::<Seq<u8>>::flatten, 2);
        assert(Seq::<Seq<u8>>::empty().flatten() =~= Seq::<u8>::empty());
        assert(spec_info_table_bytes(mips.take(0)) =~= Seq::<u8>::empty());
        assert(bytes.subrange(start, start) =~= Seq::<u8>::empty());
    } else {
        lemma_info_table_section(mips, bytes, start, k - 1);
        lemma_info_table_push(mips, k - 1);
        lemma_compression_info_round_trip(bytes.subrange(start + 8 * (k - 1), start + 8 * k));
        assert(bytes.subrange(start, start + 8 * k) =~= bytes.subrange(
            start,
            start + 8 * (k - 1),
        ) + bytes.subrange(start + 8 * (k - 1), start + 8 * k));
    }
}

proof fn lemma_payload_section(mips: Seq<MipData>, bytes: Seq<u8>, ds: int, k: int)
    requires
        0 <= k <= mips.len(),
        forall|i: int|
            0 <= i < mips.len() ==> (#[trigger] mips[i]).compression_info.compressed_offset
                == spec_cum_offset(mips, i),
        forall|i: int|
            0 <= i < mips.len() ==> ds + (#[trigger] mips[i]).compression_info.compressed_offset
                + mips[i].compression_info.compressed_size <= bytes.len(),
        forall|i: int|
            0 <= i < mips.len() ==> (#[trigger] mips[i]).texture_data@ == bytes.subrange(
                ds + mips[i].compression_info.compressed_offset,
                ds + mips[i].compression_info.compressed_offset
                    + mips[i].compression_info.compressed_size,
            ),
        0 <= ds <= bytes.len(),
    ensures
        spec_payload_bytes(mips.take(k)) == bytes.subrange(ds, ds + spec_cum_offset(mips, k)),
        spec_cum_offset(mips, k) >= 0,
        ds + spec_cum_offset(mips, k) <= bytes.len(),
    decreases k,
{
    if k == 0 {
        assert(Seq::new(mips.take(0).len(), |i: int| mips.take(0)[i].texture_data@)
            =~= Seq::<Seq<u8>>::empty());
        reveal_with_fuel(Seq::<Seq<u8>>::flatten, 2);
        assert(Seq::<Seq<u8>>::empty().flatten() =~= Seq::<u8>::empty());
        assert(spec_payload_bytes(mips.take(0)) =~= Seq::<u8>::empty());
        assert(bytes.subrange(ds, ds) =~= Seq::<u8>::empty());
    } else {
        lemma_payload_section(mips, bytes, ds, k - 1);
        lemma_payload_push(mips, k - 1);
        assert(mips[k - 1].compression_info.compressed_offset == spec_cum_offset(mips, k - 1));
        assert(spec_cum_offset(mips, k) == spec_cum_offset(mips, k - 1) + mips[k
            - 1].compression_info.compressed_size);
        assert(bytes.subrange(ds, ds + spec_cum_offset(mips, k)) =~= bytes.subrange(
            ds,
            ds + spec_cum_offset(mips, k - 1),
        ) + bytes.subrange(
            ds + spec_cum_offset(mips, k - 1),
            ds + spec_cum_offset(mips, k),
        ));
    }
}

/// Law (round trip): serializing a parsed container reproduces the
/// input bytes exactly, whenever the compression table tiles the data
/// blob contiguously in table order and the blob runs to the end of
/// the input. Real containers are laid out this way; a container
/// whose table leaves gaps or overlaps serializes to a different,
/// repacked byte form.
#[verifier::rlimit(100)]
pub proof fn lemma_parse_serialize_round_trip(bytes: Seq<u8>, tex: Tex)
    requires
        parse_rel(bytes, tex),
        spec_mips_contiguous(tex),
        spec_total_payload_end(bytes, tex) == bytes.len(),
    ensures
        spec_tex_bytes(tex) == bytes,
{
    let hn = spec_parse_header(bytes)->Ok_0;
    let h = hn.0;
    let hlen = hn.1;
    let n = spec_mip_count(h);
    let ds = spec_data_start(hlen, n);
    let mips = tex.mip_datas@;
    lemma_header_round_trip(bytes, h, hlen);
    lemma_entry_table_section(mips, bytes, hlen, n);
    assert forall|i: int| 0 <= i < mips.len() implies (#[trigger] mips[i]).compression_info
        == spec_parse_compression_info(
        bytes.subrange(hlen + 16 * n + 8 * i, hlen + 16 * n + 8 * i + 8),
    ) by {
        assert(mips[i].compression_info == spec_info_at(bytes, hlen, n, i));
    }
    lemma_info_table_section(mips, bytes, hlen + 16 * n, n);
    assert forall|i: int| 0 <= i < mips.len() implies ds + (
    #[trigger] mips[i]).compression_info.compressed_offset
        + mips[i].compression_info.compressed_size <= bytes.len() && mips[i].texture_data@
        == bytes.subrange(
        ds + mips[i].compression_info.compressed_offset,
        ds + mips[i].compression_info.compressed_offset
            + mips[i].compression_info.compressed_size,
    ) by {
        assert(spec_slice_ok(bytes, hlen, n, i));
        assert(mips[i].texture_data@ == spec_mip_slice(bytes, hlen, n, i));
    }
    lemma_payload_section(mips, bytes, ds, n);
    assert(mips.take(n) =~= mips);
    assert(spec_tex_bytes(tex) =~= bytes);
}

impl Tex {
    /// Serializes the whole container: header, full entry table, full
    /// info table, then every mip's raw bytes in table order.
    pub fn as_bytes(&self) -> (r: Vec<u8>)
        ensures
            r@ == spec_tex_bytes(*self),
    {
        let ghost mips = self.mip_datas@;
        let mut out: Vec<u8> = self.header.as_bytes();
        let n: usize = self.mip_datas.len();
        proof {
            reveal_with_fuel(Seq::<Seq<u8>>::flatten, 2);
            assert(spec_entry_table_bytes(mips.take(0)) =~= Seq::<u8>::empty());
            assert(out@ =~= spec_header_bytes(self.header) + spec_entry_table_bytes(
                mips.take(0),
            ));
        }
        let mut i: usize = 0;
        while i < n
            invariant
                mips == self.mip_datas@,
                n == mips.len(),
                i <= n,
                out@ == spec_header_bytes(self.header) + spec_entry_table_bytes(
                    mips.take(i as int),
                ),
            decreases n - i,
        {
            let mut eb = self.mip_datas[i].entry.as_bytes();
            out.append(&mut eb);
            proof {
                lemma_entry_table_push(mips, i as int);
            }
            i = i + 1;
        }
        proof {
            reveal_with_fuel(Seq::<Seq<u8>>::flatten, 2);
            assert(mips.take(n as int) =~= mips);
            assert(spec_info_table_bytes(mips.take(0)) =~= Seq::<u8>::empty());
            assert(out@ =~= spec_header_bytes(self.header) + spec_entry_table_bytes(mips)
                + spec_info_table_bytes(mips.take(0)));
        }
        let mut i: usize = 0;
        while i < n
            invariant
                mips == self.mip_datas@,
                n == mips.len(),
                i <= n,
                out@ == spec_header_bytes(self.header) + spec_entry_table_bytes(mips)
                    + spec_info_table_bytes(mips.take(i as int)),
            decreases n - i,
        {
            let mut cb = self.mip_datas[i].compression_info.as_bytes();
            out.append(&mut cb);
            proof {
                lemma_info_table_push(mips, i as int);
                assert(mips.take(n as int) =~= mips);
            }
            i = i + 1;
        }
        proof {
            reveal_with_fuel(Seq::<Seq<u8>>::flatten, 2);
            assert(mips.take(n as int) =~= mips);
            assert(spec_payload_bytes(mips.take(0)) =~= Seq::<u8>::empty());
            assert(out@ =~= spec_header_bytes(self.header) + spec_entry_table_bytes(mips)
                + spec_info_table_bytes(mips) + spec_payload_bytes(mips.take(0)));
        }
        let mut i: usize = 0;
        while i < n
            invariant
                mips == self.mip_datas@,
                n == mips.len(),
                i <= n,
                out@ == spec_header_bytes(self.header) + spec_entry_table_bytes(mips)
                    + spec_info_table_bytes(mips) + spec_payload_bytes(mips.take(i as int)),
            decreases n - i,
        {
            let mut db = slice_to_vec(self.mip_datas[i].texture_data.as_slice());
            out.append(&mut db);
            proof {
                lemma_payload_push(mips, i as int);
                assert(mips.take(n as int) =~= mips);
            }
            i = i + 1;
        }
        proof {
            assert(mips.take(n as int) =~= mips);
        }
        out
    }

    /// The parsed header.
    pub fn header(&self) -> (r: &TexHeader)
        ensures
            r == self.header,
    {
        &self.header
    }

    /// The ordered mips, texture-major.
    pub fn mip_datas(&self) -> (r: &[MipData])
        ensures
            r@ == self.mip_datas@,
    {
        self.mip_datas.as_slice()
    }

    /// Decompresses one tile-compressed payload with a freshly
    /// acquired decoder.
    pub fn decompress_mipmap(mip_data: &[u8]) -> (r: Result<Vec<u8>, Error>)
        ensures
            r matches Ok(d) ==> crate::gdf::spec_tile_container_wf(mip_data@) && d@.len()
                == crate::gdf::spec_parse_tile_stream(mip_data@).spec_uncompressed_size() && d@
                == crate::gdf::spec_decompressed_bytes(mip_data@),
            !crate::gdf::spec_tile_container_wf(mip_data@) ==> r is Err,
            r matches Err(e) ==> (e == Error::GDeflate(
                DecompressionError::DecompressorCreationFailed,
            ) || (e == Error::GDeflate(DecompressionError::BadData)
                && !crate::gdf::spec_tile_container_wf(mip_data@))),
            crate::gdf::spec_tile_container_wf(mip_data@) ==> (r is Ok || r == Err::<
                Vec<u8>,
                Error,
            >(Error::GDeflate(DecompressionError::DecompressorCreationFailed))),
    {
        let mut decompressor = match GDfDecompressor::new() {
            Ok(d) => d,
            Err(e) => {
                return Err(Error::GDeflate(e));
            },
        };
        match decompressor.decompress(mip_data) {
            Ok(d) => Ok(d),
            Err(e) => Err(Error::GDeflate(e)),
        }
    }
}

/// The size a mip will have after decompress-all: its framing
/// header's declared uncompressed size when tile-compressed, its
/// recorded compressed size otherwise.
pub open spec fn spec_batch_new_size(m: MipData) -> int {
    if m.is_gdeflate {
        crate::gdf::spec_parse_tile_stream(m.texture_data@).spec_uncompressed_size()
    } else {
        m.compression_info.compressed_size as int
    }
}

/// The running sum of the first `i` post-decompression sizes.
pub open spec fn spec_batch_cum(mips: Seq<MipData>, i: int) -> int
    decreases i,
{
    if i <= 0 {
        0int
    } else {
        spec_batch_cum(mips, i - 1) + spec_batch_new_size(mips[i - 1])
    }
}

/// How the mips after decompress-all relate to those before: entries
/// survive, raw payloads survive unchanged with their sizes, each
/// tile-compressed payload is replaced by its decompressed bytes with
/// its size rewritten to match, no mip stays marked compressed, and
/// every offset is rewritten to the running sum of the new sizes in
/// table order.
pub open spec fn spec_batch_rel(before: Seq<MipData>, after: Seq<MipData>) -> bool {
    &&& after.len() == before.len()
    &&& forall|i: int| 0 <= i < before.len() ==> (#[trigger] after[i]).entry == before[i].entry
    &&& forall|i: int| 0 <= i < before.len() ==> !(#[trigger] after[i]).is_gdeflate
    &&& forall|i: int|
        0 <= i < before.len() ==> (!(#[trigger] before[i]).is_gdeflate ==> after[i].texture_data@
            == before[i].texture_data@ && after[i].compression_info.compressed_size
            == before[i].compression_info.compressed_size)
    &&& forall|i: int|
        0 <= i < before.len() ==> ((#[trigger] before[i]).is_gdeflate ==> after[i].texture_data@
            == crate::gdf::spec_decompressed_bytes(before[i].texture_data@) && after[
            i
        ].texture_data@.len() == crate::gdf::spec_parse_tile_stream(
            before[i].texture_data@,
        ).spec_uncompressed_size() && after[i].compression_info.compressed_size == after[
            i
        ].texture_data@.len())
    &&& forall|i: int|
        0 <= i < before.len() ==> (#[trigger] after[i]).compression_info.compressed_offset
            == spec_cum_offset(after, i)
}

impl Tex {
    /// Decompresses every tile-compressed mip and rewrites the
    /// compression table: each offset becomes the running sum of the
    /// (now decompressed) sizes, in table order. On any failure the
    /// container is left unchanged.
    pub fn batch_decompress(&mut self) -> (r: Result<(), Error>)
        ensures
            final(self).header == old(self).header,
            r is Ok ==> spec_batch_rel(old(self).mip_datas@, final(self).mip_datas@),
            r is Err ==> *final(self) == *old(self),
            (exists|i: int|
                0 <= i < old(self).mip_datas@.len() && (
                #[trigger] old(self).mip_datas@[i]).is_gdeflate
                    && !crate::gdf::spec_tile_container_wf(
                    old(self).mip_datas@[i].texture_data@,
                )) ==> r is Err,
            r matches Err(e) ==> ({
                let mips = old(self).mip_datas@;
                ||| e == Error::GDeflate(DecompressionError::DecompressorCreationFailed)
                ||| (e == Error::GDeflate(DecompressionError::BadData) && (exists|i: int|
                    0 <= i < mips.len() && (#[trigger] mips[i]).is_gdeflate
                        && !crate::gdf::spec_tile_container_wf(mips[i].texture_data@)))
                ||| (e == Error::Internal && (exists|i: int|
                    0 <= i < mips.len() && #[trigger] spec_batch_cum(mips, i + 1)
                        > 0xffffffff))
            }),
            ((forall|i: int|
                0 <= i < old(self).mip_datas@.len() ==> ((
                #[trigger] old(self).mip_datas@[i]).is_gdeflate
                    ==> crate::gdf::spec_tile_container_wf(
                    old(self).mip_datas@[i].texture_data@,
                ))) && (forall|i: int|
                0 <= i <= old(self).mip_datas@.len() ==> #[trigger] spec_batch_cum(
                    old(self).mip_datas@,
                    i,
                ) <= 0xffffffff)) ==> (r is Ok || r == Err::<(), Error>(
                Error::GDeflate(DecompressionError::DecompressorCreationFailed),
            )),
    {
        let ghost before = self.mip_datas@;
        let mut decompressor = match GDfDecompressor::new() {
            Ok(d) => d,
            Err(e) => {
                return Err(Error::GDeflate(e));
            },
        };
        let n: usize = self.mip_datas.len();
        let mut new_mips: Vec<MipData> = Vec::new();
        let mut curr: u32 = 0;
        let mut i: usize = 0;
        while i < n
            invariant
                before == self.mip_datas@,
                n == before.len(),
                i <= n,
                new_mips@.len() == i,
                curr == spec_cum_offset(new_mips@, i as int),
                curr == spec_batch_cum(before, i as int),
                forall|j: int|
                    0 <= j < i ==> (#[trigger] new_mips@[j]).entry == before[j].entry,
                forall|j: int| 0 <= j < i ==> !(#[trigger] new_mips@[j]).is_gdeflate,
                forall|j: int|
                    0 <= j < i ==> (!(#[trigger] before[j]).is_gdeflate ==> new_mips@[
                        j
                    ].texture_data@ == before[j].texture_data@ && new_mips@[
                        j
                    ].compression_info.compressed_size
                        == before[j].compression_info.compressed_size),
                forall|j: int|
                    0 <= j < i ==> ((#[trigger] before[j]).is_gdeflate ==> new_mips@[
                        j
                    ].texture_data@ == crate::gdf::spec_decompressed_bytes(
                        before[j].texture_data@,
                    ) && new_mips@[j].texture_data@.len() == crate::gdf::spec_parse_tile_stream(
                        before[j].texture_data@,
                    ).spec_uncompressed_size() && new_mips@[j].compression_info.compressed_size
                        == new_mips@[j].texture_data@.len()),
                forall|j: int|
                    0 <= j < i ==> (#[trigger] new_mips@[j]).compression_info.compressed_offset
                        == spec_cum_offset(new_mips@, j),
                forall|j: int|
                    0 <= j < i ==> ((#[trigger] before[j]).is_gdeflate
                        ==> crate::gdf::spec_tile_container_wf(before[j].texture_data@)),
            decreases n - i,
        {
            let mip = &self.mip_datas[i];
            let new_mip: MipData;
            if !mip.is_compressed() {
                let sz: u32 = mip.compression_info.compressed_size;
                if sz > 0xffffffffu32 - curr {
                    proof {
                        assert(spec_batch_cum(before, i + 1) == spec_batch_cum(before, i as int)
                            + spec_batch_new_size(before[i as int]));
                        assert(spec_batch_cum(before, i + 1) > 0xffffffff);
                    }
                    return Err(Error::Internal);
                }
                new_mip = MipData {
                    entry: mip.entry,
                    compression_info: CompressionInfo {
                        compressed_size: sz,
                        compressed_offset: curr,
                    },
                    texture_data: slice_to_vec(mip.texture_data.as_slice()),
                    is_gdeflate: false,
                };
                curr = curr + sz;
            } else {
                let out_data = match decompressor.decompress(mip.texture_data.as_slice()) {
                    Ok(d) => d,
                    Err(e) => {
                        return Err(Error::GDeflate(e));
                    },
                };
                let out_len: usize = out_data.len();
                let sz: u32 = out_len as u32;
                if sz > 0xffffffffu32 - curr {
                    proof {
                        assert(spec_batch_cum(before, i + 1) == spec_batch_cum(before, i as int)
                            + spec_batch_new_size(before[i as int]));
                        assert(spec_batch_cum(before, i + 1) > 0xffffffff);
                    }
                    return Err(Error::Internal);
                }
                new_mip = MipData {
                    entry: mip.entry,
                    compression_info: CompressionInfo {
                        compressed_size: sz,
                        compressed_offset: curr,
                    },
                    texture_data: out_data,
                    is_gdeflate: false,
                };
                curr = curr + sz;
            }
            let ghost prev = new_mips@;
            new_mips.push(new_mip);
            proof {
                assert forall|j: int| 0 <= j <= i implies spec_cum_offset(new_mips@, j)
                    == spec_cum_offset(prev, j) by {
                    lemma_cum_offset_push(prev, new_mip, j);
                }
            }
            i = i + 1;
        }
        self.mip_datas = new_mips;
        Ok(())
    }
}

} // verus!
