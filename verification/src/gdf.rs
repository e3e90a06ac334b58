//! The tile-based compression container layered over an external
//! entropy decoder.
//!
//! A compressed payload is an 8-byte framing header (`id`, `magic`,
//! `num_tiles`, a packed flags word), then a table of `num_tiles`
//! little-endian `u32` slots, then the concatenated compressed tiles.
//! Tiles have a fixed logical size of 64 KiB; the final tile may be
//! partial, its length carried in the flags word. The table's slot 0
//! holds the last tile's compressed size; tile 0 starts at offset 0,
//! and slot `i` (for `i > 0`) holds tile `i`'s offset from the table's
//! end.

use crate::error::DecompressionError;
use crate::rw::{read_u32_le, read_u8};
use vstd::bytes::{spec_u16_from_le_bytes, spec_u32_from_le_bytes};
use vstd::prelude::*;
use vstd::slice::slice_subrange;

verus! {

/// The identifying byte of a tile-compression framing header.
pub const K_GDEFLATE_ID: u8 = 4;

/// The fixed logical tile size in bytes.
pub const KDEFAULT_TILE_SIZE: usize = 65536;

/// The parsed framing header of a tile-compressed payload.
#[derive(Debug, Clone, Copy, PartialEq, Eq, Structural)]
pub struct TileStream {
    pub id: u8,
    pub magic: u8,
    pub num_tiles: u16,
    pub tile_size_idx: u32,
    pub last_tile_size: u32,
    pub reserv1: u32,
}

/// The framing header denoted by the first 8 bytes of a payload: two
/// marker bytes, a little-endian tile count, and a packed flags word
/// split from its low bits up as tile-size index (2 bits), last-tile
/// size (18 bits) and reserved (12 bits).
pub open spec fn spec_parse_tile_stream(s: Seq<u8>) -> TileStream
    recommends
        s.len() >= 8,
{
    let flags = spec_u32_from_le_bytes(s.subrange(4, 8));
    TileStream {
        id: s[0],
        magic: s[1],
        num_tiles: spec_u16_from_le_bytes(s.subrange(2, 4)),
        tile_size_idx: flags & 0x3,
        last_tile_size: (flags >> 2) & 0x3ffff,
        reserv1: (flags >> 20) & 0xfff,
    }
}

impl TileStream {
    /// A self-checking header: `id` must be the fixed marker and
    /// `magic` its complement.
    pub open spec fn is_valid_spec(self) -> bool {
        self.id == (self.magic ^ 0xff) && self.id == K_GDEFLATE_ID
    }

    /// The logical uncompressed size: one full 64 KiB per tile, less
    /// the missing part of a partial final tile.
    pub open spec fn spec_uncompressed_size(self) -> int {
        self.num_tiles * 65536 - if self.last_tile_size == 0 {
            0int
        } else {
            65536 - self.last_tile_size
        }
    }

    /// Builds the framing header that describes `uncompressed_size`
    /// logical bytes: as many full tiles as fit, plus one partial tile
    /// for the remainder.
    pub fn new(uncompressed_size: usize) -> (r: TileStream)
        requires
            uncompressed_size <= 0xffff * 0x10000,
        ensures
            r.is_valid_spec(),
            r.tile_size_idx == 1,
            r.reserv1 == 0,
            r.last_tile_size < 65536,
            r.last_tile_size != 0 ==> r.num_tiles >= 1,
            r.spec_uncompressed_size() == uncompressed_size,
    {
        let full: usize = uncompressed_size / 65536;
        let last: u32 = (uncompressed_size % 65536) as u32;
        proof {
            vstd::arithmetic::div_mod::lemma_fundamental_div_mod(
                uncompressed_size as int,
                65536,
            );
            assert(((4u8 ^ 0xff) ^ 0xff) == 4u8) by (bit_vector);
        }
        let num_tiles: u16 = if last != 0 {
            (full + 1) as u16
        } else {
            full as u16
        };
        TileStream {
            id: K_GDEFLATE_ID,
            magic: K_GDEFLATE_ID ^ 0xff,
            num_tiles,
            tile_size_idx: 1,
            last_tile_size: last,
            reserv1: 0,
        }
    }

    /// Parses the 8-byte framing header from the start of a payload.
    pub fn from(bytes: &[u8]) -> (r: Result<TileStream, DecompressionError>)
        ensures
            r is Ok <==> bytes@.len() >= 8,
            r matches Ok(ts) ==> ts == spec_parse_tile_stream(bytes@),
            r matches Err(e) ==> e == DecompressionError::BadData,
    {
        if bytes.len() < 8 {
            return Err(DecompressionError::BadData);
        }
        let id = read_u8(bytes, 0);
        let magic = read_u8(bytes, 1);
        let num_tiles = crate::rw::read_u16_le(bytes, 2);
        let flags = read_u32_le(bytes, 4);
        Ok(TileStream {
            id,
            magic,
            num_tiles,
            tile_size_idx: flags & 0x3,
            last_tile_size: (flags >> 2) & 0x3ffff,
            reserv1: (flags >> 20) & 0xfff,
        })
    }

    /// Exec counterpart of `spec_uncompressed_size`. The bounds keep
    /// the subtraction and the per-tile product inside `usize`.
    pub fn get_uncompressed_size(&self) -> (r: usize)
        requires
            self.last_tile_size <= 65536,
            self.last_tile_size != 0 ==> self.num_tiles >= 1,
        ensures
            r == self.spec_uncompressed_size(),
    {
        let total: usize = (self.num_tiles as usize) * 65536;
        if self.last_tile_size == 0 {
            total
        } else {
            total - (65536 - self.last_tile_size as usize)
        }
    }

    /// Exec counterpart of `is_valid_spec`.
    pub fn is_valid(&self) -> (r: bool)
        ensures
            r == self.is_valid_spec(),
    {
        self.id == (self.magic ^ 0xff) && self.id == K_GDEFLATE_ID
    }
}

/// The number of tiles a payload's framing header declares.
pub open spec fn spec_num_tiles(s: Seq<u8>) -> int {
    spec_parse_tile_stream(s).num_tiles as int
}

/// The raw value of slot `i` of the tile table.
pub open spec fn spec_table_slot(s: Seq<u8>, i: int) -> u32 {
    spec_u32_from_le_bytes(s.subrange(8 + 4 * i, 8 + 4 * i + 4))
}

/// Tile `i`'s offset from the end of the table: tile 0 starts at 0,
/// and slot 0 is instead the last tile's compressed size.
pub open spec fn spec_tile_offset(s: Seq<u8>, i: int) -> int {
    if i == 0 {
        0int
    } else {
        spec_table_slot(s, i) as int
    }
}

/// Tile `i`'s compressed size: up to the next tile's offset, or, for
/// the last tile, the size carried in slot 0.
pub open spec fn spec_tile_size(s: Seq<u8>, i: int) -> int {
    if i + 1 < spec_num_tiles(s) {
        spec_table_slot(s, i + 1) - spec_tile_offset(s, i)
    } else {
        spec_table_slot(s, 0) as int
    }
}

/// Tile `i`'s logical (decoded) size: 64 KiB, except a partial final
/// tile.
pub open spec fn spec_tile_out_size(s: Seq<u8>, i: int) -> int {
    let ts = spec_parse_tile_stream(s);
    if i + 1 == ts.num_tiles && ts.last_tile_size != 0 {
        ts.last_tile_size as int
    } else {
        65536
    }
}

/// Well-formedness of a whole tile-compressed payload: a valid framing
/// header, a complete tile table, offsets that do not run backwards,
/// and every tile's compressed bytes inside the payload.
pub open spec fn spec_tile_container_wf(s: Seq<u8>) -> bool {
    let ts = spec_parse_tile_stream(s);
    let n = ts.num_tiles as int;
    &&& s.len() >= 8
    &&& ts.is_valid_spec()
    &&& ts.last_tile_size <= 65536
    &&& ts.num_tiles == 0 ==> ts.last_tile_size == 0
    &&& s.len() >= 8 + 4 * n
    &&& forall|i: int|
        0 <= i && i + 1 < n ==> spec_table_slot(s, i + 1) as int >= spec_tile_offset(s, i)
    &&& forall|i: int|
        0 <= i < n ==> 8 + 4 * n + #[trigger] spec_tile_offset(s, i) + spec_tile_size(s, i)
            <= s.len()
}

/// Decides `spec_tile_container_wf` executably: walks the framing
/// header and the tile table and checks every bound, without touching
/// the entropy decoder.
pub fn tile_container_check(payload: &[u8]) -> (r: bool)
    ensures
        r == spec_tile_container_wf(payload@),
{
    let ghost s = payload@;
    let tile_stream = match TileStream::from(payload) {
        Ok(ts) => ts,
        Err(_) => {
            return false;
        },
    };
    if !tile_stream.is_valid() {
        return false;
    }
    if tile_stream.last_tile_size > 65536 {
        return false;
    }
    if tile_stream.num_tiles == 0 && tile_stream.last_tile_size != 0 {
        return false;
    }
    let n: usize = tile_stream.num_tiles as usize;
    let len: usize = payload.len();
    if len < 8 + 4 * n {
        return false;
    }
    let base: usize = 8 + 4 * n;
    let mut i: usize = 0;
    while i < n
        invariant
            spec_parse_tile_stream(s) == tile_stream,
            s == payload@,
            s.len() == len,
            n == tile_stream.num_tiles as int,
            base == 8 + 4 * n,
            len >= base,
            tile_stream.is_valid_spec(),
            tile_stream.last_tile_size <= 65536,
            tile_stream.num_tiles == 0 ==> tile_stream.last_tile_size == 0,
            0 <= i <= n,
            forall|j: int|
                0 <= j && j + 1 < n && j < i ==> spec_table_slot(s, j + 1) as int
                    >= spec_tile_offset(s, j),
            forall|j: int|
                0 <= j < i ==> 8 + 4 * n + #[trigger] spec_tile_offset(s, j) + spec_tile_size(
                    s,
                    j,
                ) <= s.len(),
        decreases n - i,
    {
        let tile_offset: u32 = if i == 0 {
            0
        } else {
            read_u32_le(payload, 8 + 4 * i)
        };
        assert(tile_offset as int == spec_tile_offset(s, i as int));
        let data_size: u32 = if i + 1 < n {
            let next = read_u32_le(payload, 8 + 4 * (i + 1));
            if next < tile_offset {
                return false;
            }
            next - tile_offset
        } else {
            read_u32_le(payload, 8)
        };
        assert(data_size as int == spec_tile_size(s, i as int));
        let avail: usize = len - base;
        let off_s: usize = tile_offset as usize;
        if off_s > avail {
            return false;
        }
        if data_size as usize > avail - off_s {
            return false;
        }
        i = i + 1;
    }
    true
}

/// Law: a payload whose framing header fails the self-check (the
/// `id` byte is not the complement of the `magic` byte, or is not the
/// fixed marker) is never a well-formed tile container, so
/// decompressing it always fails with the bad-data error.
pub proof fn lemma_invalid_tile_header_rejected(s: Seq<u8>)
    requires
        !spec_parse_tile_stream(s).is_valid_spec(),
    ensures
        !spec_tile_container_wf(s),
{
}

/// What the external entropy decoder yields for one compressed tile
/// and one declared output size; it depends on those two arguments
/// alone.
pub uninterp spec fn gdeflate_tile_bytes(data: Seq<u8>, out_size: int) -> Seq<u8>;

/// The concatenation of the decoded forms of the first `k` tiles of
/// a payload, each tile's bytes given by the named entropy decode of
/// its compressed slice at its logical output size.
pub open spec fn spec_tile_cat(s: Seq<u8>, k: int) -> Seq<u8>
    decreases k,
{
    if k <= 0 {
        Seq::<u8>::empty()
    } else {
        let n = spec_num_tiles(s);
        let base = 8 + 4 * n;
        let off = spec_tile_offset(s, k - 1);
        let size = spec_tile_size(s, k - 1);
        spec_tile_cat(s, k - 1) + gdeflate_tile_bytes(
            s.subrange(base + off, base + off + size),
            spec_tile_out_size(s, k - 1),
        )
    }
}

/// What decompressing a whole well-formed payload yields: the decoded
/// tiles, concatenated in order.
pub open spec fn spec_decompressed_bytes(s: Seq<u8>) -> Seq<u8> {
    spec_tile_cat(s, spec_num_tiles(s))
}

/// Relies on gdeflate::Decompressor::new: it allocates an entropy
/// decoder, or reports that the allocation failed.
#[verifier::external_body]
fn gdf_alloc_decompressor() -> (r: Result<gdeflate::Decompressor, DecompressionError>) {
    gdeflate::Decompressor::new().map_err(|_| DecompressionError::DecompressorCreationFailed)
}

/// Relies on gdeflate::Decompressor::decompress, called with a single
/// tile whose compressed bytes are exactly `data` and whose declared
/// output size is `out_size`: it returns a buffer of exactly
/// `out_size` bytes whose contents depend on `data` and `out_size`
/// alone, and its `Result` is always `Ok` (the error value of that
/// crate is produced only when a decoder is created).
#[verifier::external_body]
fn decode_tile(dec: &mut gdeflate::Decompressor, data: &[u8], out_size: usize) -> (r: Result<
    Vec<u8>,
    DecompressionError,
>)
    requires
        data@.len() <= 0xffffffff,
        out_size <= 65536,
    ensures
        r is Ok,
        r matches Ok(b) ==> b@ == gdeflate_tile_bytes(data@, out_size as int) && b@.len()
            == out_size,
{
    let tiles = [gdeflate::Tile {
        compressed_size: data.len() as u32,
        uncompressed_size: out_size as u32,
    }];
    dec.decompress(gdeflate::CompressionResult::new(data, &tiles, 65536)).map_err(
        |_| DecompressionError::DecompressionFailed,
    )
}

#[verifier::external_type_specification]
#[verifier::external_body]
pub struct ExDecompressor(gdeflate::Decompressor);

/// A scoped handle on the external entropy decoder, reused across all
/// tiles of one decompression.
pub struct GDfDecompressor {
    inner: gdeflate::Decompressor,
}

impl GDfDecompressor {
    /// Acquires an entropy decoder.
    pub fn new() -> (r: Result<GDfDecompressor, DecompressionError>)
        ensures
            r matches Err(e) ==> e == DecompressionError::DecompressorCreationFailed,
    {
        match gdf_alloc_decompressor() {
            Ok(inner) => Ok(GDfDecompressor { inner }),
            Err(_) => Err(DecompressionError::DecompressorCreationFailed),
        }
    }

    /// Decompresses a whole tile-compressed payload: validates the
    /// framing header, walks the tile table, decodes each tile, and
    /// concatenates the decoded tiles in order. Succeeds exactly on
    /// well-formed payloads, and the result's length is the framing
    /// header's declared uncompressed size.
    ///
    /// Only framing faults are detectable: the safe entropy-decode
    /// interface reports no per-tile status, so a payload whose
    /// framing is well-formed but whose compressed tile bytes are
    /// corrupt decodes silently to deterministic filler, not to an
    /// error.
    pub fn decompress(&mut self, in_data: &[u8]) -> (r: Result<Vec<u8>, DecompressionError>)
        ensures
            r is Ok <==> spec_tile_container_wf(in_data@),
            r matches Ok(out) ==> out@.len() == spec_parse_tile_stream(
                in_data@,
            ).spec_uncompressed_size(),
            r matches Ok(out) ==> out@ == spec_decompressed_bytes(in_data@),
            r matches Err(e) ==> e == DecompressionError::BadData,
    {
        let ghost s = in_data@;
        let tile_stream = match TileStream::from(in_data) {
            Ok(ts) => ts,
            Err(_) => {
                return Err(DecompressionError::BadData);
            },
        };
        if !tile_stream.is_valid() {
            return Err(DecompressionError::BadData);
        }
        if tile_stream.last_tile_size > 65536 {
            return Err(DecompressionError::BadData);
        }
        if tile_stream.num_tiles == 0 && tile_stream.last_tile_size != 0 {
            return Err(DecompressionError::BadData);
        }
        let n: usize = tile_stream.num_tiles as usize;
        let len: usize = in_data.len();
        if len < 8 + 4 * n {
            return Err(DecompressionError::BadData);
        }
        let base: usize = 8 + 4 * n;
        let mut out: Vec<u8> = Vec::new();
        let mut i: usize = 0;
        while i < n
            invariant
                spec_parse_tile_stream(s) == tile_stream,
                s == in_data@,
                s.len() == len,
                n == tile_stream.num_tiles as int,
                base == 8 + 4 * n,
                len >= base,
                tile_stream.is_valid_spec(),
                tile_stream.last_tile_size <= 65536,
                tile_stream.num_tiles == 0 ==> tile_stream.last_tile_size == 0,
                0 <= i <= n,
                forall|j: int|
                    0 <= j && j + 1 < n && j < i ==> spec_table_slot(s, j + 1) as int
                        >= spec_tile_offset(s, j),
                forall|j: int|
                    0 <= j < i ==> 8 + 4 * n + #[trigger] spec_tile_offset(s, j) + spec_tile_size(
                        s,
                        j,
                    ) <= s.len(),
                out@.len() == i * 65536 - if i == n && tile_stream.last_tile_size != 0 {
                    65536 - tile_stream.last_tile_size
                } else {
                    0int
                },
                out@ == spec_tile_cat(s, i as int),
            decreases n - i,
        {
            let tile_offset: u32 = if i == 0 {
                0
            } else {
                read_u32_le(in_data, 8 + 4 * i)
            };
            assert(tile_offset as int == spec_tile_offset(s, i as int));
            let data_size: u32 = if i + 1 < n {
                let next = read_u32_le(in_data, 8 + 4 * (i + 1));
                if next < tile_offset {
                    return Err(DecompressionError::BadData);
                }
                next - tile_offset
            } else {
                read_u32_le(in_data, 8)
            };
            assert(data_size as int == spec_tile_size(s, i as int));
            let avail: usize = len - base;
            let off_s: usize = tile_offset as usize;
            if off_s > avail {
                return Err(DecompressionError::BadData);
            }
            if data_size as usize > avail - off_s {
                return Err(DecompressionError::BadData);
            }
            let start: usize = base + off_s;
            let end: usize = start + data_size as usize;
            let tile = slice_subrange(in_data, start, end);
            let out_size: usize = if i + 1 == n && tile_stream.last_tile_size != 0 {
                tile_stream.last_tile_size as usize
            } else {
                KDEFAULT_TILE_SIZE
            };
            assert(out_size as int == spec_tile_out_size(s, i as int));
            let mut decoded = match decode_tile(&mut self.inner, tile, out_size) {
                Ok(b) => b,
                Err(_) => {
                    return Err(DecompressionError::BadData);
                },
            };
            proof {
                assert(decoded@ == gdeflate_tile_bytes(
                    s.subrange(
                        8 + 4 * (n as int) + spec_tile_offset(s, i as int),
                        8 + 4 * (n as int) + spec_tile_offset(s, i as int) + spec_tile_size(
                            s,
                            i as int,
                        ),
                    ),
                    spec_tile_out_size(s, i as int),
                ));
            }
            out.append(&mut decoded);
            i = i + 1;
        }
        Ok(out)
    }
}

} // verus!
