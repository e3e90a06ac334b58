//! The bridge from a decoded container to a generic GPU-texture
//! container: the mip selection, format mapping, overflow guarding
//! and pixel-buffer assembly are verified; only the external
//! container builder and its format table are trusted.

use crate::error::{DecompressionError, Error};
use crate::gdf::GDfDecompressor;
use crate::tex::{MipData, Tex};
use num_traits::FromPrimitive;
use vstd::prelude::*;

verus! {

#[verifier::external_type_specification]
#[verifier::external_body]
pub struct ExDds(ddsfile::Dds);

#[verifier::external_type_specification]
#[verifier::external_body]
pub struct ExDxgiFormat(ddsfile::DxgiFormat);

/// Whether the external GPU-texture library lists a format code; the
/// lookup depends on the code alone.
pub uninterp spec fn dxgi_code_supported(code: u32) -> bool;

/// Relies on ddsfile::DxgiFormat::from_u32 (the derived lookup over
/// that crate's numeric enum): it returns `Some` for exactly the
/// codes the enum lists.
#[verifier::external_body]
fn dxgi_format_from_u32(code: u32) -> (r: Option<ddsfile::DxgiFormat>)
    ensures
        r is Some <==> dxgi_code_supported(code),
{
    ddsfile::DxgiFormat::from_u32(code)
}

/// The row pitch the GPU-texture library computes for a format code
/// at a width, or `None` when the code is unlisted or the format
/// carries no pitch; a fixed per-format table drives it, so it
/// depends on the two arguments alone.
pub uninterp spec fn dxgi_pitch(code: u32, width: u32) -> Option<u32>;

/// Relies on ddsfile::DxgiFormat::from_u32 and
/// ddsfile::DataFormat::get_pitch: the builder's row pitch for this
/// code and width. The width bound keeps that table's 32-bit
/// bits-per-row product in range.
#[verifier::external_body]
fn dxgi_pitch_of(code: u32, width: u32) -> (r: Option<u32>)
    requires
        width <= 0xffff,
    ensures
        r == dxgi_pitch(code, width),
{
    ddsfile::DxgiFormat::from_u32(code).and_then(|f| ddsfile::DataFormat::get_pitch(&f, width))
}

/// The height of one row of data for a format code: 4 for
/// block-compressed formats, 1 otherwise; depends on the code alone.
pub uninterp spec fn dxgi_pitch_height(code: u32) -> u32;

/// Relies on ddsfile::DataFormat::get_pitch_height (4 when the format
/// has a block size, else 1); an unlisted code is reported as 1.
#[verifier::external_body]
fn dxgi_pitch_height_of(code: u32) -> (r: u32)
    ensures
        r == dxgi_pitch_height(code),
        1 <= r <= 4,
{
    ddsfile::DxgiFormat::from_u32(code).map(
        |f| ddsfile::DataFormat::get_pitch_height(&f),
    ).unwrap_or(1)
}

/// Whether the GPU-texture builder accepts a listed format code: it
/// must be able to compute a pitch and a minimum mip size for it;
/// both are read from the same fixed per-format table, so this
/// depends on the code alone.
pub uninterp spec fn dds_code_buildable(code: u32) -> bool;

/// The number of data rows of a mip: the height, rounded up to whole
/// block rows.
pub open spec fn spec_dds_row_count(code: u32, height: u32) -> int {
    let ph = dxgi_pitch_height(code) as int;
    if ph <= 0 {
        height as int
    } else {
        (height + ph - 1) / ph
    }
}

/// When the builder's 32-bit size arithmetic stays in range: the
/// pitch-times-rows product (computed before the depth factor, so a
/// zero depth does not save it), the full texture size, and the
/// mip-chain stride, whose floor per level is at most 32 bytes (a
/// pixel is at most 255 bits, a block at most 16 bytes) and which
/// sums to at most four thirds of the texture size plus that floor
/// per level.
pub open spec fn spec_dds_arith_ok(
    code: u32,
    width: u32,
    height: u32,
    depth: u32,
    mml: u32,
) -> bool {
    match dxgi_pitch(code, width) {
        None => true,
        Some(p) => {
            let rows = spec_dds_row_count(code, height);
            let size = p * rows * depth;
            &&& p * rows <= 0xffffffff
            &&& size <= 0xffffffff
            &&& 3 * size + 96 * mml <= 2 * 0xffffffff
        },
    }
}

/// Relies on ddsfile::DxgiFormat::from_u32 and ddsfile::Dds::new_dxgi:
/// builds an empty container for the given dimensions, format code,
/// mip count and cubemap flag. The builder fails exactly on a code
/// that is unlisted or whose format lacks pitch information, so
/// success depends on the code alone; the bounds keep its 32-bit
/// size arithmetic (texture size, mip-chain stride) in range.
#[verifier::external_body]
fn dds_build(height: u32, width: u32, depth: u32, code: u32, mml: u32, is_cubemap: bool) -> (r:
    Result<ddsfile::Dds, Error>)
    requires
        width <= 0xffff,
        height <= 0xffff,
        depth <= 0xffff,
        mml <= 0x10000,
        spec_dds_arith_ok(code, width, height, depth, mml),
    ensures
        r is Ok <==> (dxgi_code_supported(code) && dds_code_buildable(code)),
        r matches Err(e) ==> (e == (if !dxgi_code_supported(code) {
            Error::UnsupportedTexFormat(code)
        } else {
            Error::Dds
        })),
{
    let Some(format) = ddsfile::DxgiFormat::from_u32(code) else {
        return Err(Error::UnsupportedTexFormat(code));
    };
    let params = ddsfile::NewDxgiParams {
        height, width, depth: Some(depth), format,
        mipmap_levels: Some(mml), array_layers: None, caps2: None, is_cubemap,
        resource_dimension: ddsfile::D3D10ResourceDimension::Texture2D,
        alpha_mode: ddsfile::AlphaMode::Unknown,
    };
    ddsfile::Dds::new_dxgi(params).map_err(|_| Error::Dds)
}

/// Relies on the `data` field of ddsfile::Dds being the container's
/// pixel buffer: stores the given bytes there. The container is
/// opaque here, so nothing more can be stated of it.
#[verifier::external_body]
fn dds_set_data(dds: &mut ddsfile::Dds, data: Vec<u8>) {
    dds.data = data;
}

/// The sum of the logical lengths of the first `k` mips.
pub open spec fn spec_pixel_total(mips: Seq<MipData>, k: int) -> int
    decreases k,
{
    if k <= 0 {
        0int
    } else {
        spec_pixel_total(mips, k - 1) + mips[k - 1].spec_logical_len()
    }
}

/// One mip's logical bytes: the decompressed form of a
/// tile-compressed payload, the raw bytes otherwise.
pub open spec fn spec_logical_bytes(m: MipData) -> Seq<u8> {
    if m.is_gdeflate {
        crate::gdf::spec_decompressed_bytes(m.texture_data@)
    } else {
        m.texture_data@
    }
}

/// The concatenated logical bytes of the first `k` mips, in table
/// order.
pub open spec fn spec_pixel_cat(mips: Seq<MipData>, k: int) -> Seq<u8>
    decreases k,
{
    if k <= 0 {
        Seq::<u8>::empty()
    } else {
        spec_pixel_cat(mips, k - 1) + spec_logical_bytes(mips[k - 1])
    }
}

impl Tex {
    /// The concatenated logical pixel bytes of the first
    /// `mipmap_count` mips, in ascending mip order; every selected
    /// tile-compressed mip is decompressed through one shared decoder,
    /// which is acquired only when some selected mip needs it. With no
    /// tile-compressed mip among those selected, success is owed.
    pub fn dds_pixel_data(&self, mipmap_count: usize) -> (r: Result<Vec<u8>, Error>)
        ensures
            mipmap_count > self.mip_datas@.len() ==> r == Err::<Vec<u8>, Error>(Error::Internal),
            r matches Ok(d) ==> mipmap_count <= self.mip_datas@.len() && d@.len()
                == spec_pixel_total(self.mip_datas@, mipmap_count as int),
            r matches Ok(d) ==> d@ == spec_pixel_cat(self.mip_datas@, mipmap_count as int),
            (mipmap_count <= self.mip_datas@.len() && (forall|j: int|
                0 <= j < mipmap_count ==> !(#[trigger] self.mip_datas@[j]).is_gdeflate)) ==> r
                is Ok,
            r matches Err(e) ==> (e == Error::Internal && mipmap_count > self.mip_datas@.len())
                || e == Error::GDeflate(DecompressionError::DecompressorCreationFailed) || (e
                == Error::GDeflate(DecompressionError::BadData) && (exists|i: int|
                0 <= i < mipmap_count && (#[trigger] self.mip_datas@[i]).is_gdeflate
                    && !crate::gdf::spec_tile_container_wf(self.mip_datas@[i].texture_data@))),
    {
        let ghost mips = self.mip_datas@;
        if mipmap_count > self.mip_datas.len() {
            return Err(Error::Internal);
        }
        let mut has_compressed = false;
        let mut i: usize = 0;
        while i < mipmap_count
            invariant
                mips == self.mip_datas@,
                mipmap_count <= mips.len(),
                i <= mipmap_count,
                has_compressed == exists|j: int|
                    0 <= j < i && (#[trigger] mips[j]).is_gdeflate,
            decreases mipmap_count - i,
        {
            if self.mip_datas[i].is_compressed() {
                has_compressed = true;
            }
            i = i + 1;
        }
        let mut out: Vec<u8> = Vec::new();
        if !has_compressed {
            let mut i: usize = 0;
            while i < mipmap_count
                invariant
                    mips == self.mip_datas@,
                    mipmap_count <= mips.len(),
                    i <= mipmap_count,
                    forall|j: int| 0 <= j < mipmap_count ==> !(#[trigger] mips[j]).is_gdeflate,
                    out@.len() == spec_pixel_total(mips, i as int),
                    out@ == spec_pixel_cat(mips, i as int),
                decreases mipmap_count - i,
            {
                let mut db = vstd::slice::slice_to_vec(self.mip_datas[i].texture_data.as_slice());
                out.append(&mut db);
                i = i + 1;
            }
            Ok(out)
        } else {
            let mut decompressor = match GDfDecompressor::new() {
                Ok(d) => d,
                Err(e) => {
                    return Err(Error::GDeflate(e));
                },
            };
            let mut i: usize = 0;
            while i < mipmap_count
                invariant
                    mips == self.mip_datas@,
                    mipmap_count <= mips.len(),
                    i <= mipmap_count,
                    out@.len() == spec_pixel_total(mips, i as int),
                    out@ == spec_pixel_cat(mips, i as int),
                    forall|j: int|
                        0 <= j < i ==> ((#[trigger] mips[j]).is_gdeflate
                            ==> crate::gdf::spec_tile_container_wf(mips[j].texture_data@)),
                decreases mipmap_count - i,
            {
                let mut db = match self.mip_datas[i].uncompressed_data(&mut decompressor) {
                    Ok(d) => d,
                    Err(e) => {
                        return Err(e);
                    },
                };
                out.append(&mut db);
                i = i + 1;
            }
            Ok(out)
        }
    }

    /// Builds the generic GPU-texture container for the first
    /// `mipmap_count` mips: validates the count, maps the format code,
    /// guards the builder's size arithmetic against its real pitch,
    /// builds the container, then assembles and stores the pixel
    /// buffer. Each error identifies its cause; with an in-range
    /// count, a buildable format, in-range sizes and well-formed
    /// mips, only a failure to acquire the entropy decoder can stop
    /// it.
    pub fn to_dds(&self, mipmap_count: usize) -> (r: Result<ddsfile::Dds, Error>)
        ensures
            mipmap_count > self.mip_datas@.len() ==> r == Err::<ddsfile::Dds, Error>(
                Error::Internal,
            ),
            mipmap_count <= self.mip_datas@.len() && !dxgi_code_supported(
                self.header.format.code_spec(),
            ) ==> r == Err::<ddsfile::Dds, Error>(
                Error::UnsupportedTexFormat(self.header.format.code_spec()),
            ),
            r matches Err(e) ==> ({
                let code = self.header.format.code_spec();
                ||| (e == Error::Internal && (mipmap_count > self.mip_datas@.len()
                    || mipmap_count > 0x10000 || !spec_dds_arith_ok(
                    code,
                    self.header.width as u32,
                    self.header.height as u32,
                    self.header.depth as u32,
                    mipmap_count as u32,
                )))
                ||| (e == Error::UnsupportedTexFormat(code) && !dxgi_code_supported(code))
                ||| (e == Error::Dds && !dds_code_buildable(code))
                ||| e == Error::GDeflate(DecompressionError::DecompressorCreationFailed)
                ||| (e == Error::GDeflate(DecompressionError::BadData) && (exists|i: int|
                    0 <= i < mipmap_count && (#[trigger] self.mip_datas@[i]).is_gdeflate
                        && !crate::gdf::spec_tile_container_wf(
                        self.mip_datas@[i].texture_data@,
                    )))
            }),
            ({
                let code = self.header.format.code_spec();
                mipmap_count <= self.mip_datas@.len() && mipmap_count <= 0x10000
                    && dxgi_code_supported(code) && dds_code_buildable(code)
                    && spec_dds_arith_ok(
                    code,
                    self.header.width as u32,
                    self.header.height as u32,
                    self.header.depth as u32,
                    mipmap_count as u32,
                ) && (forall|j: int|
                    0 <= j < mipmap_count ==> !(#[trigger] self.mip_datas@[j]).is_gdeflate)
            }) ==> r is Ok,
    {
        if mipmap_count > self.mip_datas.len() {
            return Err(Error::Internal);
        }
        let code = self.header.format.code();
        if dxgi_format_from_u32(code).is_none() {
            return Err(Error::UnsupportedTexFormat(code));
        }
        let w: u32 = self.header.width as u32;
        let h: u32 = self.header.height as u32;
        let d: u32 = self.header.depth as u32;
        if mipmap_count > 0x10000 {
            // the builder's per-level stride floor would not be covered
            return Err(Error::Internal);
        }
        let mml: u32 = mipmap_count as u32;
        // guard the builder's 32-bit size arithmetic with its own pitch
        if let Some(p) = dxgi_pitch_of(code, w) {
            let ph: u32 = dxgi_pitch_height_of(code);
            let rows: u32 = (h + ph - 1) / ph;
            proof {
                vstd::arithmetic::mul::lemma_mul_upper_bound(
                    p as int,
                    0xffffffff,
                    rows as int,
                    0x10002,
                );
            }
            let p_rows: u64 = (p as u64) * (rows as u64);
            if p_rows > 0xffffffff {
                proof {
                    assert(!spec_dds_arith_ok(code, w, h, d, mml));
                }
                return Err(Error::Internal);
            }
            proof {
                vstd::arithmetic::mul::lemma_mul_upper_bound(
                    p_rows as int,
                    0xffffffff,
                    d as int,
                    0xffff,
                );
            }
            let size: u64 = p_rows * (d as u64);
            if size > 0xffffffff {
                proof {
                    assert(!spec_dds_arith_ok(code, w, h, d, mml));
                }
                return Err(Error::Internal);
            }
            if 3 * size + 96 * (mml as u64) > 2 * 0xffffffff {
                proof {
                    assert(!spec_dds_arith_ok(code, w, h, d, mml));
                }
                return Err(Error::Internal);
            }
        }
        proof {
            assert(spec_dds_arith_ok(code, w, h, d, mml));
        }
        let mut dds = match dds_build(h, w, d, code, mml, self.header.cubemap_marker != 0) {
            Ok(dds) => dds,
            Err(e) => {
                return Err(e);
            },
        };
        let data = match self.dds_pixel_data(mipmap_count) {
            Ok(d) => d,
            Err(e) => {
                return Err(e);
            },
        };
        dds_set_data(&mut dds, data);
        Ok(dds)
    }
}

} // verus!
