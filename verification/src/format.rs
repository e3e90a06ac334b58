//! The format catalog: every pixel/block format the container may
//! declare, with its numeric code, and its classification as
//! block-compressed, adaptive-block-compressed, or raw-channel.

use vstd::prelude::*;

verus! {

/// Classification of a format family.
#[derive(Debug, Clone)]
pub enum TexFormatFamily {
    Astc { typeless: bool, unorm: bool, srgb: bool },
}

/// A pixel or block format the container may declare.
#[derive(Debug, Clone, Copy, PartialEq, Eq, Hash, Structural)]
pub enum TexFormat {
    A8Unorm,
    Astc10x10Typeless,
    Astc10x10Unorm,
    Astc10x10UnormSrgb,
    Astc10x5Typeless,
    Astc10x5Unorm,
    Astc10x5UnormSrgb,
    Astc10x6Typeless,
    Astc10x6Unorm,
    Astc10x6UnormSrgb,
    Astc10x8Typeless,
    Astc10x8Unorm,
    Astc10x8UnormSrgb,
    Astc12x10Typeless,
    Astc12x10Unorm,
    Astc12x10UnormSrgb,
    Astc12x12Typeless,
    Astc12x12Unorm,
    Astc12x12UnormSrgb,
    Astc4x4Typeless,
    Astc4x4Unorm,
    Astc4x4UnormSrgb,
    Astc5x4Typeless,
    Astc5x4Unorm,
    Astc5x4UnormSrgb,
    Astc5x5Typeless,
    Astc5x5Unorm,
    Astc5x5UnormSrgb,
    Astc6x5Typeless,
    Astc6x5Unorm,
    Astc6x5UnormSrgb,
    Astc6x6Typeless,
    Astc6x6Unorm,
    Astc6x6UnormSrgb,
    Astc8x5Typeless,
    Astc8x5Unorm,
    Astc8x5UnormSrgb,
    Astc8x6Typeless,
    Astc8x6Unorm,
    Astc8x6UnormSrgb,
    Astc8x8Typeless,
    Astc8x8Unorm,
    Astc8x8UnormSrgb,
    B5G5R5A1Unorm,
    B5G6R5Unorm,
    B8G8R8A8Typeless,
    B8G8R8A8Unorm,
    B8G8R8A8UnormSrgb,
    B8G8R8X8Typeless,
    B8G8R8X8Unorm,
    B8G8R8X8UnormSrgb,
    Bc1Typeless,
    Bc1Unorm,
    Bc1UnormSrgb,
    Bc2Typeless,
    Bc2Unorm,
    Bc2UnormSrgb,
    Bc3Typeless,
    Bc3Unorm,
    Bc3UnormSrgb,
    Bc4Typeless,
    Bc4Unorm,
    Bc4Snorm,
    Bc5Typeless,
    Bc5Unorm,
    Bc5Snorm,
    Bc6hTypeless,
    Bc6hUF16,
    Bc6hSF16,
    Bc7Typeless,
    Bc7Unorm,
    Bc7UnormSrgb,
    D16Unorm,
    D24UnormS8Uint,
    D32Float,
    D32FloatS8X24Uint,
    ForceUint,
    G8R8G8B8Unorm,
    R10G10B10A2Typeless,
    R10G10B10A2Uint,
    R10G10B10A2Unorm,
    R10G10B10xrBiasA2Unorm,
    R11G11B10Float,
    R16Float,
    R16G16B16A16Float,
    R16G16B16A16Sint,
    R16G16B16A16Snorm,
    R16G16B16A16Typeless,
    R16G16B16A16Uint,
    R16G16B16A16Unorm,
    R16G16Float,
    R16G16Sint,
    R16G16Snorm,
    R16G16Typeless,
    R16G16Uint,
    R16G16Unorm,
    R16Sint,
    R16Snorm,
    R16Typeless,
    R16Uint,
    R16Unorm,
    R1Unorm,
    R24G8Typeless,
    R24UnormX8Typeless,
    R32Float,
    R32FloatX8X24Typeless,
    R32G32B32A32Float,
    R32G32B32A32Sint,
    R32G32B32A32Typeless,
    R32G32B32A32Uint,
    R32G32B32Float,
    R32G32B32Sint,
    R32G32B32Typeless,
    R32G32B32Uint,
    R32G32Float,
    R32G32Sint,
    R32G32Typeless,
    R32G32Uint,
    R32G8X24Typeless,
    R32Sint,
    R32Typeless,
    R32Uint,
    R8G8B8A8Sint,
    R8G8B8A8Snorm,
    R8G8B8A8Typeless,
    R8G8B8A8Uint,
    R8G8B8A8Unorm,
    R8G8B8A8UnormSrgb,
    R8G8B8G8Unorm,
    R8G8Sint,
    R8G8Snorm,
    R8G8Typeless,
    R8G8Uint,
    R8G8Unorm,
    R8Sint,
    R8Snorm,
    R8Typeless,
    R8Uint,
    R8Unorm,
    R9G9B9E5Sharedexp,
    ViaExtension,
    X24TypelessG8Uint,
    X32TypelessG8X24Uint,
}

impl TexFormat {
    /// The numeric code of this format in the container header.
    pub open spec fn code_spec(self) -> u32 {
        match self {
            TexFormat::A8Unorm => 0x41,
            TexFormat::Astc10x10Typeless => 0x422,
            TexFormat::Astc10x10Unorm => 0x423,
            TexFormat::Astc10x10UnormSrgb => 0x424,
            TexFormat::Astc10x5Typeless => 0x419,
            TexFormat::Astc10x5Unorm => 0x41A,
            TexFormat::Astc10x5UnormSrgb => 0x41B,
            TexFormat::Astc10x6Typeless => 0x41C,
            TexFormat::Astc10x6Unorm => 0x41D,
            TexFormat::Astc10x6UnormSrgb => 0x41E,
            TexFormat::Astc10x8Typeless => 0x41F,
            TexFormat::Astc10x8Unorm => 0x420,
            TexFormat::Astc10x8UnormSrgb => 0x421,
            TexFormat::Astc12x10Typeless => 0x425,
            TexFormat::Astc12x10Unorm => 0x426,
            TexFormat::Astc12x10UnormSrgb => 0x427,
            TexFormat::Astc12x12Typeless => 0x428,
            TexFormat::Astc12x12Unorm => 0x429,
            TexFormat::Astc12x12UnormSrgb => 0x42A,
            TexFormat::Astc4x4Typeless => 0x401,
            TexFormat::Astc4x4Unorm => 0x402,
            TexFormat::Astc4x4UnormSrgb => 0x403,
            TexFormat::Astc5x4Typeless => 0x404,
            TexFormat::Astc5x4Unorm => 0x405,
            TexFormat::Astc5x4UnormSrgb => 0x406,
            TexFormat::Astc5x5Typeless => 0x407,
            TexFormat::Astc5x5Unorm => 0x408,
            TexFormat::Astc5x5UnormSrgb => 0x409,
            TexFormat::Astc6x5Typeless => 0x40A,
            TexFormat::Astc6x5Unorm => 0x40B,
            TexFormat::Astc6x5UnormSrgb => 0x40C,
            TexFormat::Astc6x6Typeless => 0x40D,
            TexFormat::Astc6x6Unorm => 0x40E,
            TexFormat::Astc6x6UnormSrgb => 0x40F,
            TexFormat::Astc8x5Typeless => 0x410,
            TexFormat::Astc8x5Unorm => 0x411,
            TexFormat::Astc8x5UnormSrgb => 0x412,
            TexFormat::Astc8x6Typeless => 0x413,
            TexFormat::Astc8x6Unorm => 0x414,
            TexFormat::Astc8x6UnormSrgb => 0x415,
            TexFormat::Astc8x8Typeless => 0x416,
            TexFormat::Astc8x8Unorm => 0x417,
            TexFormat::Astc8x8UnormSrgb => 0x418,
            TexFormat::B5G5R5A1Unorm => 0x56,
            TexFormat::B5G6R5Unorm => 0x55,
            TexFormat::B8G8R8A8Typeless => 0x5A,
            TexFormat::B8G8R8A8Unorm => 0x57,
            TexFormat::B8G8R8A8UnormSrgb => 0x5B,
            TexFormat::B8G8R8X8Typeless => 0x5C,
            TexFormat::B8G8R8X8Unorm => 0x58,
            TexFormat::B8G8R8X8UnormSrgb => 0x5D,
            TexFormat::Bc1Typeless => 0x46,
            TexFormat::Bc1Unorm => 0x47,
            TexFormat::Bc1UnormSrgb => 0x48,
            TexFormat::Bc2Typeless => 0x49,
            TexFormat::Bc2Unorm => 0x4A,
            TexFormat::Bc2UnormSrgb => 0x4B,
            TexFormat::Bc3Typeless => 0x4C,
            TexFormat::Bc3Unorm => 0x4D,
            TexFormat::Bc3UnormSrgb => 0x4E,
            TexFormat::Bc4Typeless => 0x4F,
            TexFormat::Bc4Unorm => 0x50,
            TexFormat::Bc4Snorm => 0x51,
            TexFormat::Bc5Typeless => 0x52,
            TexFormat::Bc5Unorm => 0x53,
            TexFormat::Bc5Snorm => 0x54,
            TexFormat::Bc6hTypeless => 0x5E,
            TexFormat::Bc6hUF16 => 0x5F,
            TexFormat::Bc6hSF16 => 0x60,
            TexFormat::Bc7Typeless => 0x61,
            TexFormat::Bc7Unorm => 0x62,
            TexFormat::Bc7UnormSrgb => 0x63,
            TexFormat::D16Unorm => 0x37,
            TexFormat::D24UnormS8Uint => 0x2D,
            TexFormat::D32Float => 0x28,
            TexFormat::D32FloatS8X24Uint => 0x14,
            TexFormat::ForceUint => 0x7FFFFFFF,
            TexFormat::G8R8G8B8Unorm => 0x45,
            TexFormat::R10G10B10A2Typeless => 0x17,
            TexFormat::R10G10B10A2Uint => 0x19,
            TexFormat::R10G10B10A2Unorm => 0x18,
            TexFormat::R10G10B10xrBiasA2Unorm => 0x59,
            TexFormat::R11G11B10Float => 0x1A,
            TexFormat::R16Float => 0x36,
            TexFormat::R16G16B16A16Float => 0xA,
            TexFormat::R16G16B16A16Sint => 0xE,
            TexFormat::R16G16B16A16Snorm => 0xD,
            TexFormat::R16G16B16A16Typeless => 0x9,
            TexFormat::R16G16B16A16Uint => 0xC,
            TexFormat::R16G16B16A16Unorm => 0xB,
            TexFormat::R16G16Float => 0x22,
            TexFormat::R16G16Sint => 0x26,
            TexFormat::R16G16Snorm => 0x25,
            TexFormat::R16G16Typeless => 0x21,
            TexFormat::R16G16Uint => 0x24,
            TexFormat::R16G16Unorm => 0x23,
            TexFormat::R16Sint => 0x3B,
            TexFormat::R16Snorm => 0x3A,
            TexFormat::R16Typeless => 0x35,
            TexFormat::R16Uint => 0x39,
            TexFormat::R16Unorm => 0x38,
            TexFormat::R1Unorm => 0x42,
            TexFormat::R24G8Typeless => 0x2C,
            TexFormat::R24UnormX8Typeless => 0x2E,
            TexFormat::R32Float => 0x29,
            TexFormat::R32FloatX8X24Typeless => 0x15,
            TexFormat::R32G32B32A32Float => 0x2,
            TexFormat::R32G32B32A32Sint => 0x4,
            TexFormat::R32G32B32A32Typeless => 0x1,
            TexFormat::R32G32B32A32Uint => 0x3,
            TexFormat::R32G32B32Float => 0x6,
            TexFormat::R32G32B32Sint => 0x8,
            TexFormat::R32G32B32Typeless => 0x5,
            TexFormat::R32G32B32Uint => 0x7,
            TexFormat::R32G32Float => 0x10,
            TexFormat::R32G32Sint => 0x12,
            TexFormat::R32G32Typeless => 0xF,
            TexFormat::R32G32Uint => 0x11,
            TexFormat::R32G8X24Typeless => 0x13,
            TexFormat::R32Sint => 0x2B,
            TexFormat::R32Typeless => 0x27,
            TexFormat::R32Uint => 0x2A,
            TexFormat::R8G8B8A8Sint => 0x20,
            TexFormat::R8G8B8A8Snorm => 0x1F,
            TexFormat::R8G8B8A8Typeless => 0x1B,
            TexFormat::R8G8B8A8Uint => 0x1E,
            TexFormat::R8G8B8A8Unorm => 0x1C,
            TexFormat::R8G8B8A8UnormSrgb => 0x1D,
            TexFormat::R8G8B8G8Unorm => 0x44,
            TexFormat::R8G8Sint => 0x34,
            TexFormat::R8G8Snorm => 0x33,
            TexFormat::R8G8Typeless => 0x30,
            TexFormat::R8G8Uint => 0x32,
            TexFormat::R8G8Unorm => 0x31,
            TexFormat::R8Sint => 0x40,
            TexFormat::R8Snorm => 0x3F,
            TexFormat::R8Typeless => 0x3C,
            TexFormat::R8Uint => 0x3E,
            TexFormat::R8Unorm => 0x3D,
            TexFormat::R9G9B9E5Sharedexp => 0x43,
            TexFormat::ViaExtension => 0x400,
            TexFormat::X24TypelessG8Uint => 0x2F,
            TexFormat::X32TypelessG8X24Uint => 0x16,
        }
    }

    /// Exec counterpart of `code_spec`.
    pub fn code(&self) -> (c: u32)
        ensures
            c == self.code_spec(),
    {
        match self {
            TexFormat::A8Unorm => 0x41,
            TexFormat::Astc10x10Typeless => 0x422,
            TexFormat::Astc10x10Unorm => 0x423,
            TexFormat::Astc10x10UnormSrgb => 0x424,
            TexFormat::Astc10x5Typeless => 0x419,
            TexFormat::Astc10x5Unorm => 0x41A,
            TexFormat::Astc10x5UnormSrgb => 0x41B,
            TexFormat::Astc10x6Typeless => 0x41C,
            TexFormat::Astc10x6Unorm => 0x41D,
            TexFormat::Astc10x6UnormSrgb => 0x41E,
            TexFormat::Astc10x8Typeless => 0x41F,
            TexFormat::Astc10x8Unorm => 0x420,
            TexFormat::Astc10x8UnormSrgb => 0x421,
            TexFormat::Astc12x10Typeless => 0x425,
            TexFormat::Astc12x10Unorm => 0x426,
            TexFormat::Astc12x10UnormSrgb => 0x427,
            TexFormat::Astc12x12Typeless => 0x428,
            TexFormat::Astc12x12Unorm => 0x429,
            TexFormat::Astc12x12UnormSrgb => 0x42A,
            TexFormat::Astc4x4Typeless => 0x401,
            TexFormat::Astc4x4Unorm => 0x402,
            TexFormat::Astc4x4UnormSrgb => 0x403,
            TexFormat::Astc5x4Typeless => 0x404,
            TexFormat::Astc5x4Unorm => 0x405,
            TexFormat::Astc5x4UnormSrgb => 0x406,
            TexFormat::Astc5x5Typeless => 0x407,
            TexFormat::Astc5x5Unorm => 0x408,
            TexFormat::Astc5x5UnormSrgb => 0x409,
            TexFormat::Astc6x5Typeless => 0x40A,
            TexFormat::Astc6x5Unorm => 0x40B,
            TexFormat::Astc6x5UnormSrgb => 0x40C,
            TexFormat::Astc6x6Typeless => 0x40D,
            TexFormat::Astc6x6Unorm => 0x40E,
            TexFormat::Astc6x6UnormSrgb => 0x40F,
            TexFormat::Astc8x5Typeless => 0x410,
            TexFormat::Astc8x5Unorm => 0x411,
            TexFormat::Astc8x5UnormSrgb => 0x412,
            TexFormat::Astc8x6Typeless => 0x413,
            TexFormat::Astc8x6Unorm => 0x414,
            TexFormat::Astc8x6UnormSrgb => 0x415,
            TexFormat::Astc8x8Typeless => 0x416,
            TexFormat::Astc8x8Unorm => 0x417,
            TexFormat::Astc8x8UnormSrgb => 0x418,
            TexFormat::B5G5R5A1Unorm => 0x56,
            TexFormat::B5G6R5Unorm => 0x55,
            TexFormat::B8G8R8A8Typeless => 0x5A,
            TexFormat::B8G8R8A8Unorm => 0x57,
            TexFormat::B8G8R8A8UnormSrgb => 0x5B,
            TexFormat::B8G8R8X8Typeless => 0x5C,
            TexFormat::B8G8R8X8Unorm => 0x58,
            TexFormat::B8G8R8X8UnormSrgb => 0x5D,
            TexFormat::Bc1Typeless => 0x46,
            TexFormat::Bc1Unorm => 0x47,
            TexFormat::Bc1UnormSrgb => 0x48,
            TexFormat::Bc2Typeless => 0x49,
            TexFormat::Bc2Unorm => 0x4A,
            TexFormat::Bc2UnormSrgb => 0x4B,
            TexFormat::Bc3Typeless => 0x4C,
            TexFormat::Bc3Unorm => 0x4D,
            TexFormat::Bc3UnormSrgb => 0x4E,
            TexFormat::Bc4Typeless => 0x4F,
            TexFormat::Bc4Unorm => 0x50,
            TexFormat::Bc4Snorm => 0x51,
            TexFormat::Bc5Typeless => 0x52,
            TexFormat::Bc5Unorm => 0x53,
            TexFormat::Bc5Snorm => 0x54,
            TexFormat::Bc6hTypeless => 0x5E,
            TexFormat::Bc6hUF16 => 0x5F,
            TexFormat::Bc6hSF16 => 0x60,
            TexFormat::Bc7Typeless => 0x61,
            TexFormat::Bc7Unorm => 0x62,
            TexFormat::Bc7UnormSrgb => 0x63,
            TexFormat::D16Unorm => 0x37,
            TexFormat::D24UnormS8Uint => 0x2D,
            TexFormat::D32Float => 0x28,
            TexFormat::D32FloatS8X24Uint => 0x14,
            TexFormat::ForceUint => 0x7FFFFFFF,
            TexFormat::G8R8G8B8Unorm => 0x45,
            TexFormat::R10G10B10A2Typeless => 0x17,
            TexFormat::R10G10B10A2Uint => 0x19,
            TexFormat::R10G10B10A2Unorm => 0x18,
            TexFormat::R10G10B10xrBiasA2Unorm => 0x59,
            TexFormat::R11G11B10Float => 0x1A,
            TexFormat::R16Float => 0x36,
            TexFormat::R16G16B16A16Float => 0xA,
            TexFormat::R16G16B16A16Sint => 0xE,
            TexFormat::R16G16B16A16Snorm => 0xD,
            TexFormat::R16G16B16A16Typeless => 0x9,
            TexFormat::R16G16B16A16Uint => 0xC,
            TexFormat::R16G16B16A16Unorm => 0xB,
            TexFormat::R16G16Float => 0x22,
            TexFormat::R16G16Sint => 0x26,
            TexFormat::R16G16Snorm => 0x25,
            TexFormat::R16G16Typeless => 0x21,
            TexFormat::R16G16Uint => 0x24,
            TexFormat::R16G16Unorm => 0x23,
            TexFormat::R16Sint => 0x3B,
            TexFormat::R16Snorm => 0x3A,
            TexFormat::R16Typeless => 0x35,
            TexFormat::R16Uint => 0x39,
            TexFormat::R16Unorm => 0x38,
            TexFormat::R1Unorm => 0x42,
            TexFormat::R24G8Typeless => 0x2C,
            TexFormat::R24UnormX8Typeless => 0x2E,
            TexFormat::R32Float => 0x29,
            TexFormat::R32FloatX8X24Typeless => 0x15,
            TexFormat::R32G32B32A32Float => 0x2,
            TexFormat::R32G32B32A32Sint => 0x4,
            TexFormat::R32G32B32A32Typeless => 0x1,
            TexFormat::R32G32B32A32Uint => 0x3,
            TexFormat::R32G32B32Float => 0x6,
            TexFormat::R32G32B32Sint => 0x8,
            TexFormat::R32G32B32Typeless => 0x5,
            TexFormat::R32G32B32Uint => 0x7,
            TexFormat::R32G32Float => 0x10,
            TexFormat::R32G32Sint => 0x12,
            TexFormat::R32G32Typeless => 0xF,
            TexFormat::R32G32Uint => 0x11,
            TexFormat::R32G8X24Typeless => 0x13,
            TexFormat::R32Sint => 0x2B,
            TexFormat::R32Typeless => 0x27,
            TexFormat::R32Uint => 0x2A,
            TexFormat::R8G8B8A8Sint => 0x20,
            TexFormat::R8G8B8A8Snorm => 0x1F,
            TexFormat::R8G8B8A8Typeless => 0x1B,
            TexFormat::R8G8B8A8Uint => 0x1E,
            TexFormat::R8G8B8A8Unorm => 0x1C,
            TexFormat::R8G8B8A8UnormSrgb => 0x1D,
            TexFormat::R8G8B8G8Unorm => 0x44,
            TexFormat::R8G8Sint => 0x34,
            TexFormat::R8G8Snorm => 0x33,
            TexFormat::R8G8Typeless => 0x30,
            TexFormat::R8G8Uint => 0x32,
            TexFormat::R8G8Unorm => 0x31,
            TexFormat::R8Sint => 0x40,
            TexFormat::R8Snorm => 0x3F,
            TexFormat::R8Typeless => 0x3C,
            TexFormat::R8Uint => 0x3E,
            TexFormat::R8Unorm => 0x3D,
            TexFormat::R9G9B9E5Sharedexp => 0x43,
            TexFormat::ViaExtension => 0x400,
            TexFormat::X24TypelessG8Uint => 0x2F,
            TexFormat::X32TypelessG8X24Uint => 0x16,
        }
    }

    /// The catalog lookup: the format with the given code, or `None`
    /// when the code names no supported format.
    pub open spec fn spec_from_repr(code: u32) -> Option<TexFormat> {
        match code {
            0x41 => Some(TexFormat::A8Unorm),
            0x422 => Some(TexFormat::Astc10x10Typeless),
            0x423 => Some(TexFormat::Astc10x10Unorm),
            0x424 => Some(TexFormat::Astc10x10UnormSrgb),
            0x419 => Some(TexFormat::Astc10x5Typeless),
            0x41A => Some(TexFormat::Astc10x5Unorm),
            0x41B => Some(TexFormat::Astc10x5UnormSrgb),
            0x41C => Some(TexFormat::Astc10x6Typeless),
            0x41D => Some(TexFormat::Astc10x6Unorm),
            0x41E => Some(TexFormat::Astc10x6UnormSrgb),
            0x41F => Some(TexFormat::Astc10x8Typeless),
            0x420 => Some(TexFormat::Astc10x8Unorm),
            0x421 => Some(TexFormat::Astc10x8UnormSrgb),
            0x425 => Some(TexFormat::Astc12x10Typeless),
            0x426 => Some(TexFormat::Astc12x10Unorm),
            0x427 => Some(TexFormat::Astc12x10UnormSrgb),
            0x428 => Some(TexFormat::Astc12x12Typeless),
            0x429 => Some(TexFormat::Astc12x12Unorm),
            0x42A => Some(TexFormat::Astc12x12UnormSrgb),
            0x401 => Some(TexFormat::Astc4x4Typeless),
            0x402 => Some(TexFormat::Astc4x4Unorm),
            0x403 => Some(TexFormat::Astc4x4UnormSrgb),
            0x404 => Some(TexFormat::Astc5x4Typeless),
            0x405 => Some(TexFormat::Astc5x4Unorm),
            0x406 => Some(TexFormat::Astc5x4UnormSrgb),
            0x407 => Some(TexFormat::Astc5x5Typeless),
            0x408 => Some(TexFormat::Astc5x5Unorm),
            0x409 => Some(TexFormat::Astc5x5UnormSrgb),
            0x40A => Some(TexFormat::Astc6x5Typeless),
            0x40B => Some(TexFormat::Astc6x5Unorm),
            0x40C => Some(TexFormat::Astc6x5UnormSrgb),
            0x40D => Some(TexFormat::Astc6x6Typeless),
            0x40E => Some(TexFormat::Astc6x6Unorm),
            0x40F => Some(TexFormat::Astc6x6UnormSrgb),
            0x410 => Some(TexFormat::Astc8x5Typeless),
            0x411 => Some(TexFormat::Astc8x5Unorm),
            0x412 => Some(TexFormat::Astc8x5UnormSrgb),
            0x413 => Some(TexFormat::Astc8x6Typeless),
            0x414 => Some(TexFormat::Astc8x6Unorm),
            0x415 => Some(TexFormat::Astc8x6UnormSrgb),
            0x416 => Some(TexFormat::Astc8x8Typeless),
            0x417 => Some(TexFormat::Astc8x8Unorm),
            0x418 => Some(TexFormat::Astc8x8UnormSrgb),
            0x56 => Some(TexFormat::B5G5R5A1Unorm),
            0x55 => Some(TexFormat::B5G6R5Unorm),
            0x5A => Some(TexFormat::B8G8R8A8Typeless),
            0x57 => Some(TexFormat::B8G8R8A8Unorm),
            0x5B => Some(TexFormat::B8G8R8A8UnormSrgb),
            0x5C => Some(TexFormat::B8G8R8X8Typeless),
            0x58 => Some(TexFormat::B8G8R8X8Unorm),
            0x5D => Some(TexFormat::B8G8R8X8UnormSrgb),
            0x46 => Some(TexFormat::Bc1Typeless),
            0x47 => Some(TexFormat::Bc1Unorm),
            0x48 => Some(TexFormat::Bc1UnormSrgb),
            0x49 => Some(TexFormat::Bc2Typeless),
            0x4A => Some(TexFormat::Bc2Unorm),
            0x4B => Some(TexFormat::Bc2UnormSrgb),
            0x4C => Some(TexFormat::Bc3Typeless),
            0x4D => Some(TexFormat::Bc3Unorm),
            0x4E => Some(TexFormat::Bc3UnormSrgb),
            0x4F => Some(TexFormat::Bc4Typeless),
            0x50 => Some(TexFormat::Bc4Unorm),
            0x51 => Some(TexFormat::Bc4Snorm),
            0x52 => Some(TexFormat::Bc5Typeless),
            0x53 => Some(TexFormat::Bc5Unorm),
            0x54 => Some(TexFormat::Bc5Snorm),
            0x5E => Some(TexFormat::Bc6hTypeless),
            0x5F => Some(TexFormat::Bc6hUF16),
            0x60 => Some(TexFormat::Bc6hSF16),
            0x61 => Some(TexFormat::Bc7Typeless),
            0x62 => Some(TexFormat::Bc7Unorm),
            0x63 => Some(TexFormat::Bc7UnormSrgb),
            0x37 => Some(TexFormat::D16Unorm),
            0x2D => Some(TexFormat::D24UnormS8Uint),
            0x28 => Some(TexFormat::D32Float),
            0x14 => Some(TexFormat::D32FloatS8X24Uint),
            0x7FFFFFFF => Some(TexFormat::ForceUint),
            0x45 => Some(TexFormat::G8R8G8B8Unorm),
            0x17 => Some(TexFormat::R10G10B10A2Typeless),
            0x19 => Some(TexFormat::R10G10B10A2Uint),
            0x18 => Some(TexFormat::R10G10B10A2Unorm),
            0x59 => Some(TexFormat::R10G10B10xrBiasA2Unorm),
            0x1A => Some(TexFormat::R11G11B10Float),
            0x36 => Some(TexFormat::R16Float),
            0xA => Some(TexFormat::R16G16B16A16Float),
            0xE => Some(TexFormat::R16G16B16A16Sint),
            0xD => Some(TexFormat::R16G16B16A16Snorm),
            0x9 => Some(TexFormat::R16G16B16A16Typeless),
            0xC => Some(TexFormat::R16G16B16A16Uint),
            0xB => Some(TexFormat::R16G16B16A16Unorm),
            0x22 => Some(TexFormat::R16G16Float),
            0x26 => Some(TexFormat::R16G16Sint),
            0x25 => Some(TexFormat::R16G16Snorm),
            0x21 => Some(TexFormat::R16G16Typeless),
            0x24 => Some(TexFormat::R16G16Uint),
            0x23 => Some(TexFormat::R16G16Unorm),
            0x3B => Some(TexFormat::R16Sint),
            0x3A => Some(TexFormat::R16Snorm),
            0x35 => Some(TexFormat::R16Typeless),
            0x39 => Some(TexFormat::R16Uint),
            0x38 => Some(TexFormat::R16Unorm),
            0x42 => Some(TexFormat::R1Unorm),
            0x2C => Some(TexFormat::R24G8Typeless),
            0x2E => Some(TexFormat::R24UnormX8Typeless),
            0x29 => Some(TexFormat::R32Float),
            0x15 => Some(TexFormat::R32FloatX8X24Typeless),
            0x2 => Some(TexFormat::R32G32B32A32Float),
            0x4 => Some(TexFormat::R32G32B32A32Sint),
            0x1 => Some(TexFormat::R32G32B32A32Typeless),
            0x3 => Some(TexFormat::R32G32B32A32Uint),
            0x6 => Some(TexFormat::R32G32B32Float),
            0x8 => Some(TexFormat::R32G32B32Sint),
            0x5 => Some(TexFormat::R32G32B32Typeless),
            0x7 => Some(TexFormat::R32G32B32Uint),
            0x10 => Some(TexFormat::R32G32Float),
            0x12 => Some(TexFormat::R32G32Sint),
            0xF => Some(TexFormat::R32G32Typeless),
            0x11 => Some(TexFormat::R32G32Uint),
            0x13 => Some(TexFormat::R32G8X24Typeless),
            0x2B => Some(TexFormat::R32Sint),
            0x27 => Some(TexFormat::R32Typeless),
            0x2A => Some(TexFormat::R32Uint),
            0x20 => Some(TexFormat::R8G8B8A8Sint),
            0x1F => Some(TexFormat::R8G8B8A8Snorm),
            0x1B => Some(TexFormat::R8G8B8A8Typeless),
            0x1E => Some(TexFormat::R8G8B8A8Uint),
            0x1C => Some(TexFormat::R8G8B8A8Unorm),
            0x1D => Some(TexFormat::R8G8B8A8UnormSrgb),
            0x44 => Some(TexFormat::R8G8B8G8Unorm),
            0x34 => Some(TexFormat::R8G8Sint),
            0x33 => Some(TexFormat::R8G8Snorm),
            0x30 => Some(TexFormat::R8G8Typeless),
            0x32 => Some(TexFormat::R8G8Uint),
            0x31 => Some(TexFormat::R8G8Unorm),
            0x40 => Some(TexFormat::R8Sint),
            0x3F => Some(TexFormat::R8Snorm),
            0x3C => Some(TexFormat::R8Typeless),
            0x3E => Some(TexFormat::R8Uint),
            0x3D => Some(TexFormat::R8Unorm),
            0x43 => Some(TexFormat::R9G9B9E5Sharedexp),
            0x400 => Some(TexFormat::ViaExtension),
            0x2F => Some(TexFormat::X24TypelessG8Uint),
            0x16 => Some(TexFormat::X32TypelessG8X24Uint),
            _ => None,
        }
    }

    /// Looks a numeric code up in the catalog.
    pub fn from_repr(code: u32) -> (r: Option<TexFormat>)
        ensures
            r == TexFormat::spec_from_repr(code),
    {
        match code {
            0x41 => Some(TexFormat::A8Unorm),
            0x422 => Some(TexFormat::Astc10x10Typeless),
            0x423 => Some(TexFormat::Astc10x10Unorm),
            0x424 => Some(TexFormat::Astc10x10UnormSrgb),
            0x419 => Some(TexFormat::Astc10x5Typeless),
            0x41A => Some(TexFormat::Astc10x5Unorm),
            0x41B => Some(TexFormat::Astc10x5UnormSrgb),
            0x41C => Some(TexFormat::Astc10x6Typeless),
            0x41D => Some(TexFormat::Astc10x6Unorm),
            0x41E => Some(TexFormat::Astc10x6UnormSrgb),
            0x41F => Some(TexFormat::Astc10x8Typeless),
            0x420 => Some(TexFormat::Astc10x8Unorm),
            0x421 => Some(TexFormat::Astc10x8UnormSrgb),
            0x425 => Some(TexFormat::Astc12x10Typeless),
            0x426 => Some(TexFormat::Astc12x10Unorm),
            0x427 => Some(TexFormat::Astc12x10UnormSrgb),
            0x428 => Some(TexFormat::Astc12x12Typeless),
            0x429 => Some(TexFormat::Astc12x12Unorm),
            0x42A => Some(TexFormat::Astc12x12UnormSrgb),
            0x401 => Some(TexFormat::Astc4x4Typeless),
            0x402 => Some(TexFormat::Astc4x4Unorm),
            0x403 => Some(TexFormat::Astc4x4UnormSrgb),
            0x404 => Some(TexFormat::Astc5x4Typeless),
            0x405 => Some(TexFormat::Astc5x4Unorm),
            0x406 => Some(TexFormat::Astc5x4UnormSrgb),
            0x407 => Some(TexFormat::Astc5x5Typeless),
            0x408 => Some(TexFormat::Astc5x5Unorm),
            0x409 => Some(TexFormat::Astc5x5UnormSrgb),
            0x40A => Some(TexFormat::Astc6x5Typeless),
            0x40B => Some(TexFormat::Astc6x5Unorm),
            0x40C => Some(TexFormat::Astc6x5UnormSrgb),
            0x40D => Some(TexFormat::Astc6x6Typeless),
            0x40E => Some(TexFormat::Astc6x6Unorm),
            0x40F => Some(TexFormat::Astc6x6UnormSrgb),
            0x410 => Some(TexFormat::Astc8x5Typeless),
            0x411 => Some(TexFormat::Astc8x5Unorm),
            0x412 => Some(TexFormat::Astc8x5UnormSrgb),
            0x413 => Some(TexFormat::Astc8x6Typeless),
            0x414 => Some(TexFormat::Astc8x6Unorm),
            0x415 => Some(TexFormat::Astc8x6UnormSrgb),
            0x416 => Some(TexFormat::Astc8x8Typeless),
            0x417 => Some(TexFormat::Astc8x8Unorm),
            0x418 => Some(TexFormat::Astc8x8UnormSrgb),
            0x56 => Some(TexFormat::B5G5R5A1Unorm),
            0x55 => Some(TexFormat::B5G6R5Unorm),
            0x5A => Some(TexFormat::B8G8R8A8Typeless),
            0x57 => Some(TexFormat::B8G8R8A8Unorm),
            0x5B => Some(TexFormat::B8G8R8A8UnormSrgb),
            0x5C => Some(TexFormat::B8G8R8X8Typeless),
            0x58 => Some(TexFormat::B8G8R8X8Unorm),
            0x5D => Some(TexFormat::B8G8R8X8UnormSrgb),
            0x46 => Some(TexFormat::Bc1Typeless),
            0x47 => Some(TexFormat::Bc1Unorm),
            0x48 => Some(TexFormat::Bc1UnormSrgb),
            0x49 => Some(TexFormat::Bc2Typeless),
            0x4A => Some(TexFormat::Bc2Unorm),
            0x4B => Some(TexFormat::Bc2UnormSrgb),
            0x4C => Some(TexFormat::Bc3Typeless),
            0x4D => Some(TexFormat::Bc3Unorm),
            0x4E => Some(TexFormat::Bc3UnormSrgb),
            0x4F => Some(TexFormat::Bc4Typeless),
            0x50 => Some(TexFormat::Bc4Unorm),
            0x51 => Some(TexFormat::Bc4Snorm),
            0x52 => Some(TexFormat::Bc5Typeless),
            0x53 => Some(TexFormat::Bc5Unorm),
            0x54 => Some(TexFormat::Bc5Snorm),
            0x5E => Some(TexFormat::Bc6hTypeless),
            0x5F => Some(TexFormat::Bc6hUF16),
            0x60 => Some(TexFormat::Bc6hSF16),
            0x61 => Some(TexFormat::Bc7Typeless),
            0x62 => Some(TexFormat::Bc7Unorm),
            0x63 => Some(TexFormat::Bc7UnormSrgb),
            0x37 => Some(TexFormat::D16Unorm),
            0x2D => Some(TexFormat::D24UnormS8Uint),
            0x28 => Some(TexFormat::D32Float),
            0x14 => Some(TexFormat::D32FloatS8X24Uint),
            0x7FFFFFFF => Some(TexFormat::ForceUint),
            0x45 => Some(TexFormat::G8R8G8B8Unorm),
            0x17 => Some(TexFormat::R10G10B10A2Typeless),
            0x19 => Some(TexFormat::R10G10B10A2Uint),
            0x18 => Some(TexFormat::R10G10B10A2Unorm),
            0x59 => Some(TexFormat::R10G10B10xrBiasA2Unorm),
            0x1A => Some(TexFormat::R11G11B10Float),
            0x36 => Some(TexFormat::R16Float),
            0xA => Some(TexFormat::R16G16B16A16Float),
            0xE => Some(TexFormat::R16G16B16A16Sint),
            0xD => Some(TexFormat::R16G16B16A16Snorm),
            0x9 => Some(TexFormat::R16G16B16A16Typeless),
            0xC => Some(TexFormat::R16G16B16A16Uint),
            0xB => Some(TexFormat::R16G16B16A16Unorm),
            0x22 => Some(TexFormat::R16G16Float),
            0x26 => Some(TexFormat::R16G16Sint),
            0x25 => Some(TexFormat::R16G16Snorm),
            0x21 => Some(TexFormat::R16G16Typeless),
            0x24 => Some(TexFormat::R16G16Uint),
            0x23 => Some(TexFormat::R16G16Unorm),
            0x3B => Some(TexFormat::R16Sint),
            0x3A => Some(TexFormat::R16Snorm),
            0x35 => Some(TexFormat::R16Typeless),
            0x39 => Some(TexFormat::R16Uint),
            0x38 => Some(TexFormat::R16Unorm),
            0x42 => Some(TexFormat::R1Unorm),
            0x2C => Some(TexFormat::R24G8Typeless),
            0x2E => Some(TexFormat::R24UnormX8Typeless),
            0x29 => Some(TexFormat::R32Float),
            0x15 => Some(TexFormat::R32FloatX8X24Typeless),
            0x2 => Some(TexFormat::R32G32B32A32Float),
            0x4 => Some(TexFormat::R32G32B32A32Sint),
            0x1 => Some(TexFormat::R32G32B32A32Typeless),
            0x3 => Some(TexFormat::R32G32B32A32Uint),
            0x6 => Some(TexFormat::R32G32B32Float),
            0x8 => Some(TexFormat::R32G32B32Sint),
            0x5 => Some(TexFormat::R32G32B32Typeless),
            0x7 => Some(TexFormat::R32G32B32Uint),
            0x10 => Some(TexFormat::R32G32Float),
            0x12 => Some(TexFormat::R32G32Sint),
            0xF => Some(TexFormat::R32G32Typeless),
            0x11 => Some(TexFormat::R32G32Uint),
            0x13 => Some(TexFormat::R32G8X24Typeless),
            0x2B => Some(TexFormat::R32Sint),
            0x27 => Some(TexFormat::R32Typeless),
            0x2A => Some(TexFormat::R32Uint),
            0x20 => Some(TexFormat::R8G8B8A8Sint),
            0x1F => Some(TexFormat::R8G8B8A8Snorm),
            0x1B => Some(TexFormat::R8G8B8A8Typeless),
            0x1E => Some(TexFormat::R8G8B8A8Uint),
            0x1C => Some(TexFormat::R8G8B8A8Unorm),
            0x1D => Some(TexFormat::R8G8B8A8UnormSrgb),
            0x44 => Some(TexFormat::R8G8B8G8Unorm),
            0x34 => Some(TexFormat::R8G8Sint),
            0x33 => Some(TexFormat::R8G8Snorm),
            0x30 => Some(TexFormat::R8G8Typeless),
            0x32 => Some(TexFormat::R8G8Uint),
            0x31 => Some(TexFormat::R8G8Unorm),
            0x40 => Some(TexFormat::R8Sint),
            0x3F => Some(TexFormat::R8Snorm),
            0x3C => Some(TexFormat::R8Typeless),
            0x3E => Some(TexFormat::R8Uint),
            0x3D => Some(TexFormat::R8Unorm),
            0x43 => Some(TexFormat::R9G9B9E5Sharedexp),
            0x400 => Some(TexFormat::ViaExtension),
            0x2F => Some(TexFormat::X24TypelessG8Uint),
            0x16 => Some(TexFormat::X32TypelessG8X24Uint),
            _ => None,
        }
    }

    /// Law: the catalog is one to one; looking a format's own code up
    /// gives that format back.
    pub proof fn lemma_code_from_repr(self)
        ensures
            TexFormat::spec_from_repr(self.code_spec()) == Some(self),
    {
    }

    /// Law: a successful catalog lookup yields the format whose own
    /// code is the code that was looked up.
    pub proof fn lemma_from_repr_code(code: u32)
        ensures
            TexFormat::spec_from_repr(code) matches Some(f) ==> f.code_spec() == code,
    {
    }

    /// Whether this format is an adaptive-block-compressed one: its
    /// code carries the adaptive-block bit.
    pub fn is_astc(&self) -> (r: bool)
        ensures
            r == (self.code_spec() & 0x400 != 0),
    {
        self.code() & 0x400 != 0
    }

    /// Whether this format is a block-compressed one: its code lies
    /// in the block-compressed band of the catalog.
    pub fn is_bc(&self) -> (r: bool)
        ensures
            r == (0x46 <= self.code_spec() && self.code_spec() <= 0x63),
    {
        let val = self.code();
        0x46 <= val && val <= 0x63
    }

    /// Whether this format stores raw channel data rather than
    /// compressed blocks.
    pub open spec fn is_rgb_spec(self) -> bool {
        match self {
            TexFormat::A8Unorm => true,
            TexFormat::Astc10x10Typeless => false,
            TexFormat::Astc10x10Unorm => false,
            TexFormat::Astc10x10UnormSrgb => false,
            TexFormat::Astc10x5Typeless => false,
            TexFormat::Astc10x5Unorm => false,
            TexFormat::Astc10x5UnormSrgb => false,
            TexFormat::Astc10x6Typeless => false,
            TexFormat::Astc10x6Unorm => false,
            TexFormat::Astc10x6UnormSrgb => false,
            TexFormat::Astc10x8Typeless => false,
            TexFormat::Astc10x8Unorm => false,
            TexFormat::Astc10x8UnormSrgb => false,
            TexFormat::Astc12x10Typeless => false,
            TexFormat::Astc12x10Unorm => false,
            TexFormat::Astc12x10UnormSrgb => false,
            TexFormat::Astc12x12Typeless => false,
            TexFormat::Astc12x12Unorm => false,
            TexFormat::Astc12x12UnormSrgb => false,
            TexFormat::Astc4x4Typeless => false,
            TexFormat::Astc4x4Unorm => false,
            TexFormat::Astc4x4UnormSrgb => false,
            TexFormat::Astc5x4Typeless => false,
            TexFormat::Astc5x4Unorm => false,
            TexFormat::Astc5x4UnormSrgb => false,
            TexFormat::Astc5x5Typeless => false,
            TexFormat::Astc5x5Unorm => false,
            TexFormat::Astc5x5UnormSrgb => false,
            TexFormat::Astc6x5Typeless => false,
            TexFormat::Astc6x5Unorm => false,
            TexFormat::Astc6x5UnormSrgb => false,
            TexFormat::Astc6x6Typeless => false,
            TexFormat::Astc6x6Unorm => false,
            TexFormat::Astc6x6UnormSrgb => false,
            TexFormat::Astc8x5Typeless => false,
            TexFormat::Astc8x5Unorm => false,
            TexFormat::Astc8x5UnormSrgb => false,
            TexFormat::Astc8x6Typeless => false,
            TexFormat::Astc8x6Unorm => false,
            TexFormat::Astc8x6UnormSrgb => false,
            TexFormat::Astc8x8Typeless => false,
            TexFormat::Astc8x8Unorm => false,
            TexFormat::Astc8x8UnormSrgb => false,
            TexFormat::B5G5R5A1Unorm => true,
            TexFormat::B5G6R5Unorm => true,
            TexFormat::B8G8R8A8Typeless => true,
            TexFormat::B8G8R8A8Unorm => true,
            TexFormat::B8G8R8A8UnormSrgb => true,
            TexFormat::B8G8R8X8Typeless => true,
            TexFormat::B8G8R8X8Unorm => true,
            TexFormat::B8G8R8X8UnormSrgb => true,
            TexFormat::Bc1Typeless => false,
            TexFormat::Bc1Unorm => false,
            TexFormat::Bc1UnormSrgb => false,
            TexFormat::Bc2Typeless => false,
            TexFormat::Bc2Unorm => false,
            TexFormat::Bc2UnormSrgb => false,
            TexFormat::Bc3Typeless => false,
            TexFormat::Bc3Unorm => false,
            TexFormat::Bc3UnormSrgb => false,
            TexFormat::Bc4Typeless => false,
            TexFormat::Bc4Unorm => false,
            TexFormat::Bc4Snorm => false,
            TexFormat::Bc5Typeless => false,
            TexFormat::Bc5Unorm => false,
            TexFormat::Bc5Snorm => false,
            TexFormat::Bc6hTypeless => false,
            TexFormat::Bc6hUF16 => false,
            TexFormat::Bc6hSF16 => false,
            TexFormat::Bc7Typeless => false,
            TexFormat::Bc7Unorm => false,
            TexFormat::Bc7UnormSrgb => false,
            TexFormat::D16Unorm => false,
            TexFormat::D24UnormS8Uint => false,
            TexFormat::D32Float => false,
            TexFormat::D32FloatS8X24Uint => false,
            TexFormat::ForceUint => false,
            TexFormat::G8R8G8B8Unorm => true,
            TexFormat::R10G10B10A2Typeless => true,
            TexFormat::R10G10B10A2Uint => true,
            TexFormat::R10G10B10A2Unorm => true,
            TexFormat::R10G10B10xrBiasA2Unorm => true,
            TexFormat::R11G11B10Float => true,
            TexFormat::R16Float => true,
            TexFormat::R16G16B16A16Float => true,
            TexFormat::R16G16B16A16Sint => true,
            TexFormat::R16G16B16A16Snorm => true,
            TexFormat::R16G16B16A16Typeless => true,
            TexFormat::R16G16B16A16Uint => true,
            TexFormat::R16G16B16A16Unorm => true,
            TexFormat::R16G16Float => true,
            TexFormat::R16G16Sint => true,
            TexFormat::R16G16Snorm => true,
            TexFormat::R16G16Typeless => true,
            TexFormat::R16G16Uint => true,
            TexFormat::R16G16Unorm => true,
            TexFormat::R16Sint => true,
            TexFormat::R16Snorm => true,
            TexFormat::R16Typeless => true,
            TexFormat::R16Uint => true,
            TexFormat::R16Unorm => true,
            TexFormat::R1Unorm => true,
            TexFormat::R24G8Typeless => true,
            TexFormat::R24UnormX8Typeless => true,
            TexFormat::R32Float => true,
            TexFormat::R32FloatX8X24Typeless => true,
            TexFormat::R32G32B32A32Float => true,
            TexFormat::R32G32B32A32Sint => true,
            TexFormat::R32G32B32A32Typeless => true,
            TexFormat::R32G32B32A32Uint => true,
            TexFormat::R32G32B32Float => true,
            TexFormat::R32G32B32Sint => true,
            TexFormat::R32G32B32Typeless => true,
            TexFormat::R32G32B32Uint => true,
            TexFormat::R32G32Float => true,
            TexFormat::R32G32Sint => true,
            TexFormat::R32G32Typeless => true,
            TexFormat::R32G32Uint => true,
            TexFormat::R32G8X24Typeless => true,
            TexFormat::R32Sint => true,
            TexFormat::R32Typeless => true,
            TexFormat::R32Uint => true,
            TexFormat::R8G8B8A8Sint => true,
            TexFormat::R8G8B8A8Snorm => true,
            TexFormat::R8G8B8A8Typeless => true,
            TexFormat::R8G8B8A8Uint => true,
            TexFormat::R8G8B8A8Unorm => true,
            TexFormat::R8G8B8A8UnormSrgb => true,
            TexFormat::R8G8B8G8Unorm => true,
            TexFormat::R8G8Sint => true,
            TexFormat::R8G8Snorm => true,
            TexFormat::R8G8Typeless => true,
            TexFormat::R8G8Uint => true,
            TexFormat::R8G8Unorm => true,
            TexFormat::R8Sint => true,
            TexFormat::R8Snorm => true,
            TexFormat::R8Typeless => true,
            TexFormat::R8Uint => true,
            TexFormat::R8Unorm => true,
            TexFormat::R9G9B9E5Sharedexp => false,
            TexFormat::ViaExtension => false,
            TexFormat::X24TypelessG8Uint => false,
            TexFormat::X32TypelessG8X24Uint => false,
        }
    }

    /// Exec counterpart of `is_rgb_spec`.
    pub fn is_rgb(&self) -> (r: bool)
        ensures
            r == self.is_rgb_spec(),
    {
        match self {
            TexFormat::A8Unorm => true,
            TexFormat::Astc10x10Typeless => false,
            TexFormat::Astc10x10Unorm => false,
            TexFormat::Astc10x10UnormSrgb => false,
            TexFormat::Astc10x5Typeless => false,
            TexFormat::Astc10x5Unorm => false,
            TexFormat::Astc10x5UnormSrgb => false,
            TexFormat::Astc10x6Typeless => false,
            TexFormat::Astc10x6Unorm => false,
            TexFormat::Astc10x6UnormSrgb => false,
            TexFormat::Astc10x8Typeless => false,
            TexFormat::Astc10x8Unorm => false,
            TexFormat::Astc10x8UnormSrgb => false,
            TexFormat::Astc12x10Typeless => false,
            TexFormat::Astc12x10Unorm => false,
            TexFormat::Astc12x10UnormSrgb => false,
            TexFormat::Astc12x12Typeless => false,
            TexFormat::Astc12x12Unorm => false,
            TexFormat::Astc12x12UnormSrgb => false,
            TexFormat::Astc4x4Typeless => false,
            TexFormat::Astc4x4Unorm => false,
            TexFormat::Astc4x4UnormSrgb => false,
            TexFormat::Astc5x4Typeless => false,
            TexFormat::Astc5x4Unorm => false,
            TexFormat::Astc5x4UnormSrgb => false,
            TexFormat::Astc5x5Typeless => false,
            TexFormat::Astc5x5Unorm => false,
            TexFormat::Astc5x5UnormSrgb => false,
            TexFormat::Astc6x5Typeless => false,
            TexFormat::Astc6x5Unorm => false,
            TexFormat::Astc6x5UnormSrgb => false,
            TexFormat::Astc6x6Typeless => false,
            TexFormat::Astc6x6Unorm => false,
            TexFormat::Astc6x6UnormSrgb => false,
            TexFormat::Astc8x5Typeless => false,
            TexFormat::Astc8x5Unorm => false,
            TexFormat::Astc8x5UnormSrgb => false,
            TexFormat::Astc8x6Typeless => false,
            TexFormat::Astc8x6Unorm => false,
            TexFormat::Astc8x6UnormSrgb => false,
            TexFormat::Astc8x8Typeless => false,
            TexFormat::Astc8x8Unorm => false,
            TexFormat::Astc8x8UnormSrgb => false,
            TexFormat::B5G5R5A1Unorm => true,
            TexFormat::B5G6R5Unorm => true,
            TexFormat::B8G8R8A8Typeless => true,
            TexFormat::B8G8R8A8Unorm => true,
            TexFormat::B8G8R8A8UnormSrgb => true,
            TexFormat::B8G8R8X8Typeless => true,
            TexFormat::B8G8R8X8Unorm => true,
            TexFormat::B8G8R8X8UnormSrgb => true,
            TexFormat::Bc1Typeless => false,
            TexFormat::Bc1Unorm => false,
            TexFormat::Bc1UnormSrgb => false,
            TexFormat::Bc2Typeless => false,
            TexFormat::Bc2Unorm => false,
            TexFormat::Bc2UnormSrgb => false,
            TexFormat::Bc3Typeless => false,
            TexFormat::Bc3Unorm => false,
            TexFormat::Bc3UnormSrgb => false,
            TexFormat::Bc4Typeless => false,
            TexFormat::Bc4Unorm => false,
            TexFormat::Bc4Snorm => false,
            TexFormat::Bc5Typeless => false,
            TexFormat::Bc5Unorm => false,
            TexFormat::Bc5Snorm => false,
            TexFormat::Bc6hTypeless => false,
            TexFormat::Bc6hUF16 => false,
            TexFormat::Bc6hSF16 => false,
            TexFormat::Bc7Typeless => false,
            TexFormat::Bc7Unorm => false,
            TexFormat::Bc7UnormSrgb => false,
            TexFormat::D16Unorm => false,
            TexFormat::D24UnormS8Uint => false,
            TexFormat::D32Float => false,
            TexFormat::D32FloatS8X24Uint => false,
            TexFormat::ForceUint => false,
            TexFormat::G8R8G8B8Unorm => true,
            TexFormat::R10G10B10A2Typeless => true,
            TexFormat::R10G10B10A2Uint => true,
            TexFormat::R10G10B10A2Unorm => true,
            TexFormat::R10G10B10xrBiasA2Unorm => true,
            TexFormat::R11G11B10Float => true,
            TexFormat::R16Float => true,
            TexFormat::R16G16B16A16Float => true,
            TexFormat::R16G16B16A16Sint => true,
            TexFormat::R16G16B16A16Snorm => true,
            TexFormat::R16G16B16A16Typeless => true,
            TexFormat::R16G16B16A16Uint => true,
            TexFormat::R16G16B16A16Unorm => true,
            TexFormat::R16G16Float => true,
            TexFormat::R16G16Sint => true,
            TexFormat::R16G16Snorm => true,
            TexFormat::R16G16Typeless => true,
            TexFormat::R16G16Uint => true,
            TexFormat::R16G16Unorm => true,
            TexFormat::R16Sint => true,
            TexFormat::R16Snorm => true,
            TexFormat::R16Typeless => true,
            TexFormat::R16Uint => true,
            TexFormat::R16Unorm => true,
            TexFormat::R1Unorm => true,
            TexFormat::R24G8Typeless => true,
            TexFormat::R24UnormX8Typeless => true,
            TexFormat::R32Float => true,
            TexFormat::R32FloatX8X24Typeless => true,
            TexFormat::R32G32B32A32Float => true,
            TexFormat::R32G32B32A32Sint => true,
            TexFormat::R32G32B32A32Typeless => true,
            TexFormat::R32G32B32A32Uint => true,
            TexFormat::R32G32B32Float => true,
            TexFormat::R32G32B32Sint => true,
            TexFormat::R32G32B32Typeless => true,
            TexFormat::R32G32B32Uint => true,
            TexFormat::R32G32Float => true,
            TexFormat::R32G32Sint => true,
            TexFormat::R32G32Typeless => true,
            TexFormat::R32G32Uint => true,
            TexFormat::R32G8X24Typeless => true,
            TexFormat::R32Sint => true,
            TexFormat::R32Typeless => true,
            TexFormat::R32Uint => true,
            TexFormat::R8G8B8A8Sint => true,
            TexFormat::R8G8B8A8Snorm => true,
            TexFormat::R8G8B8A8Typeless => true,
            TexFormat::R8G8B8A8Uint => true,
            TexFormat::R8G8B8A8Unorm => true,
            TexFormat::R8G8B8A8UnormSrgb => true,
            TexFormat::R8G8B8G8Unorm => true,
            TexFormat::R8G8Sint => true,
            TexFormat::R8G8Snorm => true,
            TexFormat::R8G8Typeless => true,
            TexFormat::R8G8Uint => true,
            TexFormat::R8G8Unorm => true,
            TexFormat::R8Sint => true,
            TexFormat::R8Snorm => true,
            TexFormat::R8Typeless => true,
            TexFormat::R8Uint => true,
            TexFormat::R8Unorm => true,
            TexFormat::R9G9B9E5Sharedexp => false,
            TexFormat::ViaExtension => false,
            TexFormat::X24TypelessG8Uint => false,
            TexFormat::X32TypelessG8X24Uint => false,
        }
    }
}

} // verus!
