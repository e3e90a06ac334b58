//! Codec for the TEX tiled-texture container format: the version-dependent
//! header layout, the fixed-width per-mip metadata tables, the tile-based
//! compression framing used by individual mip payloads, and the validated
//! round-trip between parsed objects and their byte form.

pub mod dds;
pub mod error;
pub mod format;
pub mod gdf;
pub mod rw;
pub mod tex;

pub use error::Error;
pub use format::TexFormat;
pub use tex::{CompressionInfo, MipData, MipEntry, Tex, TexHeader};
