//! The reading position kept for a document: its page and zoom.

use vstd::prelude::*;

verus! {

/// The bit pattern of the `f32` value `1.0`, the zoom of a fresh document.
pub const DEFAULT_ZOOM_BITS: u32 = 0x3f80_0000;

/// Reading position of a document.
///
/// `page` counts from 1. The zoom factor is an `f32`; it is held here by its
/// IEEE-754 bit pattern (`f32::to_bits`), so that it passes through the
/// library unchanged while all arithmetic on it stays with the caller.
#[derive(Clone, Copy, PartialEq, Eq, Structural, Debug)]
pub struct PdfMetadata {
    pub page: usize,
    pub zoom_bits: u32,
}

impl PdfMetadata {
    /// The position of a document opened for the first time: page 1, zoom 1.0.
    pub open spec fn initial() -> PdfMetadata {
        PdfMetadata { page: 1, zoom_bits: DEFAULT_ZOOM_BITS }
    }
}

impl Default for PdfMetadata {
    fn default() -> (r: Self)
        ensures
            r == PdfMetadata::initial(),
    {
        PdfMetadata { page: 1, zoom_bits: DEFAULT_ZOOM_BITS }
    }
}

/// What a caller must write to persist a document's reading position:
/// the metadata, to the file at `path`.
#[derive(PartialEq, Eq, Debug)]
pub struct MetadataSave {
    pub path: String,
    pub metadata: PdfMetadata,
}

/// Why a document's reading position cannot be saved.
#[derive(Clone, Copy, PartialEq, Eq, Structural, Debug)]
pub enum MetadataError {
    /// The document has no metadata file.
    NotConfigured,
}

} // verus!
