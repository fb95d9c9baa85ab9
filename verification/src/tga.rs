//! Seed loader for minimal uncompressed 24-bit TGA images.
//!
//! The bytes of such a file mark which grid cells start out alive: a cell
//! is alive where the source pixel is pure black. Only the minimal-header
//! variant is handled — no color map, no compression, no alpha — and rows
//! are taken in the order they are stored, with the image centered in the
//! grid. Reading the file from disk is the caller's business; the loader
//! works on the bytes alone.

use vstd::prelude::*;

verus! {

/// Why a byte buffer was rejected as a seed image.
#[derive(Clone, Copy, Debug, PartialEq, Eq)]
pub enum TgaError {
    /// The buffer is too short for its own header or its declared pixels.
    FormatError,
    /// A TGA subtype outside the minimal variant: a color map, a kind other
    /// than uncompressed true-color, or a depth other than 24 bits.
    UnsupportedFormat,
    /// The image is wider or taller than the target grid.
    SizeError,
}

/// Image width declared in the header: little-endian 16-bit field at
/// offset 12.
pub open spec fn tga_width(d: Seq<u8>) -> int {
    d[12] as int + 256 * (d[13] as int)
}

/// Image height declared in the header: little-endian 16-bit field at
/// offset 14.
pub open spec fn tga_height(d: Seq<u8>) -> int {
    d[14] as int + 256 * (d[15] as int)
}

/// First byte of pixel data: the 18-byte header followed by the
/// identification field whose length is byte 0.
pub open spec fn tga_data_start(d: Seq<u8>) -> int {
    18 + d[0] as int
}

/// Column of the grid where the centered image begins.
pub open spec fn tga_x_off(d: Seq<u8>, gw: int) -> int {
    (gw - tga_width(d)) / 2
}

/// Row of the grid where the centered image begins.
pub open spec fn tga_y_off(d: Seq<u8>, gh: int) -> int {
    (gh - tga_height(d)) / 2
}

/// How `Life::load` judges a byte buffer against a grid of `gw` by `gh`
/// cells: `None` means the seed applies, otherwise the error returned.
pub open spec fn tga_verdict(d: Seq<u8>, gw: int, gh: int) -> Option<TgaError> {
    if d.len() < 12 {
        Some(TgaError::FormatError)
    } else if d[1] != 0 {
        Some(TgaError::UnsupportedFormat)
    } else if d[2] != 2 {
        Some(TgaError::UnsupportedFormat)
    } else if d.len() < 17 {
        Some(TgaError::FormatError)
    } else if d[16] != 24 {
        Some(TgaError::UnsupportedFormat)
    } else if d.len() < tga_data_start(d) {
        Some(TgaError::FormatError)
    } else if d.len() - tga_data_start(d) < 3 * tga_width(d) * tga_height(d) {
        Some(TgaError::FormatError)
    } else if tga_width(d) > gw || tga_height(d) > gh {
        Some(TgaError::SizeError)
    } else {
        None
    }
}

/// Whether pixel `i` (row-major in the image) is pure black, that is all
/// three of its color bytes are zero.
pub open spec fn pixel_alive(d: Seq<u8>, i: int) -> bool {
    let s = tga_data_start(d);
    d[s + 3 * i] == 0 && d[s + 3 * i + 1] == 0 && d[s + 3 * i + 2] == 0
}

/// Whether grid cell `j` lies under the centered image.
pub open spec fn in_seed_region(d: Seq<u8>, gw: int, gh: int, j: int) -> bool {
    let x = j % gw;
    let y = j / gw;
    &&& tga_x_off(d, gw) <= x < tga_x_off(d, gw) + tga_width(d)
    &&& tga_y_off(d, gh) <= y < tga_y_off(d, gh) + tga_height(d)
}

/// The image pixel that covers grid cell `j` (meaningful only inside the
/// seed region).
pub open spec fn seed_pixel(d: Seq<u8>, gw: int, gh: int, j: int) -> int {
    (j / gw - tga_y_off(d, gh)) * tga_width(d) + (j % gw - tga_x_off(d, gw))
}

/// Value of grid cell `j` once the first `k` pixels of the image have been
/// applied: a cell under an already-applied pixel takes the pixel's
/// aliveness, every other cell keeps its prior value.
pub open spec fn seeded_upto(
    cells: Seq<bool>,
    d: Seq<u8>,
    gw: int,
    gh: int,
    k: int,
    j: int,
) -> bool {
    if in_seed_region(d, gw, gh, j) && seed_pixel(d, gw, gh, j) < k {
        pixel_alive(d, seed_pixel(d, gw, gh, j))
    } else {
        cells[j]
    }
}

/// The grid after the whole seed is applied: cells under the centered
/// image take the image's aliveness, all others keep their prior value.
pub open spec fn seeded(cells: Seq<bool>, d: Seq<u8>, gw: int, gh: int) -> Seq<bool> {
    Seq::new(
        cells.len(),
        |j: int| seeded_upto(cells, d, gw, gh, tga_width(d) * tga_height(d), j),
    )
}

} // verus!
