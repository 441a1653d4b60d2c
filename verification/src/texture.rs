//! Sizes and memory layouts of textures uploaded to the GPU.
use vstd::prelude::*;

verus! {

/// Extent of a texture in texels.
#[derive(Clone, Copy, Debug, PartialEq, Eq, Structural)]
pub struct Extent3d {
    pub width: u32,
    pub height: u32,
    pub depth: u32,
}

/// Where the rows of an RGBA image lie in the data handed to the GPU.
#[derive(Clone, Copy, Debug, PartialEq, Eq, Structural)]
pub struct TextureDataLayout {
    pub offset: u64,
    pub bytes_per_row: u32,
    pub rows_per_image: u32,
}

/// Helpers that describe textures.
#[allow(non_camel_case_types)]
pub struct texture;

impl texture {
    /// The extent of a flat texture of `w` by `h` texels: depth 1.
    pub fn create_texture_size(w: u32, h: u32) -> (size: Extent3d)
        ensures
            size == (Extent3d { width: w, height: h, depth: 1 }),
    {
        Extent3d { width: w, height: h, depth: 1 }
    }

    /// The layout of an RGBA image of `w` by `h` pixels stored row by row:
    /// no offset, `4 * w` bytes per row, `h` rows. The row length must fit
    /// in `u32`.
    pub fn create_texture_data_layout(w: u32, h: u32) -> (layout: TextureDataLayout)
        requires
            4 * w <= u32::MAX,
        ensures
            layout == (TextureDataLayout { offset: 0, bytes_per_row: (4 * w) as u32, rows_per_image: h }),
    {
        TextureDataLayout { offset: 0, bytes_per_row: 4 * w, rows_per_image: h }
    }
}

} // verus!
