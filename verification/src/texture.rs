//! The sampling parameters of the cube's texture.
//!
//! The texture itself is an opaque GPU handle the host owns; the library
//! fixes what is decided about it: a 2D texture whose RGBA image goes to the
//! base mip level, sampled with clamp-to-edge wrapping on both axes and
//! linear filtering for both minification and magnification, no mipmaps.
//! The host sets exactly these parameters when it uploads, and binds the
//! texture only at draw time, to the unit each frame's actions name.

use vstd::prelude::*;

verus! {

/// How out-of-range sample coordinates are treated on one axis.
#[derive(Clone, Copy, Debug, PartialEq, Eq, Structural)]
pub enum WrapMode {
    /// Coordinates are clamped to the nearest edge texel.
    ClampToEdge,
    /// Coordinates repeat the image.
    Repeat,
    /// Coordinates repeat the image, mirrored every other time.
    MirroredRepeat,
}

/// How a sample between texel centers is computed.
#[derive(Clone, Copy, Debug, PartialEq, Eq, Structural)]
pub enum FilterMode {
    /// The four nearest texels are blended.
    Linear,
    /// The nearest texel is taken as is.
    Nearest,
}

/// The complete sampling state given to a texture at upload time.
#[derive(Clone, Copy, Debug, PartialEq, Eq, Structural)]
pub struct TextureParams {
    pub wrap_s: WrapMode,
    pub wrap_t: WrapMode,
    pub min_filter: FilterMode,
    pub mag_filter: FilterMode,
    pub generate_mipmaps: bool,
}

/// The parameters the cube demo always uses: clamp-to-edge on both axes,
/// linear both ways, no mipmap generation.
pub open spec fn demo_texture_params() -> TextureParams {
    TextureParams {
        wrap_s: WrapMode::ClampToEdge,
        wrap_t: WrapMode::ClampToEdge,
        min_filter: FilterMode::Linear,
        mag_filter: FilterMode::Linear,
        generate_mipmaps: false,
    }
}

/// The demo's sampling parameters, as the host takes them at upload time.
pub fn texture_params() -> (p: TextureParams)
    ensures
        p == demo_texture_params(),
{
    TextureParams {
        wrap_s: WrapMode::ClampToEdge,
        wrap_t: WrapMode::ClampToEdge,
        min_filter: FilterMode::Linear,
        mag_filter: FilterMode::Linear,
        generate_mipmaps: false,
    }
}

} // verus!
