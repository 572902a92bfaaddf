//! The custom 2D material and its GPU uniform projection.
//!
//! A material is a colour plus an optional texture.  Whenever the engine
//! uploads it, the material is projected to a fixed-layout uniform record:
//! the colour (converted to linear space by the float pipeline at the GPU
//! boundary) and a flag word derived purely from the presence of the
//! texture.  The all-ones sentinel marks an uninitialized record on the
//! shader side and is never emitted from here.

use vstd::prelude::*;

verus! {

/// Flag bit set when the material carries a texture.
pub const FLAGS_TEXTURE: u32 = 1;

/// Flag word of a material with no texture.
pub const FLAGS_NONE: u32 = 0;

/// Sentinel the shader treats as "uniform not yet written".  Never emitted.
pub const FLAGS_UNINITIALIZED: u32 = 0xFFFF;

/// A colour as stored on the material: non-linear (gamma-encoded) channels.
#[derive(Clone, Copy, Debug, PartialEq, Eq, Structural)]
pub struct ColorSrgba {
    pub red: u8,
    pub green: u8,
    pub blue: u8,
    pub alpha: u8,
}

impl ColorSrgba {
    /// Opaque white, the material's default colour.
    pub fn white() -> (c: ColorSrgba)
        ensures
            c == (ColorSrgba { red: 255, green: 255, blue: 255, alpha: 255 }),
    {
        ColorSrgba { red: 255, green: 255, blue: 255, alpha: 255 }
    }

    /// Opaque pure red.
    pub fn red() -> (c: ColorSrgba)
        ensures
            c == (ColorSrgba { red: 255, green: 0, blue: 0, alpha: 255 }),
    {
        ColorSrgba { red: 255, green: 0, blue: 0, alpha: 255 }
    }
}

/// A reference to an image the engine's asset system resolves.
#[derive(Clone, Debug)]
pub enum ImageHandle {
    /// The engine's built-in placeholder image.
    DefaultImage,
    /// An image loaded (asynchronously) from an asset path.
    Asset { path: String },
}

/// The material: a colour and an optional texture.
#[derive(Clone, Debug)]
pub struct CustomMaterial {
    pub color: ColorSrgba,
    pub texture: Option<ImageHandle>,
}

/// The flag word derived from whether a texture is present: its only source.
pub open spec fn spec_flags_of(has_texture: bool) -> u32 {
    if has_texture {
        FLAGS_TEXTURE
    } else {
        FLAGS_NONE
    }
}

/// The uniform record the engine uploads for a material, less the float
/// colour conversion that happens at the GPU boundary.
pub open spec fn spec_uniform_of(m: CustomMaterial) -> CustomMaterialUniform {
    CustomMaterialUniform { color: m.color, flags: spec_flags_of(m.texture is Some) }
}

/// The fixed-layout record bound at uniform index 0: the colour (taken to
/// linear space as four floats when uploaded) followed by the flag word.
#[derive(Clone, Copy, Debug, PartialEq, Eq, Structural)]
pub struct CustomMaterialUniform {
    /// The material's stored colour, carried to the upload stage.
    pub color: ColorSrgba,
    /// Bit 0: the material has a texture.  Fully derived, never stored.
    pub flags: u32,
}

impl CustomMaterial {
    /// The asset path of the fragment shader this material renders with.
    pub fn fragment_shader() -> (r: &'static str)
        ensures
            r@ == spec_fragment_shader_path(),
    {
        "shaders/smooth_pixel.wgsl"
    }

    /// Projects the material to its uniform record.
    pub fn as_bind_group_shader_type(&self) -> (u: CustomMaterialUniform)
        ensures
            u == spec_uniform_of(*self),
    {
        let flags: u32 = if self.texture.is_some() {
            FLAGS_TEXTURE
        } else {
            FLAGS_NONE
        };
        CustomMaterialUniform { color: self.color, flags }
    }
}

/// The shader path, as a character sequence.
pub open spec fn spec_fragment_shader_path() -> Seq<char> {
    "shaders/smooth_pixel.wgsl"@
}

impl Default for CustomMaterial {
    /// An untextured white material.
    fn default() -> (m: CustomMaterial)
        ensures
            m.color == (ColorSrgba { red: 255, green: 255, blue: 255, alpha: 255 }),
            m.texture is None,
    {
        CustomMaterial { color: ColorSrgba::white(), texture: None }
    }
}

impl From<ColorSrgba> for CustomMaterial {
    /// An untextured material with the given colour.
    fn from(color: ColorSrgba) -> (m: CustomMaterial) {
        CustomMaterial { color, texture: None }
    }
}

impl vstd::std_specs::convert::FromSpecImpl<ColorSrgba> for CustomMaterial {
    open spec fn obeys_from_spec() -> bool {
        true
    }

    open spec fn from_spec(color: ColorSrgba) -> CustomMaterial {
        CustomMaterial { color, texture: None }
    }
}

impl From<ImageHandle> for CustomMaterial {
    /// A white material showing the given texture.
    fn from(texture: ImageHandle) -> (m: CustomMaterial) {
        CustomMaterial { color: ColorSrgba::white(), texture: Some(texture) }
    }
}

impl vstd::std_specs::convert::FromSpecImpl<ImageHandle> for CustomMaterial {
    open spec fn obeys_from_spec() -> bool {
        true
    }

    open spec fn from_spec(texture: ImageHandle) -> CustomMaterial {
        CustomMaterial {
            color: ColorSrgba { red: 255, green: 255, blue: 255, alpha: 255 },
            texture: Some(texture),
        }
    }
}

/// The derived flag word is 0 or 1 — decided by the texture alone — and in
/// particular is never the uninitialized sentinel.
pub proof fn lemma_uniform_flags_sound(m: CustomMaterial)
    ensures
        spec_uniform_of(m).flags == spec_flags_of(m.texture is Some),
        m.texture is Some ==> spec_uniform_of(m).flags == FLAGS_TEXTURE,
        m.texture is None ==> spec_uniform_of(m).flags == FLAGS_NONE,
        spec_uniform_of(m).flags != FLAGS_UNINITIALIZED,
{
}

} // verus!
