//! Sprite bundles for the pixel-art rendering path.
//!
//! These bundles gather the components an entity needs to be drawn as a
//! sprite — either a single image or one cell of a sprite sheet.  They
//! belong to an unfinished migration between two rendering approaches and
//! are kept with their documented defaults.

use vstd::prelude::*;

use crate::material::ColorSrgba;
use crate::material::ImageHandle;
use crate::units::spec_identity_transform;
use crate::units::Transform;

verus! {

/// How a sprite's image is drawn: an optional tint and per-axis flips.
#[derive(Clone, Copy, Debug, PartialEq, Eq, Structural)]
pub struct Sprite {
    pub color: ColorSrgba,
    pub flip_x: bool,
    pub flip_y: bool,
}

impl Default for Sprite {
    /// Untinted, unflipped.
    fn default() -> (s: Sprite)
        ensures
            s.color == (ColorSrgba { red: 255, green: 255, blue: 255, alpha: 255 }),
            !s.flip_x,
            !s.flip_y,
    {
        Sprite { color: ColorSrgba::white(), flip_x: false, flip_y: false }
    }
}

/// A reference into the engine's colour-material store; 0 is the store's
/// built-in default material.
#[derive(Clone, Copy, Debug, PartialEq, Eq, Structural)]
pub struct ColorMaterialHandle {
    pub id: u64,
}

/// A reference into the engine's sprite-sheet store; 0 is the store's
/// built-in default sheet.
#[derive(Clone, Copy, Debug, PartialEq, Eq, Structural)]
pub struct TextureAtlasHandle {
    pub id: u64,
}

/// Which cell of a sprite sheet is shown.
#[derive(Clone, Copy, Debug, PartialEq, Eq, Structural)]
pub struct TextureAtlasSprite {
    pub index: usize,
    pub flip_x: bool,
    pub flip_y: bool,
}

impl Default for TextureAtlasSprite {
    /// The sheet's first cell, unflipped.
    fn default() -> (s: TextureAtlasSprite)
        ensures
            s.index == 0,
            !s.flip_x,
            !s.flip_y,
    {
        TextureAtlasSprite { index: 0, flip_x: false, flip_y: false }
    }
}

/// Whether an entity asks to be drawn; the engine combines this with its
/// ancestors' wishes.
#[derive(Clone, Copy, Debug, PartialEq, Eq, Structural)]
pub enum Visibility {
    /// Follow the parent's visibility.
    Inherited,
    /// Always drawn.
    Visible,
    /// Never drawn.
    Hidden,
}

/// The components of an entity drawn as a single pixel-art sprite.
#[derive(Clone, Debug)]
pub struct PixelSpriteBundle {
    pub sprite: Sprite,
    /// The material that affects the sprite texture.
    pub material: ColorMaterialHandle,
    pub transform: Transform,
    /// The engine recomputes this from the transform hierarchy each frame.
    pub global_transform: Transform,
    pub texture: ImageHandle,
    /// The author's wish for whether the entity is visible.
    pub visibility: Visibility,
    /// The engine's computed answer; starts false until the first frame.
    pub computed_visible: bool,
}

impl Default for PixelSpriteBundle {
    /// Identity placement, default material, the engine's placeholder
    /// image, visibility inherited.
    fn default() -> (b: PixelSpriteBundle)
        ensures
            b.sprite == (Sprite {
                color: ColorSrgba { red: 255, green: 255, blue: 255, alpha: 255 },
                flip_x: false,
                flip_y: false,
            }),
            b.material.id == 0,
            b.transform == spec_identity_transform(),
            b.global_transform == spec_identity_transform(),
            b.texture is DefaultImage,
            b.visibility is Inherited,
            !b.computed_visible,
    {
        PixelSpriteBundle {
            sprite: Sprite::default(),
            material: ColorMaterialHandle { id: 0 },
            transform: Transform::default(),
            global_transform: Transform::default(),
            texture: ImageHandle::DefaultImage,
            visibility: Visibility::Inherited,
            computed_visible: false,
        }
    }
}

/// The components of an entity drawn as one cell of a sprite sheet.
#[derive(Clone, Debug)]
pub struct PixelSpriteSheetBundle {
    /// The cell of the sheet to draw, defaulting to the first.
    pub sprite: TextureAtlasSprite,
    /// The material that affects the sheet's texture.
    pub material: ColorMaterialHandle,
    /// The sprite sheet the cell is taken from.
    pub texture_atlas: TextureAtlasHandle,
    pub transform: Transform,
    /// The engine recomputes this from the transform hierarchy each frame.
    pub global_transform: Transform,
    /// The author's wish for whether the entity is visible.
    pub visibility: Visibility,
    /// The engine's computed answer; starts false until the first frame.
    pub computed_visible: bool,
}

impl Default for PixelSpriteSheetBundle {
    /// First cell of the default sheet, identity placement, visibility
    /// inherited.
    fn default() -> (b: PixelSpriteSheetBundle)
        ensures
            b.sprite == (TextureAtlasSprite { index: 0, flip_x: false, flip_y: false }),
            b.material.id == 0,
            b.texture_atlas.id == 0,
            b.transform == spec_identity_transform(),
            b.global_transform == spec_identity_transform(),
            b.visibility is Inherited,
            !b.computed_visible,
    {
        PixelSpriteSheetBundle {
            sprite: TextureAtlasSprite::default(),
            material: ColorMaterialHandle { id: 0 },
            texture_atlas: TextureAtlasHandle { id: 0 },
            transform: Transform::default(),
            global_transform: Transform::default(),
            visibility: Visibility::Inherited,
            computed_visible: false,
        }
    }
}

} // verus!
