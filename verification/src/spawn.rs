//! The startup spawn plan.
//!
//! At startup the prototype creates exactly two visible entities: the
//! player — a 16×16 quad carrying the custom material with a red tint and
//! the player texture — at the origin, and the enemy — a plain sprite with
//! the enemy texture — twenty units along the x axis.  The plan is pure
//! data; the host engine executes it.

use vstd::prelude::*;

use crate::material::ColorSrgba;
use crate::material::CustomMaterial;
use crate::material::ImageHandle;
use crate::units::spec_unit_scale;
use crate::units::Transform;
use crate::units::Vec3Fixed;

verus! {

/// Side of the player's quad mesh, in tenths of a world unit.
pub const PLAYER_QUAD_SIDE_TENTHS: i32 = 160;

/// X position the enemy starts at, in tenths of a world unit.
pub const ENEMY_START_X_TENTHS: i32 = 200;

/// A zero-data tag that marks what an entity is, used only to filter
/// queries.
#[derive(Clone, Copy, Debug, PartialEq, Eq, Structural)]
pub enum MarkerTag {
    Player,
    Enemy,
}

/// How a spawned entity is drawn.
#[derive(Clone, Debug)]
pub enum Visual {
    /// A quad mesh rendered with the custom material.
    MeshWithMaterial { quad_width: i32, quad_height: i32, material: CustomMaterial },
    /// A plain sprite showing a texture.
    Sprite { texture: ImageHandle },
}

/// One entity the startup routine asks the engine to create.
#[derive(Clone, Debug)]
pub struct SpawnCommand {
    pub marker: MarkerTag,
    pub visual: Visual,
    pub transform: Transform,
}

/// The player entity: tagged, at the origin, drawn as a 16×16 quad with
/// the custom material — red, textured with the player sprite.
pub open spec fn spec_is_player_spawn(c: SpawnCommand) -> bool {
    &&& c.marker == MarkerTag::Player
    &&& c.transform == (Transform {
        translation: Vec3Fixed { x: 0, y: 0, z: 0 },
        scale: spec_unit_scale(),
    })
    &&& c.visual matches Visual::MeshWithMaterial { quad_width, quad_height, material }
        && quad_width == PLAYER_QUAD_SIDE_TENTHS && quad_height == PLAYER_QUAD_SIDE_TENTHS
        && material.color == (ColorSrgba { red: 255, green: 0, blue: 0, alpha: 255 })
        && (material.texture matches Some(h) && h matches ImageHandle::Asset { path }
            && path@ == "textures/player_proto.png"@)
}

/// The enemy entity: tagged, twenty units along x, drawn as a plain sprite
/// with the enemy texture.
pub open spec fn spec_is_enemy_spawn(c: SpawnCommand) -> bool {
    &&& c.marker == MarkerTag::Enemy
    &&& c.transform == (Transform {
        translation: Vec3Fixed { x: ENEMY_START_X_TENTHS, y: 0, z: 0 },
        scale: spec_unit_scale(),
    })
    &&& (c.visual matches Visual::Sprite { texture } && texture matches ImageHandle::Asset {
        path,
    } && path@ == "textures/enemy_proto.png"@)
}

/// Builds the startup plan: exactly two entities, the player then the
/// enemy, each with its marker, its visual and its place.
pub fn setup_player() -> (plan: Vec<SpawnCommand>)
    ensures
        plan@.len() == 2,
        spec_is_player_spawn(plan@[0]),
        spec_is_enemy_spawn(plan@[1]),
{
    let player = SpawnCommand {
        marker: MarkerTag::Player,
        visual: Visual::MeshWithMaterial {
            quad_width: PLAYER_QUAD_SIDE_TENTHS,
            quad_height: PLAYER_QUAD_SIDE_TENTHS,
            material: CustomMaterial {
                color: ColorSrgba::red(),
                texture: Some(
                    ImageHandle::Asset { path: String::from_str("textures/player_proto.png") },
                ),
            },
        },
        transform: Transform::from_xyz(0, 0, 0),
    };
    let enemy = SpawnCommand {
        marker: MarkerTag::Enemy,
        visual: Visual::Sprite {
            texture: ImageHandle::Asset { path: String::from_str("textures/enemy_proto.png") },
        },
        transform: Transform::from_xyz(ENEMY_START_X_TENTHS, 0, 0),
    };
    let mut plan: Vec<SpawnCommand> = Vec::new();
    plan.push(player);
    plan.push(enemy);
    plan
}

} // verus!
