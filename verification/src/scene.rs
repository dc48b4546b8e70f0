//! The fixed scene spawned once on entering `Game`.

use vstd::prelude::*;

verus! {

use crate::gate::Handle;
use crate::gate::TextureAssets;

/// The horizontal offset of the tree sprite, in world units.
pub const TREE_X: i64 = 100;

/// The vertical offset of the tree sprite, in world units.
pub const TREE_Y: i64 = 10;

/// One visual object to place: a sprite drawn with the given texture at
/// the given world position.
#[derive(Clone, Copy, Debug, PartialEq, Eq, Structural)]
pub struct Placement {
    /// The texture to draw.
    pub texture: Handle,
    /// The horizontal position.
    pub x: i64,
    /// The vertical position.
    pub y: i64,
    /// The depth.
    pub z: i64,
}

/// The fixed, hard-coded arrangement spawned once on entering `Game`:
/// the player sprite at the origin and the tree sprite offset to its
/// upper right.
pub fn spawn(textures: &TextureAssets) -> (r: Vec<Placement>)
    ensures
        r@.len() == 2,
        r@[0] == (Placement { texture: textures.player, x: 0, y: 0, z: 0 }),
        r@[1] == (Placement { texture: textures.tree, x: TREE_X, y: TREE_Y, z: 0 }),
{
    let mut placements: Vec<Placement> = Vec::new();
    placements.push(Placement { texture: textures.player, x: 0, y: 0, z: 0 });
    placements.push(Placement { texture: textures.tree, x: TREE_X, y: TREE_Y, z: 0 });
    placements
}

} // verus!
