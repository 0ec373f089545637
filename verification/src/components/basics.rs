use vstd::prelude::*;
use specs::Entity;
use crate::geometry::Point;

verus! {

//----------------------------------------------------------------------------
// Tagging components: they tag an entity as some type.
//----------------------------------------------------------------------------

/// The one entity with this component is the player.
#[derive(Copy, Clone)]
pub struct Player {}

/// The entity is a monster.
#[derive(Copy, Clone)]
pub struct Monster {}

/// The entity is a hazard.
#[derive(Copy, Clone)]
pub struct Hazard {}

/// The entity can be picked up.
#[derive(Copy, Clone)]
pub struct PickUpable {}

/// The entity can be used from the item menu.
#[derive(Copy, Clone)]
pub struct Useable {}

/// The entity can be thrown.
#[derive(Copy, Clone)]
pub struct Throwable {}

/// The entity blocks the tile it occupies.
#[derive(Copy, Clone)]
pub struct BlocksTile {}

/// The entity is consumed upon use.
#[derive(Copy, Clone)]
pub struct Consumable {}

/// The entity blocks vision.
#[derive(Copy, Clone)]
pub struct Opaque {}

/// The entity tramples the contents of any tile it enters (tall grass into
/// short grass, for example).
#[derive(Copy, Clone)]
pub struct Tramples {}

//----------------------------------------------------------------------------
// Core data components.
//----------------------------------------------------------------------------

/// The position of an entity on the map.
#[derive(PartialEq, Eq, Structural, Copy, Clone, Debug)]
pub struct Position {
    pub x: i32,
    pub y: i32,
}

impl Position {
    pub fn to_point(&self) -> (p: Point)
        ensures
            p == (Point { x: self.x, y: self.y }),
    {
        Point { x: self.x, y: self.y }
    }
}

/// The name of an entity.
pub struct Name {
    pub name: String,
}

/// The field of view of an entity.
pub struct Viewshed {
    pub visible_tiles: Vec<Point>,
    pub range: i32,
    /// The field of view needs to be recomputed.
    pub dirty: bool,
}

/// Sets the background colour of its tile (a visual effect only); `order`
/// decides which of several such entities wins.
#[derive(Copy, Clone)]
pub struct SetsBgColor {
    pub order: i32,
}

/// A held item, with the entity holding it.
#[derive(Copy, Clone)]
pub struct InBackpack {
    pub owner: Entity,
}

/// Whether `p` is among `tiles`.
pub fn contains_point(tiles: &Vec<Point>, p: Point) -> (b: bool)
    ensures
        b == tiles@.contains(p),
{
    let mut i: usize = 0;
    while i < tiles.len()
        invariant
            i <= tiles.len(),
            forall|j: int| 0 <= j < i ==> tiles[j] != p,
        decreases tiles.len() - i,
    {
        if tiles[i] == p {
            return true;
        }
        i = i + 1;
    }
    false
}

} // verus!
