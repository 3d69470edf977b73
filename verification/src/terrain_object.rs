//! Static terrain objects (ammo crate, houses, trees) that take part in
//! depth-sorted frame composition.

use vstd::prelude::*;
use crate::position::Position;

verus! {

/// Drawable state of one static terrain object.
#[derive(Clone, Copy, Debug, PartialEq, Eq, Structural)]
pub struct TerrainObjectDrawable {
    pub position: Position,
}

impl TerrainObjectDrawable {
    pub fn new(position: Position) -> (r: TerrainObjectDrawable)
        ensures
            r.position == position,
    {
        TerrainObjectDrawable { position }
    }
}

/// The collection of terrain objects, owned by the simulation world. The
/// object's index selects its kind during frame composition: index 0 is the
/// ammo crate, indices 1 and 2 are houses, the remainder are trees.
#[derive(Clone, Debug)]
pub struct TerrainObjects {
    pub objects: Vec<TerrainObjectDrawable>,
}

impl TerrainObjects {
    pub fn new() -> (r: TerrainObjects)
        ensures
            r.objects@ =~= Seq::<TerrainObjectDrawable>::empty(),
    {
        TerrainObjects { objects: Vec::new() }
    }
}

} // verus!
