use vstd::prelude::*;

use crate::vec::Vec2;

verus! {

/// The chunk an entity currently stands in, and whether it moved into it
/// since the last time the flag was cleared.
#[derive(Clone, Copy, Debug, PartialEq, Eq, Structural)]
pub struct CurrentChunkComp {
    pub coords: Vec2<i32>,
    pub changed: bool,
}

impl Default for CurrentChunkComp {
    fn default() -> (c: Self)
        ensures
            c.coords == Vec2(0i32, 0i32),
            !c.changed,
    {
        CurrentChunkComp { coords: Vec2(0, 0), changed: false }
    }
}

} // verus!
