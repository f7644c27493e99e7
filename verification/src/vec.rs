use vstd::prelude::*;

verus! {

/// A pair of coordinates on the horizontal plane (a chunk's `(cx, cz)`).
#[derive(Clone, Copy, Debug, PartialEq, Eq, Structural)]
pub struct Vec2<T>(pub T, pub T);

/// A triple of coordinates (a voxel's `(vx, vy, vz)`).
#[derive(Clone, Copy, Debug, PartialEq, Eq, Structural)]
pub struct Vec3<T>(pub T, pub T, pub T);

} // verus!
