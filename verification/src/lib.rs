//! A small real-time 3D scene runtime: entities with lazily cached transform
//! and camera matrices, an ordered children container, a fluent builder
//! protocol, and a per-frame update/render pipeline that turns scene state
//! into an explicit draw plan for a graphics backend.
use vstd::prelude::*;

pub mod builder;
pub mod camera;
pub mod children;
pub mod component;
pub mod controller;
pub mod cube;
pub mod engine;
pub mod fixed;
pub mod game;
pub mod io;
pub mod mat;
pub mod scene;
pub mod shader;
pub mod transform;
pub mod trig;

verus! {

/// Borrows the contents of a box.
pub fn coerce<S>(r: &Box<S>) -> (res: &S)
    ensures
        *res == **r,
{
    r
}

} // verus!
