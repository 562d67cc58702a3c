use vstd::prelude::*;

pub mod color;
pub mod controller;
pub mod geometry;
pub mod orientation;
pub mod render;
pub mod scroll;
pub mod shader;

verus! {
}
