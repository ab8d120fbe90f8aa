//! A viewer for one triangle mesh: the mesh is loaded from a model file,
//! given normals where the file has none, laid out for the graphics device,
//! and drawn every frame with one shader program.
//!
//! This library holds what the viewer decides and computes. The window, the
//! device calls and the projection and model matrices are the caller's.

use vstd::prelude::*;

pub mod frame;
pub mod gpu;
pub mod mesh;
pub mod mtl;
pub mod normals;
pub mod obj;
pub mod shader;
pub mod vector;

verus! {

/// The width of the window in pixels.
pub const WIDTH: usize = 1280;

/// The height of the window in pixels.
pub const HEIGHT: usize = 720;

} // verus!
