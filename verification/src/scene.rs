//! A scene: the transient, per-frame collection of the meshes to draw, in
//! draw order.  Rebuilt by the application every frame, never persisted;
//! each entry is a plain copy of an application-owned mesh value.

use vstd::prelude::*;

use crate::mesh::Mesh;

verus! {

pub struct Scene {
    pub meshes: Vec<Mesh>,
}

} // verus!
