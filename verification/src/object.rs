//! Scene objects: a tagged variant over the drawable kinds.  Meshes are the
//! only drawable kind today; lights are a placeholder variant for a future
//! archetype.

use vstd::prelude::*;

use crate::mesh;

verus! {

#[derive(Debug, Clone, Copy, PartialEq, Eq, Structural)]
pub struct Object {
    pub object_type: ObjectType,
}

/// A light source; carries no data yet.
#[derive(Debug, Clone, Copy, PartialEq, Eq, Structural)]
pub struct Light {}

#[derive(Debug, Clone, Copy, PartialEq, Eq, Structural)]
pub enum ObjectType {
    Mesh(mesh::Mesh),
    Light(Light),
}

} // verus!
