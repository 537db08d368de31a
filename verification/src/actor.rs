//! Actors and the models and meshes attached to them. An entity is named
//! by its bits.
use vstd::prelude::*;

verus! {

/// An actor: an entity that owns models.
#[derive(Clone, Copy, Debug, PartialEq, Eq, Default)]
pub struct Actor;

/// Links a model to the actor that owns it.
#[derive(Clone, Copy, Debug, PartialEq, Eq)]
pub struct ModelOf(pub u64);

/// The models owned by an actor.
#[derive(Clone, Debug, PartialEq, Eq, Default)]
pub struct ModelRoot(pub Vec<u64>);

/// Marker of a model entity.
#[derive(Clone, Copy, Debug, PartialEq, Eq, Default)]
pub struct Model;

/// Links a mesh to the actor that owns it.
#[derive(Clone, Copy, Debug, PartialEq, Eq)]
pub struct MeshOf(pub u64);

/// The meshes owned by an actor.
#[derive(Clone, Debug, PartialEq, Eq, Default)]
pub struct MeshRoot(pub Vec<u64>);

impl ModelRoot {
    /// The owned model entities.
    pub fn entities(&self) -> (r: &Vec<u64>)
        ensures
            r@ == self.0@,
    {
        &self.0
    }
}

impl MeshRoot {
    /// The owned mesh entities.
    pub fn entities(&self) -> (r: &Vec<u64>)
        ensures
            r@ == self.0@,
    {
        &self.0
    }
}

} // verus!
