//! The values that cross the scripting boundary.
use crate::component::camera::Camera;
use crate::game_object::GameObject;
use crate::math::Angle;
use vstd::prelude::*;

verus! {

/// A value that a script hands to a component call, or receives from one,
/// tagged with what it holds.
#[derive(Clone, Copy, Debug, PartialEq, Eq)]
pub enum UserValue {
    /// An angle.
    Angle(Angle),
    /// An entity.
    Object(GameObject),
    /// A camera.
    Camera(Camera),
    /// A value of a type that no operation of a component takes.
    Other,
}

} // verus!
