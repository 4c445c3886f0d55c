//! A small runtime of entities and components, with the bridge through which
//! scripts reach a component by its name and call its operations.
//!
//! All state is explicit. A [`game_object::Scene`] keeps the record of every
//! entity; an [`arena::Arena`] keeps the state of every component. Entities
//! and components are handles into the two, so that every copy of a handle
//! refers to one state, and a function that changes state borrows the scene
//! or the arena exclusively. What a process shares, the counter that ids come
//! from and the main camera, is part of the scene and of the arena.
pub mod arena;
pub mod boxed;
pub mod component;
pub mod game_object;
pub mod hash_bag;
pub mod math;
pub mod value;
