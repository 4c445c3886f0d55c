//! What every component offers, whatever its concrete type.
use crate::arena::{Arena, ArenaView};
use crate::game_object::GameObject;
use crate::value::UserValue;
use std::rc::Rc;
use vstd::prelude::*;

pub mod camera;
pub mod lua_component_ref;
pub mod transform;

verus! {

/// The capability that the entity and the scripting bridge rely on.
///
/// A component is a handle: its state lives in the [`Arena`], so a copy of the
/// handle shares that state.
pub trait Component {
    /// Whether the state that this handle refers to exists in `arena`.
    spec fn attached(&self, arena: ArenaView) -> bool;

    /// The name under which this type of component is registered.
    spec fn spec_name(&self) -> Seq<char>;

    /// The entity that owns this component.
    spec fn spec_parent(&self, arena: ArenaView) -> GameObject;

    /// Whether the component has an operation that scripts call as `name`.
    spec fn has_method(&self, name: Seq<char>) -> bool;

    /// The arena after the call `name` with the argument `args`, and what the
    /// call hands back.
    spec fn spec_lua_call(&self, arena: ArenaView, name: Seq<char>, args: UserValue) -> (
        ArenaView,
        Option<UserValue>,
    );

    /// Tells whether the state that this handle refers to exists in `arena`.
    fn is_attached(&self, arena: &Arena) -> (attached: bool)
        ensures
            attached == self.attached(arena@),
    ;

    /// Returns the owning entity.
    fn parent(&self, arena: &Arena) -> (object: GameObject)
        requires
            self.attached(arena@),
        ensures
            object == self.spec_parent(arena@),
    ;

    /// Returns the name that identifies this type of component.
    fn name(&self) -> (name: String)
        ensures
            name@ == self.spec_name(),
    ;

    /// Returns another handle to the same state.
    fn cloned(&self) -> (copy: Self) where Self: Sized
        ensures
            copy == *self,
    ;

    /// Tells whether the component has an operation that scripts call as
    /// `name`, so that a caller can tell a call that was ignored from one that
    /// had nothing to hand back.
    fn supports(&self, name: &String) -> (known: bool)
        ensures
            known == self.has_method(name@),
    ;

    /// Performs the operation `name` with the one argument `args`. A name
    /// that the component does not know, or an argument of another type than
    /// the operation takes, changes nothing and hands nothing back.
    fn lua_call(&self, arena: &mut Arena, name: String, args: UserValue) -> (result: Option<
        UserValue,
    >)
        requires
            self.attached(old(arena)@),
        ensures
            (final(arena)@, result) == self.spec_lua_call(old(arena)@, name@, args),
            !self.has_method(name@) ==> final(arena)@ == old(arena)@ && result is None,
            old(arena)@.wf() ==> final(arena)@.wf(),
            final(arena)@.extends(old(arena)@),
    ;
}

/// How a component comes into being.
pub trait ComponentInitializer: Component + Sized {
    /// The state that a component of this type keeps in the arena.
    type Inner;

    /// The arena after a component was created for `game_object`, and the
    /// handle to that component.
    spec fn spec_create(game_object: GameObject, arena: ArenaView) -> (ArenaView, Self);

    /// Creates the component's state, with its defaults, for `game_object`.
    /// The entity's own record of components is not touched: to attach the
    /// component is the caller's part.
    fn create(game_object: &GameObject, arena: &mut Arena) -> (component: Self)
        ensures
            (final(arena)@, component) == Self::spec_create(*game_object, old(arena)@),
            old(arena)@.wf() ==> final(arena)@.wf(),
            final(arena)@.extends(old(arena)@),
            component.attached(final(arena)@),
            component.spec_parent(final(arena)@) == *game_object,
    ;

    /// Gives this handle up for one whose concrete type is no longer known,
    /// as an entity keeps it. It refers to the same state.
    fn erase(self) -> (stored: Rc<Box<dyn Component>>)
        ensures
            behaves_like(stored, self),
    ;
}

/// Whether a stored component cannot be told apart from `component` through
/// the capability: the two have one name and the same operations, are
/// attached to the same arenas, have one parent, and every call does through
/// either what it does through the other.
pub open spec fn behaves_like<C: Component>(stored: Rc<Box<dyn Component>>, component: C) -> bool {
    &&& stored.spec_name() == component.spec_name()
    &&& forall|name: Seq<char>|
        #![trigger stored.has_method(name)]
        #![trigger component.has_method(name)]
        stored.has_method(name) == component.has_method(name)
    &&& forall|arena: ArenaView|
        #![trigger stored.attached(arena)]
        #![trigger component.attached(arena)]
        stored.attached(arena) == component.attached(arena)
    &&& forall|arena: ArenaView|
        #![trigger stored.spec_parent(arena)]
        #![trigger component.spec_parent(arena)]
        stored.spec_parent(arena) == component.spec_parent(arena)
    &&& forall|arena: ArenaView, name: Seq<char>, args: UserValue|
        #![trigger stored.spec_lua_call(arena, name, args)]
        #![trigger component.spec_lua_call(arena, name, args)]
        stored.spec_lua_call(arena, name, args) == component.spec_lua_call(arena, name, args)
}

} // verus!
