//! The handle through which a script holds a component.
use crate::arena::{Arena, ArenaView};
use crate::component::Component;
use crate::game_object::GameObject;
use crate::value::UserValue;
use std::rc::Rc;
use vstd::prelude::*;

verus! {

/// A component whose concrete type is no longer known. It has no state of
/// its own: whatever is asked of it, the component it wraps answers.
pub struct LuaComponentRef(pub(crate) Rc<Box<dyn Component>>);

impl LuaComponentRef {
    /// The component that this handle wraps.
    pub closed spec fn component(&self) -> Rc<Box<dyn Component>> {
        self.0
    }

    /// Wraps `component`. Only a lookup on an entity makes such a handle.
    pub(crate) fn new(component: Rc<Box<dyn Component>>) -> (reference: LuaComponentRef)
        ensures
            reference.component() == component,
    {
        LuaComponentRef(component)
    }
}

impl Component for LuaComponentRef {
    open spec fn attached(&self, arena: ArenaView) -> bool {
        self.component().attached(arena)
    }

    open spec fn spec_name(&self) -> Seq<char> {
        self.component().spec_name()
    }

    open spec fn spec_parent(&self, arena: ArenaView) -> GameObject {
        self.component().spec_parent(arena)
    }

    open spec fn has_method(&self, name: Seq<char>) -> bool {
        self.component().has_method(name)
    }

    open spec fn spec_lua_call(&self, arena: ArenaView, name: Seq<char>, args: UserValue) -> (
        ArenaView,
        Option<UserValue>,
    ) {
        self.component().spec_lua_call(arena, name, args)
    }

    fn is_attached(&self, arena: &Arena) -> (attached: bool) {
        self.0.is_attached(arena)
    }

    fn parent(&self, arena: &Arena) -> (object: GameObject) {
        self.0.parent(arena)
    }

    fn name(&self) -> (name: String) {
        self.0.name()
    }

    fn cloned(&self) -> (copy: Self) {
        LuaComponentRef(Rc::clone(&self.0))
    }

    fn supports(&self, name: &String) -> (known: bool) {
        self.0.supports(name)
    }

    fn lua_call(&self, arena: &mut Arena, name: String, args: UserValue) -> (result: Option<
        UserValue,
    >) {
        self.0.lua_call(arena, name, args)
    }
}

impl Clone for LuaComponentRef {
    fn clone(&self) -> (copy: Self)
        ensures
            copy == *self,
    {
        LuaComponentRef(Rc::clone(&self.0))
    }
}

} // verus!
