//! The transform component.
use crate::arena::{Arena, ArenaView};
use crate::boxed::Boxed;
use crate::component::{Component, ComponentInitializer};
use crate::game_object::GameObject;
use crate::math::{Quat, Vec3};
use crate::value::UserValue;
use std::rc::Rc;
use vstd::prelude::*;
use vstd::string::StringExecFns;

verus! {

/// The state of one transform.
#[derive(Clone, Copy, Debug, PartialEq, Eq)]
pub struct TransformInner {
    pub parent: GameObject,
    pub position: Vec3,
    pub rotation: Quat,
    pub scale: Vec3,
}

/// A handle to a transform's state in the arena.
#[derive(Clone, Copy, Debug, PartialEq, Eq)]
pub struct Transform(pub usize);

impl TransformInner {
    pub open spec fn spec_initial(parent: GameObject) -> TransformInner {
        TransformInner {
            parent,
            position: Vec3::spec_zero(),
            rotation: Quat::spec_identity(),
            scale: Vec3::spec_one(),
        }
    }

    /// The state that a new transform of `parent` starts with: at the
    /// origin, not rotated, at scale one.
    #[verifier::when_used_as_spec(spec_initial)]
    pub fn initial(parent: GameObject) -> (inner: TransformInner)
        ensures
            inner == TransformInner::spec_initial(parent),
    {
        TransformInner {
            parent,
            position: Vec3::zero(),
            rotation: Quat::identity(),
            scale: Vec3::one(),
        }
    }
}

impl Component for Transform {
    open spec fn attached(&self, arena: ArenaView) -> bool {
        arena.has_transform(*self)
    }

    open spec fn spec_name(&self) -> Seq<char> {
        "BI_TRANSFORM"@
    }

    open spec fn spec_parent(&self, arena: ArenaView) -> GameObject {
        arena.transform(*self).parent
    }

    /// A transform offers no operation to scripts.
    open spec fn has_method(&self, name: Seq<char>) -> bool {
        false
    }

    /// Whatever the name, a call changes nothing and hands nothing back.
    open spec fn spec_lua_call(&self, arena: ArenaView, name: Seq<char>, args: UserValue) -> (
        ArenaView,
        Option<UserValue>,
    ) {
        (arena, None)
    }

    fn is_attached(&self, arena: &Arena) -> (attached: bool) {
        arena.contains_transform(*self)
    }

    fn parent(&self, arena: &Arena) -> (object: GameObject) {
        arena.transform(*self).parent
    }

    fn name(&self) -> (name: String) {
        String::from_str("BI_TRANSFORM")
    }

    fn cloned(&self) -> (copy: Self) {
        *self
    }

    fn supports(&self, name: &String) -> (known: bool) {
        false
    }

    fn lua_call(&self, arena: &mut Arena, name: String, args: UserValue) -> (result: Option<
        UserValue,
    >) {
        None
    }
}

impl ComponentInitializer for Transform {
    type Inner = TransformInner;

    open spec fn spec_create(game_object: GameObject, arena: ArenaView) -> (ArenaView, Self) {
        (arena.push_transform(TransformInner::spec_initial(game_object)), arena.next_transform())
    }

    fn create(game_object: &GameObject, arena: &mut Arena) -> (component: Self) {
        arena.push_transform(TransformInner::initial(*game_object))
    }

    fn erase(self) -> (stored: Rc<Box<dyn Component>>) {
        let boxed: Box<dyn Component> = self.boxed();
        let stored = Rc::new(boxed);
        stored
    }
}

/// Whatever a script calls on a transform, the arena stays as it is and
/// nothing is handed back.
pub proof fn lemma_call_is_ignored(
    transform: Transform,
    arena: ArenaView,
    name: Seq<char>,
    args: UserValue,
)
    ensures
        transform.spec_lua_call(arena, name, args) == (arena, None::<UserValue>),
{
}

} // verus!
