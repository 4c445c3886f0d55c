//! Entities, and the scene that keeps their records.
use crate::arena::{Arena, ArenaView};
use crate::component::lua_component_ref::LuaComponentRef;
use crate::component::{behaves_like, Component, ComponentInitializer};
use crate::hash_bag::{bag_insert, HashBag};
use crate::value::UserValue;
use std::rc::Rc;
use vstd::hash_map::StringHashMap;
use vstd::prelude::*;
use vstd::string::StringExecFns;

verus! {

broadcast use vstd::hash_map::group_hash_map_axioms;

/// The character that stands for the digit `d`.
pub open spec fn digit_char(d: nat) -> char {
    if d == 0 {
        '0'
    } else if d == 1 {
        '1'
    } else if d == 2 {
        '2'
    } else if d == 3 {
        '3'
    } else if d == 4 {
        '4'
    } else if d == 5 {
        '5'
    } else if d == 6 {
        '6'
    } else if d == 7 {
        '7'
    } else if d == 8 {
        '8'
    } else {
        '9'
    }
}

/// The decimal numeral of `n`, without leading zeros.
pub open spec fn decimal(n: nat) -> Seq<char>
    decreases n,
{
    if n < 10 {
        seq![digit_char(n)]
    } else {
        decimal(n / 10).push(digit_char(n % 10))
    }
}

/// The name that the entity with the id `id` is created with.
pub open spec fn object_name(id: u32) -> Seq<char> {
    "GameObject#"@ + decimal(id as nat)
}

fn digit_str(d: u32) -> (text: &'static str)
    requires
        d < 10,
    ensures
        text@ == seq![digit_char(d as nat)],
{
    proof {
        reveal_strlit("0");
        reveal_strlit("1");
        reveal_strlit("2");
        reveal_strlit("3");
        reveal_strlit("4");
        reveal_strlit("5");
        reveal_strlit("6");
        reveal_strlit("7");
        reveal_strlit("8");
        reveal_strlit("9");
    }
    let text = if d == 0 {
        "0"
    } else if d == 1 {
        "1"
    } else if d == 2 {
        "2"
    } else if d == 3 {
        "3"
    } else if d == 4 {
        "4"
    } else if d == 5 {
        "5"
    } else if d == 6 {
        "6"
    } else if d == 7 {
        "7"
    } else if d == 8 {
        "8"
    } else {
        "9"
    };
    assert(text@ =~= seq![digit_char(d as nat)]);
    text
}

fn append_decimal(text: &mut String, n: u32)
    ensures
        final(text)@ == old(text)@ + decimal(n as nat),
    decreases n,
{
    if n >= 10 {
        append_decimal(text, n / 10);
    }
    text.append(digit_str(n % 10));
    assert(final(text)@ =~= old(text)@ + decimal(n as nat));
}

/// A handle to an entity: its id, which is also its place in the scene.
#[derive(Clone, Copy, Debug, PartialEq, Eq)]
pub struct GameObject(pub u32);

/// An entity as contracts see it.
pub ghost struct ObjectView {
    pub id: u32,
    pub name: Seq<char>,
    /// The components attached under each name, in the order in which they
    /// were attached.
    pub components: Map<Seq<char>, Seq<Rc<Box<dyn Component>>>>,
}

impl ObjectView {
    /// The entity with the id `id`, as it is created.
    pub open spec fn fresh(id: u32) -> ObjectView {
        ObjectView { id, name: object_name(id), components: Map::empty() }
    }

    /// The entity after `handle` was attached under `name`.
    pub open spec fn attach(self, name: Seq<char>, handle: Rc<Box<dyn Component>>) -> ObjectView {
        ObjectView { components: bag_insert(self.components, name, handle), ..self }
    }

    /// The component that a lookup of `name` finds: the first that was
    /// attached under it.
    pub open spec fn first(self, name: Seq<char>) -> Option<Rc<Box<dyn Component>>> {
        if self.components.contains_key(name) && self.components[name].len() > 0 {
            Some(self.components[name][0])
        } else {
            None
        }
    }
}

/// The record of one entity.
#[allow(dead_code)]
pub struct GameObjectInner {
    id: u32,
    name: String,
    /// The key under which `components` holds what was attached under a
    /// name. The bag is keyed by these numbers and not by the names.
    slots: StringHashMap<usize>,
    components: HashBag<usize, Rc<Box<dyn Component>>>,
}

impl View for GameObjectInner {
    type V = ObjectView;

    closed spec fn view(&self) -> ObjectView {
        ObjectView {
            id: self.id,
            name: self.name@,
            components: Map::new(
                |name: Seq<char>| self.slots@.contains_key(name),
                |name: Seq<char>| self.components@[self.slots@[name]],
            ),
        }
    }
}

impl GameObjectInner {
    /// Every name has a key of its own, below the number of names, and the
    /// bag has a sequence under each of these keys and under no other.
    pub closed spec fn wf(&self) -> bool {
        &&& self.slots@.dom().finite()
        &&& forall|name: Seq<char>| #[trigger]
            self.slots@.contains_key(name) ==> self.slots@[name] < self.slots@.len()
                && self.components@.contains_key(self.slots@[name])
        &&& forall|slot: usize| #[trigger]
            self.components@.contains_key(slot) ==> slot < self.slots@.len()
        &&& forall|a: Seq<char>, b: Seq<char>|
            self.slots@.contains_key(a) && self.slots@.contains_key(b) && self.slots@[a]
                == self.slots@[b] ==> a == b
    }

    /// The record of a new entity: no component yet.
    pub(crate) fn new(id: u32) -> (inner: GameObjectInner)
        ensures
            inner.wf(),
            inner@ == ObjectView::fresh(id),
    {
        let mut name = String::from_str("GameObject#");
        append_decimal(&mut name, id);
        let inner = GameObjectInner {
            id,
            name,
            slots: StringHashMap::new(),
            components: HashBag::default(),
        };
        assert(inner@.components =~= Map::empty());
        inner
    }

    /// Attaches `handle` under `name`, behind what is attached there already.
    pub(crate) fn attach(&mut self, name: String, handle: Rc<Box<dyn Component>>)
        requires
            old(self).wf(),
        ensures
            final(self).wf(),
            final(self)@ == old(self)@.attach(name@, handle),
    {
        let ghost key_name = name@;
        let known = match self.slots.get(name.as_str()) {
            Some(slot) => Some(*slot),
            None => None,
        };
        let slot = match known {
            Some(slot) => slot,
            None => {
                let slot = self.slots.len();
                self.slots.insert(name, slot);
                slot
            },
        };
        self.components.insert(slot, handle);
        proof {
            let names = old(self).slots@;
            let after = final(self)@.components;
            let expected = bag_insert(old(self)@.components, key_name, handle);
            assert forall|name: Seq<char>| #[trigger] after.contains_key(name) implies after[name]
                == expected[name] by {
                if name != key_name {
                    assert(names.contains_key(name));
                }
            }
            assert(after =~= expected);
        }
    }

    /// The first component that was attached under `name`.
    pub(crate) fn first(&self, name: &str) -> (found: Option<&Rc<Box<dyn Component>>>)
        requires
            self.wf(),
        ensures
            match found {
                Some(handle) => self@.first(name@) == Some(*handle),
                None => self@.first(name@) is None,
            },
    {
        match self.slots.get(name) {
            None => None,
            Some(slot) => match self.components.get(slot) {
                None => None,
                Some(row) => if row.len() == 0 {
                    None
                } else {
                    Some(&row[0])
                },
            },
        }
    }
}

/// The entities of a scene as contracts see them: each at the place that its
/// id gives.
pub ghost struct SceneView {
    pub objects: Seq<ObjectView>,
}

impl SceneView {
    /// The scene without entities.
    pub open spec fn empty() -> SceneView {
        SceneView { objects: Seq::empty() }
    }

    pub open spec fn has_object(self, object: GameObject) -> bool {
        object.0 < self.objects.len()
    }

    pub open spec fn object(self, object: GameObject) -> ObjectView {
        self.objects[object.0 as int]
    }

    /// The scene after one more entity was created, and the handle to that
    /// entity: its id is the number of entities created before it.
    pub open spec fn spec_new(self) -> (SceneView, GameObject) {
        let id = self.objects.len() as u32;
        (SceneView { objects: self.objects.push(ObjectView::fresh(id)) }, GameObject(id))
    }

    /// The scene after `handle` was attached to `object` under `name`.
    pub open spec fn attach(
        self,
        object: GameObject,
        name: Seq<char>,
        handle: Rc<Box<dyn Component>>,
    ) -> SceneView {
        SceneView {
            objects: self.objects.update(object.0 as int, self.object(object).attach(name, handle)),
        }
    }

    /// Whether `self` is a state that `earlier` may have grown into: every
    /// entity is still there under its id and its name, and what was attached
    /// to it is still attached, in the same order and before anything newer.
    pub open spec fn extends(self, earlier: SceneView) -> bool {
        &&& earlier.objects.len() <= self.objects.len()
        &&& forall|i: int|
            0 <= i < earlier.objects.len() ==> {
                &&& (#[trigger] self.objects[i]).id == earlier.objects[i].id
                &&& self.objects[i].name == earlier.objects[i].name
                &&& forall|name: Seq<char>| #[trigger]
                    earlier.objects[i].components.contains_key(name) ==> {
                        &&& self.objects[i].components.contains_key(name)
                        &&& earlier.objects[i].components[name].is_prefix_of(
                            self.objects[i].components[name],
                        )
                    }
            }
    }
}

/// Keeps the record of every entity, and the counter that ids come from.
pub struct Scene {
    next_id: u32,
    objects: Vec<GameObjectInner>,
}

impl View for Scene {
    type V = SceneView;

    closed spec fn view(&self) -> SceneView {
        SceneView { objects: Seq::new(self.objects@.len(), |i: int| self.objects@[i]@) }
    }
}

impl Scene {
    /// The counter is the number of entities, and each record is sound and
    /// holds the id and the name that its place gives.
    pub closed spec fn wf(&self) -> bool {
        &&& self.next_id == self.objects@.len()
        &&& forall|i: int|
            0 <= i < self.objects@.len() ==> {
                &&& (#[trigger] self.objects@[i]).wf()
                &&& self.objects@[i]@.id == i
                &&& self.objects@[i]@.name == object_name(i as u32)
            }
    }

    /// A scene without entities, whose first id is zero.
    pub fn new() -> (scene: Scene)
        ensures
            scene.wf(),
            scene@ == SceneView::empty(),
    {
        let scene = Scene { next_id: 0, objects: Vec::new() };
        assert(scene@.objects =~= Seq::empty());
        scene
    }

    /// The number of entities.
    pub fn len(&self) -> (count: usize)
        ensures
            count == self@.objects.len(),
            self.wf() ==> count <= u32::MAX,
    {
        self.objects.len()
    }

    /// Tells whether `object` is an entity of this scene.
    pub fn contains(&self, object: GameObject) -> (found: bool)
        ensures
            found == self@.has_object(object),
    {
        (object.0 as usize) < self.objects.len()
    }

    /// In a sound scene every entity has the id and the name of its place.
    pub proof fn lemma_ids_and_names(&self, object: GameObject)
        requires
            self.wf(),
            self@.has_object(object),
        ensures
            self@.objects.len() <= u32::MAX,
            self@.object(object).id == object.0,
            self@.object(object).name == object_name(object.0),
    {
    }
}

impl GameObject {
    /// Creates an entity without components. Its id is the next of the
    /// scene's counter and its name is `GameObject#` followed by the id.
    pub fn new(scene: &mut Scene) -> (object: GameObject)
        requires
            old(scene).wf(),
            old(scene)@.objects.len() < u32::MAX,
        ensures
            final(scene).wf(),
            (final(scene)@, object) == old(scene)@.spec_new(),
            final(scene)@.extends(old(scene)@),
    {
        let id = Self::inc(&mut scene.next_id);
        scene.objects.push(GameObjectInner::new(id));
        assert(final(scene)@.objects =~= old(scene)@.spec_new().0.objects);
        GameObject(id)
    }

    /// Looks up the component that scripts reach under `name`: the first that
    /// was attached to this entity under that name.
    pub fn get_lua_component(&self, scene: &Scene, name: String) -> (found: Option<LuaComponentRef>)
        requires
            scene.wf(),
            scene@.has_object(*self),
        ensures
            match found {
                Some(reference) => scene@.object(*self).first(name@) == Some(
                    reference.component(),
                ),
                None => scene@.object(*self).first(name@) is None,
            },
    {
        match scene.objects[self.0 as usize].first(name.as_str()) {
            None => None,
            Some(handle) => Some(LuaComponentRef::new(Rc::clone(handle))),
        }
    }

    /// Creates a component of the type `C` for this entity, attaches it under
    /// the component's name, and returns a handle to it. The handle that is
    /// returned and the one that the entity keeps refer to one state.
    pub fn add_component<C: Component + ComponentInitializer + Clone + 'static>(
        &self,
        scene: &mut Scene,
        arena: &mut Arena,
    ) -> (component: C)
        requires
            old(scene).wf(),
            old(scene)@.has_object(*self),
        ensures
            final(scene).wf(),
            (final(arena)@, component) == C::spec_create(*self, old(arena)@),
            old(arena)@.wf() ==> final(arena)@.wf(),
            final(arena)@.extends(old(arena)@),
            component.attached(final(arena)@),
            component.spec_parent(final(arena)@) == *self,
            final(scene)@.has_object(*self),
            final(scene)@.object(*self).components.contains_key(component.spec_name()),
            final(scene)@.object(*self).components[component.spec_name()].len() > 0,
            ({
                let stored = final(scene)@.object(*self).components[component.spec_name()].last();
                &&& behaves_like(stored, component)
                &&& final(scene)@ == old(scene)@.attach(*self, component.spec_name(), stored)
            }),
            final(scene)@.extends(old(scene)@),
    {
        let component = C::create(self, arena);
        let name = component.name();
        let output = component.cloned();
        let handle = component.erase();
        let ghost stored = handle;
        scene.objects[self.0 as usize].attach(name, handle);
        assert(final(scene)@.objects =~= old(scene)@.attach(*self, output.spec_name(), stored).objects);
        output
    }

    /// The entity's name.
    pub fn to_string(&self, scene: &Scene) -> (name: String)
        requires
            scene.wf(),
            scene@.has_object(*self),
        ensures
            name@ == scene@.object(*self).name,
            name@ == object_name(self.0),
    {
        scene.objects[self.0 as usize].name.clone()
    }

    /// Takes the next id from `counter`.
    fn inc(counter: &mut u32) -> (id: u32)
        requires
            *old(counter) < u32::MAX,
        ensures
            id == *old(counter),
            *final(counter) == id + 1,
    {
        let id = *counter;
        *counter = *counter + 1;
        id
    }
}


/// A new entity has no component: a lookup finds nothing, whatever the name.
pub proof fn lemma_new_object_is_empty(scene: SceneView, name: Seq<char>)
    requires
        scene.objects.len() <= u32::MAX,
    ensures
        ({
            let (after, object) = scene.spec_new();
            &&& after.has_object(object)
            &&& after.object(object).first(name) is None
        }),
{
}

/// A component attached under a name that the entity had nothing under is
/// what a lookup of that name finds, and the reference that the lookup gives
/// does through every call what the component's own handle does: the two
/// have one parent, are attached to the same arenas, and a call changes the
/// arena, and hands back, the same through either.
pub proof fn lemma_lookup_finds_attached<C: Component>(
    scene: SceneView,
    object: GameObject,
    component: C,
    stored: Rc<Box<dyn Component>>,
    reference: LuaComponentRef,
    arena: ArenaView,
    name: Seq<char>,
    args: UserValue,
)
    requires
        scene.has_object(object),
        scene.object(object).first(component.spec_name()) is None,
        behaves_like(stored, component),
        reference.component() == stored,
    ensures
        scene.attach(object, component.spec_name(), stored).object(object).first(
            component.spec_name(),
        ) == Some(stored),
        reference.spec_name() == component.spec_name(),
        reference.has_method(name) == component.has_method(name),
        reference.attached(arena) == component.attached(arena),
        reference.spec_parent(arena) == component.spec_parent(arena),
        reference.spec_lua_call(arena, name, args) == component.spec_lua_call(arena, name, args),
{
    let before = scene.object(object).components;
    let key = component.spec_name();
    if before.contains_key(key) {
        assert(before[key].len() == 0);
        assert(before[key].push(stored)[0] == stored);
    }
}

/// A lookup finds the component that was attached first: what is attached
/// later under a name that is taken does not change what the name finds.
pub proof fn lemma_first_attached_is_found(
    scene: SceneView,
    object: GameObject,
    name: Seq<char>,
    later: Rc<Box<dyn Component>>,
)
    requires
        scene.has_object(object),
        scene.object(object).first(name) is Some,
    ensures
        scene.attach(object, name, later).object(object).first(name) == scene.object(object).first(
            name,
        ),
{
}

} // verus!
