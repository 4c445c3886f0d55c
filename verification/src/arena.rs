//! The state that component handles refer to.
//!
//! A handle is a slot number. Every copy of a handle names the same slot, so
//! what one copy writes is what every other copy reads: the arena is the one
//! place where the state of all components lives, and an exclusive borrow of
//! it is what a write needs.
use crate::component::camera::{Camera, CameraInner};
use crate::component::transform::{Transform, TransformInner};
use vstd::prelude::*;

verus! {

/// The arena as contracts see it.
pub ghost struct ArenaView {
    /// The state of each camera, by slot.
    pub cameras: Seq<CameraInner>,
    /// The state of each transform, by slot.
    pub transforms: Seq<TransformInner>,
    /// The first camera that was ever created here, once there is one.
    pub main: Option<Camera>,
}

impl ArenaView {
    /// The arena that holds nothing.
    pub open spec fn empty() -> ArenaView {
        ArenaView { cameras: Seq::empty(), transforms: Seq::empty(), main: None }
    }

    /// The main camera, where one is set, names an existing slot.
    pub open spec fn wf(self) -> bool {
        self.main matches Some(camera) ==> self.has_camera(camera)
    }

    pub open spec fn has_camera(self, camera: Camera) -> bool {
        camera.0 < self.cameras.len()
    }

    pub open spec fn has_transform(self, transform: Transform) -> bool {
        transform.0 < self.transforms.len()
    }

    pub open spec fn camera(self, camera: Camera) -> CameraInner {
        self.cameras[camera.0 as int]
    }

    pub open spec fn transform(self, transform: Transform) -> TransformInner {
        self.transforms[transform.0 as int]
    }

    /// The handle that the next camera gets.
    pub open spec fn next_camera(self) -> Camera {
        Camera(self.cameras.len() as usize)
    }

    /// The handle that the next transform gets.
    pub open spec fn next_transform(self) -> Transform {
        Transform(self.transforms.len() as usize)
    }

    /// The arena with one more camera, in a new slot.
    pub open spec fn push_camera(self, inner: CameraInner) -> ArenaView {
        ArenaView { cameras: self.cameras.push(inner), ..self }
    }

    /// The arena with one more transform, in a new slot.
    pub open spec fn push_transform(self, inner: TransformInner) -> ArenaView {
        ArenaView { transforms: self.transforms.push(inner), ..self }
    }

    /// The arena with the state of `camera` replaced.
    pub open spec fn set_camera(self, camera: Camera, inner: CameraInner) -> ArenaView {
        ArenaView { cameras: self.cameras.update(camera.0 as int, inner), ..self }
    }

    /// The arena after `camera` was offered as main camera: it becomes the
    /// main camera only where there is none yet.
    pub open spec fn init_main(self, camera: Camera) -> ArenaView {
        if self.main is None {
            ArenaView { main: Some(camera), ..self }
        } else {
            self
        }
    }

    /// Whether `self` is a state that `earlier` may have grown into: no slot
    /// is gone, no component has changed its parent, and a main camera, once
    /// set, is still the same.
    pub open spec fn extends(self, earlier: ArenaView) -> bool {
        &&& earlier.cameras.len() <= self.cameras.len()
        &&& earlier.transforms.len() <= self.transforms.len()
        &&& forall|i: int|
            0 <= i < earlier.cameras.len() ==> (#[trigger] self.cameras[i]).parent
                == earlier.cameras[i].parent
        &&& forall|i: int|
            0 <= i < earlier.transforms.len() ==> (#[trigger] self.transforms[i]).parent
                == earlier.transforms[i].parent
        &&& earlier.main is Some ==> self.main == earlier.main
    }
}

/// Growth goes on: what extends a state that extends another extends that
/// other too, and every state extends itself.
pub proof fn lemma_extends_is_a_preorder(first: ArenaView, second: ArenaView, third: ArenaView)
    ensures
        first.extends(first),
        second.extends(first) && third.extends(second) ==> third.extends(first),
{
}

/// A new state for one camera, under the same parent, leaves every other
/// camera, every transform and the main camera as they were.
pub proof fn lemma_set_camera_is_local(
    arena: ArenaView,
    camera: Camera,
    inner: CameraInner,
    other: Camera,
)
    requires
        arena.has_camera(camera),
        arena.has_camera(other),
        other != camera,
        inner.parent == arena.camera(camera).parent,
    ensures
        arena.set_camera(camera, inner).camera(camera) == inner,
        arena.set_camera(camera, inner).camera(other) == arena.camera(other),
        arena.set_camera(camera, inner).transforms == arena.transforms,
        arena.set_camera(camera, inner).main == arena.main,
        arena.set_camera(camera, inner).extends(arena),
{
}

/// Once a main camera is set, it is the main camera of every later state.
pub proof fn lemma_main_is_kept(earlier: ArenaView, later: ArenaView)
    requires
        later.extends(earlier),
        earlier.main is Some,
    ensures
        later.main == earlier.main,
{
}

/// Owns the state of every component.
pub struct Arena {
    cameras: Vec<CameraInner>,
    transforms: Vec<TransformInner>,
    main: Option<Camera>,
}

impl View for Arena {
    type V = ArenaView;

    closed spec fn view(&self) -> ArenaView {
        ArenaView { cameras: self.cameras@, transforms: self.transforms@, main: self.main }
    }
}

impl Arena {
    /// An arena without components and without a main camera.
    pub fn new() -> (arena: Arena)
        ensures
            arena@ == ArenaView::empty(),
    {
        Arena { cameras: Vec::new(), transforms: Vec::new(), main: None }
    }

    /// The main camera, if one was set.
    pub fn main(&self) -> (main: Option<Camera>)
        ensures
            main == self@.main,
    {
        self.main
    }

    /// Makes `camera` the main camera unless there is one already. The test
    /// and the assignment are one step under the exclusive borrow.
    pub fn init_main(&mut self, camera: Camera)
        requires
            old(self)@.has_camera(camera),
        ensures
            final(self)@ == old(self)@.init_main(camera),
            final(self)@.extends(old(self)@),
    {
        if self.main.is_none() {
            self.main = Some(camera);
        }
    }

    /// Stores `inner` in a new slot and returns the handle to it.
    pub fn push_camera(&mut self, inner: CameraInner) -> (camera: Camera)
        ensures
            camera == old(self)@.next_camera(),
            camera.0 == old(self)@.cameras.len(),
            final(self)@ == old(self)@.push_camera(inner),
            final(self)@.extends(old(self)@),
    {
        let slot = self.cameras.len();
        self.cameras.push(inner);
        Camera(slot)
    }

    /// Tells whether `camera` names a slot of this arena.
    pub fn contains_camera(&self, camera: Camera) -> (found: bool)
        ensures
            found == self@.has_camera(camera),
    {
        camera.0 < self.cameras.len()
    }

    /// The state of `camera`.
    pub fn camera(&self, camera: Camera) -> (inner: CameraInner)
        requires
            self@.has_camera(camera),
        ensures
            inner == self@.camera(camera),
    {
        self.cameras[camera.0]
    }

    /// Replaces the state of `camera`. The camera stays with its parent.
    pub fn set_camera(&mut self, camera: Camera, inner: CameraInner)
        requires
            old(self)@.has_camera(camera),
            inner.parent == old(self)@.camera(camera).parent,
        ensures
            final(self)@ == old(self)@.set_camera(camera, inner),
            final(self)@.extends(old(self)@),
    {
        self.cameras[camera.0] = inner;
    }

    /// Stores `inner` in a new slot and returns the handle to it.
    pub fn push_transform(&mut self, inner: TransformInner) -> (transform: Transform)
        ensures
            transform == old(self)@.next_transform(),
            transform.0 == old(self)@.transforms.len(),
            final(self)@ == old(self)@.push_transform(inner),
            final(self)@.extends(old(self)@),
    {
        let slot = self.transforms.len();
        self.transforms.push(inner);
        Transform(slot)
    }

    /// Tells whether `transform` names a slot of this arena.
    pub fn contains_transform(&self, transform: Transform) -> (found: bool)
        ensures
            found == self@.has_transform(transform),
    {
        transform.0 < self.transforms.len()
    }

    /// The state of `transform`.
    pub fn transform(&self, transform: Transform) -> (inner: TransformInner)
        requires
            self@.has_transform(transform),
        ensures
            inner == self@.transform(transform),
    {
        self.transforms[transform.0]
    }
}

} // verus!
