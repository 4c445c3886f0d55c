//! The camera component.
use crate::arena::{Arena, ArenaView};
use crate::boxed::Boxed;
use crate::component::{Component, ComponentInitializer};
use crate::game_object::GameObject;
use crate::math::{Angle, Matrix4x4, Scalar};
use crate::value::UserValue;
use std::rc::Rc;
use vstd::prelude::*;
use vstd::string::StringExecFns;

verus! {

/// Bit pattern of a camera's first field of view, ninety degrees.
pub const DEFAULT_FOV_DEGREES_BITS: u32 = 0x42B4_0000;

/// Bit pattern of a camera's first near clip distance, one hundredth.
pub const DEFAULT_NEAR_BITS: u32 = 0x3C23_D70A;

/// Bit pattern of a camera's first far clip distance, one thousand.
pub const DEFAULT_FAR_BITS: u32 = 0x447A_0000;

/// The state of one camera.
#[derive(Clone, Copy, Debug, PartialEq, Eq)]
pub struct CameraInner {
    pub parent: GameObject,
    pub fov: Angle,
    pub near: Scalar,
    pub far: Scalar,
    /// The projection derived from the three fields above. Nothing derives it
    /// yet, so it is the zero matrix.
    pub perspective: Matrix4x4,
}

/// A handle to a camera's state in the arena.
#[derive(Clone, Copy, Debug, PartialEq, Eq)]
pub struct Camera(pub usize);

impl CameraInner {
    pub open spec fn spec_initial(parent: GameObject) -> CameraInner {
        CameraInner {
            parent,
            fov: Angle::Degrees(Scalar { bits: DEFAULT_FOV_DEGREES_BITS }),
            near: Scalar { bits: DEFAULT_NEAR_BITS },
            far: Scalar { bits: DEFAULT_FAR_BITS },
            perspective: Matrix4x4::spec_zero(),
        }
    }

    /// The state that a new camera of `parent` starts with: a field of view
    /// of ninety degrees, clip distances of one hundredth and one thousand,
    /// and no projection yet.
    #[verifier::when_used_as_spec(spec_initial)]
    pub fn initial(parent: GameObject) -> (inner: CameraInner)
        ensures
            inner == CameraInner::spec_initial(parent),
    {
        CameraInner {
            parent,
            fov: Angle::Degrees(Scalar { bits: DEFAULT_FOV_DEGREES_BITS }),
            near: Scalar { bits: DEFAULT_NEAR_BITS },
            far: Scalar { bits: DEFAULT_FAR_BITS },
            perspective: Matrix4x4::zero(),
        }
    }
}

impl Camera {
    /// The arena after this camera's field of view was set to `fov`.
    pub open spec fn spec_set_fov(self, arena: ArenaView, fov: Angle) -> ArenaView {
        arena.set_camera(self, CameraInner { fov, ..arena.camera(self) })
    }

    /// The arena after this camera's near clip distance was set to `near`.
    pub open spec fn spec_set_near(self, arena: ArenaView, near: Scalar) -> ArenaView {
        arena.set_camera(self, CameraInner { near, ..arena.camera(self) })
    }

    /// The arena after this camera's far clip distance was set to `far`.
    pub open spec fn spec_set_far(self, arena: ArenaView, far: Scalar) -> ArenaView {
        arena.set_camera(self, CameraInner { far, ..arena.camera(self) })
    }

    /// The arena after the accessor `fov` was called with `fov`, and the
    /// field of view it hands back.
    pub open spec fn spec_fov(self, arena: ArenaView, fov: Option<Angle>) -> (ArenaView, Angle) {
        let after = match fov {
            Some(fov) => self.spec_set_fov(arena, fov),
            None => arena,
        };
        (after, after.camera(self).fov)
    }

    /// The arena after the accessor `near` was called with `near`, and the
    /// near clip distance it hands back.
    pub open spec fn spec_near(self, arena: ArenaView, near: Option<Scalar>) -> (
        ArenaView,
        Scalar,
    ) {
        let after = match near {
            Some(near) => self.spec_set_near(arena, near),
            None => arena,
        };
        (after, after.camera(self).near)
    }

    /// The arena after the accessor `far` was called with `far`, and the
    /// distance it hands back, which is the near clip distance.
    pub open spec fn spec_far(self, arena: ArenaView, far: Option<Scalar>) -> (ArenaView, Scalar) {
        let after = match far {
            Some(far) => self.spec_set_far(arena, far),
            None => arena,
        };
        (after, after.camera(self).near)
    }

    /// The main camera: the first camera that was created in `arena`, or
    /// nothing while none was.
    pub fn main(arena: &Arena) -> (main: Option<Camera>)
        ensures
            main == arena@.main,
    {
        arena.main()
    }

    /// Sets the field of view.
    pub fn set_fov(&self, arena: &mut Arena, fov: Angle)
        requires
            old(arena)@.has_camera(*self),
        ensures
            final(arena)@ == self.spec_set_fov(old(arena)@, fov),
            final(arena)@.extends(old(arena)@),
    {
        let mut inner = arena.camera(*self);
        inner.fov = fov;
        arena.set_camera(*self, inner);
    }

    /// Sets the near clip distance.
    pub fn set_near(&self, arena: &mut Arena, near: Scalar)
        requires
            old(arena)@.has_camera(*self),
        ensures
            final(arena)@ == self.spec_set_near(old(arena)@, near),
            final(arena)@.extends(old(arena)@),
    {
        let mut inner = arena.camera(*self);
        inner.near = near;
        arena.set_camera(*self, inner);
    }

    /// Sets the far clip distance.
    pub fn set_far(&self, arena: &mut Arena, far: Scalar)
        requires
            old(arena)@.has_camera(*self),
        ensures
            final(arena)@ == self.spec_set_far(old(arena)@, far),
            final(arena)@.extends(old(arena)@),
    {
        let mut inner = arena.camera(*self);
        inner.far = far;
        arena.set_camera(*self, inner);
    }

    /// The accessor that scripts call as `fov`: sets the field of view where
    /// one is given, and returns the field of view that the camera then has.
    pub fn fov(&self, arena: &mut Arena, fov: Option<Angle>) -> (current: Angle)
        requires
            old(arena)@.has_camera(*self),
        ensures
            (final(arena)@, current) == self.spec_fov(old(arena)@, fov),
            final(arena)@.extends(old(arena)@),
    {
        if let Some(fov) = fov {
            self.set_fov(arena, fov);
        }
        arena.camera(*self).fov
    }

    /// The accessor that scripts call as `near`: sets the near clip distance
    /// where one is given, and returns the one that the camera then has.
    pub fn near(&self, arena: &mut Arena, near: Option<Scalar>) -> (current: Scalar)
        requires
            old(arena)@.has_camera(*self),
        ensures
            (final(arena)@, current) == self.spec_near(old(arena)@, near),
            final(arena)@.extends(old(arena)@),
    {
        if let Some(near) = near {
            self.set_near(arena, near);
        }
        arena.camera(*self).near
    }

    /// The accessor that scripts call as `far`: sets the far clip distance
    /// where one is given. What it returns is the near clip distance; the far
    /// one is read from the camera's state.
    pub fn far(&self, arena: &mut Arena, far: Option<Scalar>) -> (current: Scalar)
        requires
            old(arena)@.has_camera(*self),
        ensures
            (final(arena)@, current) == self.spec_far(old(arena)@, far),
            final(arena)@.extends(old(arena)@),
    {
        if let Some(far) = far {
            self.set_far(arena, far);
        }
        arena.camera(*self).near
    }
}

impl Component for Camera {
    open spec fn attached(&self, arena: ArenaView) -> bool {
        arena.has_camera(*self)
    }

    open spec fn spec_name(&self) -> Seq<char> {
        "BI_CAMERA"@
    }

    open spec fn spec_parent(&self, arena: ArenaView) -> GameObject {
        arena.camera(*self).parent
    }

    /// Scripts reach one operation through a call by name: `fov`.
    open spec fn has_method(&self, name: Seq<char>) -> bool {
        name == "fov"@
    }

    open spec fn spec_lua_call(&self, arena: ArenaView, name: Seq<char>, args: UserValue) -> (
        ArenaView,
        Option<UserValue>,
    ) {
        if self.has_method(name) {
            match args {
                UserValue::Angle(fov) => (self.spec_set_fov(arena, fov), None),
                _ => (arena, None),
            }
        } else {
            (arena, None)
        }
    }

    fn is_attached(&self, arena: &Arena) -> (attached: bool) {
        arena.contains_camera(*self)
    }

    fn parent(&self, arena: &Arena) -> (object: GameObject) {
        arena.camera(*self).parent
    }

    fn name(&self) -> (name: String) {
        String::from_str("BI_CAMERA")
    }

    fn cloned(&self) -> (copy: Self) {
        *self
    }

    fn supports(&self, name: &String) -> (known: bool) {
        *name == String::from_str("fov")
    }

    fn lua_call(&self, arena: &mut Arena, name: String, args: UserValue) -> (result: Option<
        UserValue,
    >) {
        if self.supports(&name) {
            if let UserValue::Angle(fov) = args {
                self.set_fov(arena, fov);
            }
        }
        None
    }
}

impl ComponentInitializer for Camera {
    type Inner = CameraInner;

    open spec fn spec_create(game_object: GameObject, arena: ArenaView) -> (ArenaView, Self) {
        let camera = arena.next_camera();
        (arena.push_camera(CameraInner::spec_initial(game_object)).init_main(camera), camera)
    }

    fn create(game_object: &GameObject, arena: &mut Arena) -> (component: Self) {
        let camera = arena.push_camera(CameraInner::initial(*game_object));
        arena.init_main(camera);
        camera
    }

    fn erase(self) -> (stored: Rc<Box<dyn Component>>) {
        let boxed: Box<dyn Component> = self.boxed();
        let stored = Rc::new(boxed);
        stored
    }
}

/// An accessor that is given nothing leaves the arena as it is, so that a
/// second read gives what the first gave.
pub proof fn lemma_read_twice(camera: Camera, arena: ArenaView)
    ensures
        camera.spec_fov(arena, None).0 == arena,
        camera.spec_near(arena, None).0 == arena,
        camera.spec_far(arena, None).0 == arena,
        camera.spec_fov(camera.spec_fov(arena, None).0, None).1 == camera.spec_fov(arena, None).1,
        camera.spec_near(camera.spec_near(arena, None).0, None).1 == camera.spec_near(
            arena,
            None,
        ).1,
        camera.spec_far(camera.spec_far(arena, None).0, None).1 == camera.spec_far(arena, None).1,
{
}

/// What the setter of the field of view, or of the near clip distance, has
/// written is what the accessor then reads. The accessor `far` reads the near
/// clip distance, whatever was written as the far one.
pub proof fn lemma_write_then_read(camera: Camera, arena: ArenaView, fov: Angle, distance: Scalar)
    requires
        arena.has_camera(camera),
    ensures
        camera.spec_fov(camera.spec_set_fov(arena, fov), None).1 == fov,
        camera.spec_fov(arena, Some(fov)).1 == fov,
        camera.spec_near(camera.spec_set_near(arena, distance), None).1 == distance,
        camera.spec_near(arena, Some(distance)).1 == distance,
        camera.spec_far(camera.spec_set_far(arena, distance), None).1 == arena.camera(camera).near,
        camera.spec_set_far(arena, distance).camera(camera).far == distance,
{
}

/// Of two cameras created one after the other in an arena without a main
/// camera, the first is the main camera, after the first creation and after
/// the second.
pub proof fn lemma_first_camera_is_main(arena: ArenaView, first: GameObject, second: GameObject)
    requires
        arena.main is None,
        arena.cameras.len() < usize::MAX,
    ensures
        ({
            let (once, camera) = Camera::spec_create(first, arena);
            let (twice, later) = Camera::spec_create(second, once);
            &&& once.main == Some(camera)
            &&& twice.main == Some(camera)
            &&& later != camera
        }),
{
}

/// A call under a name that the camera does not know, or with an argument
/// that is no angle, changes nothing in the arena and hands nothing back.
pub proof fn lemma_unknown_call_is_ignored(
    camera: Camera,
    arena: ArenaView,
    name: Seq<char>,
    args: UserValue,
)
    requires
        !camera.has_method(name) || !(args is Angle),
    ensures
        camera.spec_lua_call(arena, name, args) == (arena, None::<UserValue>),
{
}

} // verus!
