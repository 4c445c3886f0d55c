use game_entity::arena::Arena;
use game_entity::component::camera::{
    Camera, CameraInner, DEFAULT_FAR_BITS, DEFAULT_FOV_DEGREES_BITS, DEFAULT_NEAR_BITS,
};
use game_entity::component::lua_component_ref::LuaComponentRef;
use game_entity::component::transform::{Transform, TransformInner};
use game_entity::component::{Component, ComponentInitializer};
use game_entity::game_object::{GameObject, Scene};
use game_entity::math::{Angle, Matrix4x4, Quat, Scalar, Vec3};
use game_entity::value::UserValue;

fn degrees(value: f32) -> Angle {
    Angle::Degrees(Scalar { bits: value.to_bits() })
}

fn number(value: f32) -> Scalar {
    Scalar { bits: value.to_bits() }
}

fn camera_on_new_entity(scene: &mut Scene, arena: &mut Arena) -> (GameObject, Camera) {
    let object = GameObject::new(scene);
    let camera: Camera = object.add_component(scene, arena);
    (object, camera)
}

#[test]
fn camera_starts_with_its_defaults() {
    let mut scene = Scene::new();
    let mut arena = Arena::new();
    let (object, camera) = camera_on_new_entity(&mut scene, &mut arena);
    let inner: CameraInner = arena.camera(camera);
    assert_eq!(inner.parent, object);
    assert_eq!(inner.fov, degrees(90.0));
    assert_eq!(inner.near, number(0.01));
    assert_eq!(inner.far, number(1000.0));
    assert_eq!(inner.perspective, Matrix4x4::zero());
    assert_eq!(f32::from_bits(DEFAULT_FOV_DEGREES_BITS), 90.0);
    assert_eq!(f32::from_bits(DEFAULT_NEAR_BITS), 0.01);
    assert_eq!(f32::from_bits(DEFAULT_FAR_BITS), 1000.0);
    let mut row: usize = 0;
    while row < 4 {
        let mut column: usize = 0;
        while column < 4 {
            assert_eq!(f32::from_bits(inner.perspective.rows[row][column].bits), 0.0);
            column += 1;
        }
        row += 1;
    }
}

#[test]
fn fov_set_then_read() {
    let mut scene = Scene::new();
    let mut arena = Arena::new();
    let (_, camera) = camera_on_new_entity(&mut scene, &mut arena);
    assert_eq!(camera.fov(&mut arena, Some(degrees(45.0))), degrees(45.0));
    assert_eq!(camera.fov(&mut arena, None), degrees(45.0));
}

#[test]
fn setter_then_accessor_returns_what_was_set() {
    let mut scene = Scene::new();
    let mut arena = Arena::new();
    let (_, camera) = camera_on_new_entity(&mut scene, &mut arena);
    camera.set_fov(&mut arena, Angle::Radians(number(1.5)));
    assert_eq!(camera.fov(&mut arena, None), Angle::Radians(number(1.5)));
    camera.set_near(&mut arena, number(0.5));
    assert_eq!(camera.near(&mut arena, None), number(0.5));
    assert_eq!(camera.near(&mut arena, Some(number(0.25))), number(0.25));
    assert_eq!(arena.camera(camera).near, number(0.25));
}

#[test]
fn reading_twice_gives_one_value() {
    let mut scene = Scene::new();
    let mut arena = Arena::new();
    let (_, camera) = camera_on_new_entity(&mut scene, &mut arena);
    camera.set_fov(&mut arena, degrees(30.0));
    let first = camera.fov(&mut arena, None);
    let second = camera.fov(&mut arena, None);
    assert_eq!(first, second);
    assert_eq!(camera.near(&mut arena, None), camera.near(&mut arena, None));
    assert_eq!(camera.far(&mut arena, None), camera.far(&mut arena, None));
    let before = arena.camera(camera);
    camera.fov(&mut arena, None);
    camera.near(&mut arena, None);
    camera.far(&mut arena, None);
    assert_eq!(arena.camera(camera), before);
}

#[test]
fn far_accessor_sets_far_and_returns_near() {
    let mut scene = Scene::new();
    let mut arena = Arena::new();
    let (_, camera) = camera_on_new_entity(&mut scene, &mut arena);
    assert_eq!(camera.far(&mut arena, None), number(0.01));
    assert_eq!(camera.far(&mut arena, Some(number(500.0))), number(0.01));
    assert_eq!(arena.camera(camera).far, number(500.0));
    assert_eq!(arena.camera(camera).near, number(0.01));
    camera.set_far(&mut arena, number(250.0));
    assert_eq!(arena.camera(camera).far, number(250.0));
    camera.set_near(&mut arena, number(2.0));
    assert_eq!(camera.far(&mut arena, None), number(2.0));
}

#[test]
fn setters_touch_one_field_of_one_camera() {
    let mut scene = Scene::new();
    let mut arena = Arena::new();
    let (_, first) = camera_on_new_entity(&mut scene, &mut arena);
    let (_, second) = camera_on_new_entity(&mut scene, &mut arena);
    let untouched = arena.camera(second);
    let before = arena.camera(first);
    first.set_fov(&mut arena, degrees(10.0));
    let after = arena.camera(first);
    assert_eq!(after.fov, degrees(10.0));
    assert_eq!(after.near, before.near);
    assert_eq!(after.far, before.far);
    assert_eq!(after.parent, before.parent);
    assert_eq!(after.perspective, before.perspective);
    assert_eq!(arena.camera(second), untouched);
}

#[test]
fn main_camera_is_the_first_created() {
    let mut scene = Scene::new();
    let mut arena = Arena::new();
    assert_eq!(Camera::main(&arena), None);
    let (_, first) = camera_on_new_entity(&mut scene, &mut arena);
    assert_eq!(Camera::main(&arena), Some(first));
    let (_, second) = camera_on_new_entity(&mut scene, &mut arena);
    assert_ne!(first, second);
    assert_eq!(Camera::main(&arena), Some(first));
    second.set_fov(&mut arena, degrees(1.0));
    let object = GameObject::new(&mut scene);
    let _third: Camera = object.add_component(&mut scene, &mut arena);
    let _transform: Transform = object.add_component(&mut scene, &mut arena);
    assert_eq!(Camera::main(&arena), Some(first));
    assert_eq!(arena.main(), Some(first));
}

#[test]
fn main_camera_is_offered_only_once() {
    let mut arena = Arena::new();
    let first = arena.push_camera(CameraInner::initial(GameObject(0)));
    let second = arena.push_camera(CameraInner::initial(GameObject(0)));
    assert_eq!(arena.main(), None);
    arena.init_main(second);
    assert_eq!(arena.main(), Some(second));
    arena.init_main(first);
    assert_eq!(arena.main(), Some(second));
}

#[test]
fn create_does_not_attach() {
    let mut scene = Scene::new();
    let mut arena = Arena::new();
    let object = GameObject::new(&mut scene);
    let camera = Camera::create(&object, &mut arena);
    assert!(camera.is_attached(&arena));
    assert_eq!(camera.parent(&arena), object);
    assert!(object.get_lua_component(&scene, "BI_CAMERA".to_string()).is_none());
}

#[test]
fn dynamic_fov_call_reaches_the_camera() {
    let mut scene = Scene::new();
    let mut arena = Arena::new();
    let (object, camera) = camera_on_new_entity(&mut scene, &mut arena);
    let reference: LuaComponentRef =
        object.get_lua_component(&scene, "BI_CAMERA".to_string()).unwrap();
    let result = reference.lua_call(&mut arena, "fov".to_string(), UserValue::Angle(degrees(60.0)));
    assert_eq!(result, None);
    assert_eq!(camera.fov(&mut arena, None), degrees(60.0));
    let direct = camera.lua_call(&mut arena, "fov".to_string(), UserValue::Angle(degrees(61.0)));
    assert_eq!(direct, None);
    assert_eq!(arena.camera(camera).fov, degrees(61.0));
}

#[test]
fn unknown_method_changes_nothing() {
    let mut scene = Scene::new();
    let mut arena = Arena::new();
    let (object, camera) = camera_on_new_entity(&mut scene, &mut arena);
    let transform: Transform = object.add_component(&mut scene, &mut arena);
    let camera_before = arena.camera(camera);
    let transform_before = arena.transform(transform);
    let main_before = arena.main();
    let names = ["zoom", "near", "far", "FOV", "fov ", "", "parent"];
    for name in names {
        let argument = UserValue::Angle(degrees(12.0));
        assert_eq!(camera.lua_call(&mut arena, name.to_string(), argument), None);
        assert_eq!(transform.lua_call(&mut arena, name.to_string(), argument), None);
        let reference = object.get_lua_component(&scene, "BI_CAMERA".to_string()).unwrap();
        assert_eq!(reference.lua_call(&mut arena, name.to_string(), argument), None);
    }
    assert_eq!(arena.camera(camera), camera_before);
    assert_eq!(arena.transform(transform), transform_before);
    assert_eq!(arena.main(), main_before);
}

#[test]
fn argument_of_another_type_changes_nothing() {
    let mut scene = Scene::new();
    let mut arena = Arena::new();
    let (object, camera) = camera_on_new_entity(&mut scene, &mut arena);
    let before = arena.camera(camera);
    let arguments = [UserValue::Object(object), UserValue::Camera(camera), UserValue::Other];
    for argument in arguments {
        assert_eq!(camera.lua_call(&mut arena, "fov".to_string(), argument), None);
    }
    assert_eq!(arena.camera(camera), before);
}

#[test]
fn transform_starts_with_its_defaults() {
    let mut scene = Scene::new();
    let mut arena = Arena::new();
    let object = GameObject::new(&mut scene);
    let transform: Transform = object.add_component(&mut scene, &mut arena);
    let inner: TransformInner = arena.transform(transform);
    assert_eq!(inner.parent, object);
    assert_eq!(inner.position, Vec3::zero());
    assert_eq!(inner.rotation, Quat::identity());
    assert_eq!(inner.scale, Vec3::one());
    assert_eq!(f32::from_bits(inner.position.x.bits), 0.0);
    assert_eq!(f32::from_bits(inner.position.y.bits), 0.0);
    assert_eq!(f32::from_bits(inner.position.z.bits), 0.0);
    assert_eq!(f32::from_bits(inner.scale.x.bits), 1.0);
    assert_eq!(f32::from_bits(inner.scale.y.bits), 1.0);
    assert_eq!(f32::from_bits(inner.scale.z.bits), 1.0);
    assert_eq!(f32::from_bits(inner.rotation.x.bits), 0.0);
    assert_eq!(f32::from_bits(inner.rotation.y.bits), 0.0);
    assert_eq!(f32::from_bits(inner.rotation.z.bits), 0.0);
    assert_eq!(f32::from_bits(inner.rotation.w.bits), 1.0);
    assert_eq!(Camera::main(&arena), None);
}

#[test]
fn transform_ignores_every_call() {
    let mut scene = Scene::new();
    let mut arena = Arena::new();
    let object = GameObject::new(&mut scene);
    let transform: Transform = object.add_component(&mut scene, &mut arena);
    let before = arena.transform(transform);
    let outcome =
        transform.lua_call(&mut arena, "fov".to_string(), UserValue::Angle(degrees(60.0)));
    assert_eq!(outcome, None);
    let reference = object.get_lua_component(&scene, "BI_TRANSFORM".to_string()).unwrap();
    let through =
        reference.lua_call(&mut arena, "position".to_string(), UserValue::Object(object));
    assert_eq!(through, None);
    assert_eq!(arena.transform(transform), before);
}

#[test]
fn supported_methods_can_be_told() {
    let mut scene = Scene::new();
    let mut arena = Arena::new();
    let (object, camera) = camera_on_new_entity(&mut scene, &mut arena);
    let transform: Transform = object.add_component(&mut scene, &mut arena);
    assert!(camera.supports(&"fov".to_string()));
    assert!(!camera.supports(&"near".to_string()));
    assert!(!camera.supports(&"far".to_string()));
    assert!(!camera.supports(&"".to_string()));
    assert!(!transform.supports(&"fov".to_string()));
    assert!(!transform.supports(&"position".to_string()));
    let reference = object.get_lua_component(&scene, "BI_CAMERA".to_string()).unwrap();
    assert!(reference.supports(&"fov".to_string()));
    assert!(!reference.supports(&"zoom".to_string()));
    let other = object.get_lua_component(&scene, "BI_TRANSFORM".to_string()).unwrap();
    assert!(!other.supports(&"fov".to_string()));
}

#[test]
fn component_names_are_fixed() {
    let mut scene = Scene::new();
    let mut arena = Arena::new();
    let (object, camera) = camera_on_new_entity(&mut scene, &mut arena);
    let transform: Transform = object.add_component(&mut scene, &mut arena);
    assert_eq!(camera.name(), "BI_CAMERA");
    assert_eq!(transform.name(), "BI_TRANSFORM");
    camera.set_fov(&mut arena, degrees(5.0));
    assert_eq!(camera.name(), "BI_CAMERA");
    assert_eq!(camera.cloned().name(), "BI_CAMERA");
}

#[test]
fn clones_share_one_state() {
    let mut scene = Scene::new();
    let mut arena = Arena::new();
    let (_, camera) = camera_on_new_entity(&mut scene, &mut arena);
    let copy = camera.cloned();
    let other = camera.clone();
    assert_eq!(copy, camera);
    assert_eq!(other, camera);
    copy.set_fov(&mut arena, degrees(33.0));
    assert_eq!(camera.fov(&mut arena, None), degrees(33.0));
    assert_eq!(other.fov(&mut arena, None), degrees(33.0));
}

#[test]
fn handle_of_another_arena_is_not_attached() {
    let mut scene = Scene::new();
    let mut arena = Arena::new();
    let (_, camera) = camera_on_new_entity(&mut scene, &mut arena);
    let empty = Arena::new();
    assert!(camera.is_attached(&arena));
    assert!(!camera.is_attached(&empty));
    assert!(arena.contains_camera(camera));
    assert!(!arena.contains_camera(Camera(1)));
    assert!(!arena.contains_transform(Transform(0)));
}
