//! Light uniform packing and camera resolution.

use pbm_pass::camera::{get_camera, CameraData};
use pbm_pass::lights::{
    set_light_args, DirectionalLight, Light, PointLight, MAX_DIRECTIONAL_LIGHTS, MAX_POINT_LIGHTS,
};
use pbm_pass::types::{Mat4, Rgba, Vec3};

fn mat(tag: u32) -> Mat4 {
    let mut m = Mat4::identity();
    m.m03 = tag;
    m
}

fn rgba(tag: u32) -> Rgba {
    Rgba { red: tag, green: tag, blue: tag, alpha: tag }
}

fn point(tag: u32) -> PointLight {
    PointLight {
        center: Vec3 { x: tag, y: 0, z: 0 },
        radius: 5,
        intensity: 9,
        color: rgba(tag),
    }
}

fn directional(tag: u32) -> DirectionalLight {
    DirectionalLight { direction: Vec3 { x: 0, y: tag, z: 0 }, color: rgba(tag) }
}

#[test]
fn ambient_passes_through_and_lights_pack_in_order() {
    let lights = vec![
        Some(Light::Point(point(1))),
        None,
        Some(Light::Directional(directional(2))),
        Some(Light::Point(point(3))),
    ];
    let packed = set_light_args(rgba(7), &lights);
    assert_eq!(packed.ambient, rgba(7));
    assert_eq!(packed.point, vec![point(1), point(3)]);
    assert_eq!(packed.directional, vec![directional(2)]);
}

#[test]
fn point_lights_beyond_capacity_are_dropped() {
    // Two more point lights than the buffer holds: exactly the capacity is
    // uploaded, keeping the first lights in iteration order, and nothing
    // fails.
    let mut lights: Vec<Option<Light>> = Vec::new();
    for i in 0..(MAX_POINT_LIGHTS + 2) {
        lights.push(Some(Light::Point(point(i as u32))));
    }
    let packed = set_light_args(rgba(0), &lights);
    assert_eq!(packed.point.len(), MAX_POINT_LIGHTS);
    assert_eq!(packed.point[0], point(0));
    assert_eq!(packed.point[MAX_POINT_LIGHTS - 1], point(MAX_POINT_LIGHTS as u32 - 1));
}

#[test]
fn directional_lights_beyond_capacity_are_dropped() {
    let mut lights: Vec<Option<Light>> = Vec::new();
    for i in 0..(MAX_DIRECTIONAL_LIGHTS + 3) {
        lights.push(Some(Light::Directional(directional(i as u32))));
    }
    let packed = set_light_args(rgba(0), &lights);
    assert_eq!(packed.directional.len(), MAX_DIRECTIONAL_LIGHTS);
    assert_eq!(packed.directional[0], directional(0));
}

#[test]
fn a_full_point_buffer_still_accepts_directional_lights() {
    let mut lights: Vec<Option<Light>> = Vec::new();
    for i in 0..(MAX_POINT_LIGHTS + 1) {
        lights.push(Some(Light::Point(point(i as u32))));
    }
    lights.push(Some(Light::Directional(directional(42))));
    let packed = set_light_args(rgba(0), &lights);
    assert_eq!(packed.point.len(), MAX_POINT_LIGHTS);
    assert_eq!(packed.directional, vec![directional(42)]);
}

#[test]
fn active_camera_wins() {
    let camera = vec![Some(mat(1)), Some(mat(2))];
    let global = vec![Some(mat(11)), Some(mat(12))];
    let resolved = get_camera(Some(1), &camera, &global);
    assert_eq!(resolved, CameraData { proj: mat(2), view: mat(12) });
}

#[test]
fn dangling_active_camera_falls_back_to_first_camera() {
    // The marker points at an entity with no transform: the first full
    // camera+transform pair in entity order serves instead.
    let camera = vec![None, Some(mat(2)), Some(mat(3))];
    let global = vec![Some(mat(11)), None, Some(mat(13))];
    let resolved = get_camera(Some(1), &camera, &global);
    assert_eq!(resolved, CameraData { proj: mat(3), view: mat(13) });
}

#[test]
fn out_of_range_active_camera_falls_back() {
    let camera = vec![Some(mat(1))];
    let global = vec![Some(mat(11))];
    let resolved = get_camera(Some(5), &camera, &global);
    assert_eq!(resolved, CameraData { proj: mat(1), view: mat(11) });
}

#[test]
fn no_camera_resolves_to_identity() {
    let camera = vec![None, None];
    let global = vec![Some(mat(11)), None];
    let resolved = get_camera(None, &camera, &global);
    assert_eq!(resolved, CameraData { proj: Mat4::identity(), view: Mat4::identity() });
}
