//! Draw traversal: one frame's command stream over scenes of entities.

use pbm_pass::camera::CameraData;
use pbm_pass::draw::JointBinding;
use pbm_pass::effect::MAX_JOINTS;
use pbm_pass::pass::DrawPbmSeparate;
use pbm_pass::scene::{JointTransforms, Material, MaterialDefaults, MeshData, Scene};
use pbm_pass::types::{Mat4, Rgba};

fn mat(tag: u32) -> Mat4 {
    let mut m = Mat4::identity();
    m.m03 = tag;
    m
}

fn rgba(tag: u32) -> Rgba {
    Rgba { red: tag, green: tag, blue: tag, alpha: tag }
}

fn defaults() -> MaterialDefaults {
    MaterialDefaults {
        albedo: 100,
        emissive: 101,
        normal: 102,
        metallic_roughness: 103,
        ambient_occlusion: 104,
    }
}

/// A scene of `n` entities carrying nothing, with one resident mesh asset
/// under handle 0.
fn base_scene(n: usize) -> Scene {
    Scene {
        active_camera: None,
        ambient: rgba(1),
        mesh_storage: vec![Some(MeshData { vertex_count: 3 })],
        texture_storage: vec![],
        material_defaults: defaults(),
        transparent_ordering: vec![],
        camera: vec![None; n],
        mesh_handle: vec![None; n],
        material: vec![None; n],
        global: vec![None; n],
        light: vec![None; n],
        joints: vec![None; n],
        transparent: vec![false; n],
    }
}

fn give_renderables(scene: &mut Scene, entity: usize) {
    scene.mesh_handle[entity] = Some(0);
    scene.material[entity] = Some(Material::empty());
    scene.global[entity] = Some(mat(50 + entity as u32));
}

#[test]
fn single_opaque_entity_draws_once() {
    // One renderable entity, no transparency marker, ambient light only:
    // exactly one opaque draw call, ambient-only light uniforms, and no
    // transparent draw calls.
    let mut scene = base_scene(1);
    give_renderables(&mut scene, 0);
    let pass = DrawPbmSeparate::new();
    let effect = pass.compile().unwrap();
    let out = pass.apply(&effect, &scene);

    assert_eq!(out.draws.len(), 1);
    assert_eq!(out.draws[0].entity, 0);
    assert_eq!(out.draws[0].vertex_count, 3);
    assert_eq!(out.draws[0].vertex_args.model, mat(50));
    assert_eq!(out.draws[0].joints, JointBinding::Unskinned);
    assert_eq!(out.lights.ambient, rgba(1));
    assert!(out.lights.point.is_empty());
    assert!(out.lights.directional.is_empty());
}

#[test]
fn opaque_pass_skips_transparent_marked_entities() {
    // Both entities are renderable; the marked one is left to the
    // transparent pass, which has no ordering entry for it this frame.
    let mut scene = base_scene(2);
    give_renderables(&mut scene, 0);
    give_renderables(&mut scene, 1);
    scene.transparent[1] = true;
    let pass = DrawPbmSeparate::new();
    let effect = pass.compile().unwrap();
    let out = pass.apply(&effect, &scene);

    assert_eq!(out.draws.len(), 1);
    assert_eq!(out.draws[0].entity, 0);
}

#[test]
fn transparent_draws_follow_the_ordering_list() {
    // Ordering list [1, 0] wins over entity-creation order.
    let mut scene = base_scene(2);
    give_renderables(&mut scene, 0);
    give_renderables(&mut scene, 1);
    scene.transparent[0] = true;
    scene.transparent[1] = true;
    scene.transparent_ordering = vec![1, 0];
    let pass = DrawPbmSeparate::new();
    let effect = pass.compile().unwrap();
    let out = pass.apply(&effect, &scene);

    let entities: Vec<usize> = out.draws.iter().map(|d| d.entity).collect();
    assert_eq!(entities, vec![1, 0]);
}

#[test]
fn ordering_entries_are_skipped_not_reordered() {
    // Entity 2 has no mesh handle and entity 7 does not exist: both skip,
    // and the rest keep the list's order.
    let mut scene = base_scene(4);
    give_renderables(&mut scene, 0);
    give_renderables(&mut scene, 1);
    give_renderables(&mut scene, 3);
    for e in [0, 1, 2, 3] {
        scene.transparent[e] = true;
    }
    scene.transparent_ordering = vec![3, 2, 7, 0, 1];
    let pass = DrawPbmSeparate::new();
    let effect = pass.compile().unwrap();
    let out = pass.apply(&effect, &scene);

    let entities: Vec<usize> = out.draws.iter().map(|d| d.entity).collect();
    assert_eq!(entities, vec![3, 0, 1]);
}

#[test]
fn listed_entity_missing_material_and_transform_still_draws() {
    // A listed entity needs only its mesh: the material falls back to the
    // defaults and the transform to identity.
    let mut scene = base_scene(1);
    scene.mesh_handle[0] = Some(0);
    scene.transparent[0] = true;
    scene.transparent_ordering = vec![0];
    scene.texture_storage = vec![true; 8];
    let pass = DrawPbmSeparate::new();
    let effect = pass.compile().unwrap();
    let out = pass.apply(&effect, &scene);

    assert_eq!(out.draws.len(), 1);
    assert_eq!(out.draws[0].vertex_args.model, Mat4::identity());
    assert_eq!(out.draws[0].textures.albedo, 100);
    assert_eq!(out.draws[0].textures.emissive, 101);
    assert_eq!(out.draws[0].textures.normal, 102);
    assert_eq!(out.draws[0].textures.metallic_roughness, 103);
    assert_eq!(out.draws[0].textures.ambient_occlusion, 104);
}

#[test]
fn unloaded_mesh_asset_skips_the_entity() {
    // Handle 1 has no resident asset and handle 2 is out of range: both
    // entities skip this frame; the loaded one draws.
    let mut scene = base_scene(3);
    give_renderables(&mut scene, 0);
    give_renderables(&mut scene, 1);
    give_renderables(&mut scene, 2);
    scene.mesh_storage = vec![Some(MeshData { vertex_count: 3 }), None];
    scene.mesh_handle[1] = Some(1);
    scene.mesh_handle[2] = Some(2);
    let pass = DrawPbmSeparate::new();
    let effect = pass.compile().unwrap();
    let out = pass.apply(&effect, &scene);

    assert_eq!(out.draws.len(), 1);
    assert_eq!(out.draws[0].entity, 0);
}

#[test]
fn opaque_entity_without_material_or_transform_is_not_drawn() {
    let mut scene = base_scene(2);
    scene.mesh_handle[0] = Some(0);
    scene.material[0] = Some(Material::empty());
    // entity 0 lacks a transform; entity 1 lacks a material
    scene.mesh_handle[1] = Some(0);
    scene.global[1] = Some(mat(51));
    let pass = DrawPbmSeparate::new();
    let effect = pass.compile().unwrap();
    let out = pass.apply(&effect, &scene);
    assert!(out.draws.is_empty());
}

#[test]
fn set_textures_fall_back_per_channel() {
    // A set, resident handle binds; a set, non-resident handle and an
    // unset channel both fall back to the defaults.
    let mut scene = base_scene(1);
    give_renderables(&mut scene, 0);
    scene.texture_storage = vec![false; 10];
    scene.texture_storage[7] = true;
    scene.material[0] = Some(Material {
        albedo: Some(7),
        emissive: None,
        normal: Some(9),
        metallic_roughness: Some(11),
        ambient_occlusion: None,
    });
    let pass = DrawPbmSeparate::new();
    let effect = pass.compile().unwrap();
    let out = pass.apply(&effect, &scene);

    assert_eq!(out.draws[0].textures.albedo, 7);
    assert_eq!(out.draws[0].textures.emissive, 101);
    assert_eq!(out.draws[0].textures.normal, 102);
    assert_eq!(out.draws[0].textures.metallic_roughness, 103);
    assert_eq!(out.draws[0].textures.ambient_occlusion, 104);
}

#[test]
fn skinned_entity_without_joints_gets_identity_pose() {
    // Skinning enabled and no JointTransforms component: the draw still
    // succeeds, with the identity joint set.
    let mut scene = base_scene(1);
    give_renderables(&mut scene, 0);
    let pass = DrawPbmSeparate::new().with_vertex_skinning();
    let effect = pass.compile().unwrap();
    let out = pass.apply(&effect, &scene);

    assert_eq!(out.draws.len(), 1);
    assert_eq!(out.draws[0].joints, JointBinding::Identity);
}

#[test]
fn skinned_entity_binds_its_joint_matrices() {
    let mut scene = base_scene(1);
    give_renderables(&mut scene, 0);
    scene.joints[0] = Some(JointTransforms { matrices: vec![mat(1), mat(2)] });
    let pass = DrawPbmSeparate::new().with_vertex_skinning();
    let effect = pass.compile().unwrap();
    let out = pass.apply(&effect, &scene);

    assert_eq!(out.draws[0].joints, JointBinding::Posed(vec![mat(1), mat(2)]));
}

#[test]
fn joint_matrices_beyond_capacity_are_truncated() {
    let mut scene = base_scene(1);
    give_renderables(&mut scene, 0);
    scene.joints[0] = Some(JointTransforms { matrices: vec![mat(9); MAX_JOINTS + 2] });
    let pass = DrawPbmSeparate::new().with_vertex_skinning();
    let effect = pass.compile().unwrap();
    let out = pass.apply(&effect, &scene);

    match &out.draws[0].joints {
        JointBinding::Posed(m) => assert_eq!(m.len(), MAX_JOINTS),
        other => panic!("expected a posed joint binding, got {:?}", other),
    }
}

#[test]
fn unskinned_pass_ignores_joint_components() {
    let mut scene = base_scene(1);
    give_renderables(&mut scene, 0);
    scene.joints[0] = Some(JointTransforms { matrices: vec![mat(1)] });
    let pass = DrawPbmSeparate::new();
    let effect = pass.compile().unwrap();
    let out = pass.apply(&effect, &scene);

    assert_eq!(out.draws[0].joints, JointBinding::Unskinned);
}

#[test]
fn no_camera_still_renders_with_identity() {
    // No camera entity exists: the traversal completes and every draw is
    // bound with the neutral identity camera.
    let mut scene = base_scene(1);
    give_renderables(&mut scene, 0);
    let pass = DrawPbmSeparate::new();
    let effect = pass.compile().unwrap();
    let out = pass.apply(&effect, &scene);

    assert_eq!(out.camera, CameraData { proj: Mat4::identity(), view: Mat4::identity() });
    assert_eq!(out.draws.len(), 1);
    assert_eq!(out.draws[0].vertex_args.proj, Mat4::identity());
    assert_eq!(out.draws[0].vertex_args.view, Mat4::identity());
}

#[test]
fn draws_bind_the_resolved_camera() {
    let mut scene = base_scene(2);
    give_renderables(&mut scene, 0);
    scene.camera[1] = Some(mat(70));
    scene.global[1] = Some(mat(71));
    scene.active_camera = Some(1);
    let pass = DrawPbmSeparate::new();
    let effect = pass.compile().unwrap();
    let out = pass.apply(&effect, &scene);

    assert_eq!(out.camera, CameraData { proj: mat(70), view: mat(71) });
    assert_eq!(out.draws[0].vertex_args.proj, mat(70));
    assert_eq!(out.draws[0].vertex_args.view, mat(71));
}

#[test]
fn empty_scene_produces_empty_frame() {
    let scene = base_scene(0);
    let pass = DrawPbmSeparate::new();
    let effect = pass.compile().unwrap();
    let out = pass.apply(&effect, &scene);
    assert!(out.draws.is_empty());
    assert_eq!(out.lights.ambient, rgba(1));
}
