//! The frame's read-only scene description: asset storages, process-wide
//! resources, and per-entity component columns.
//!
//! Entities are dense indices.  Each component is a column with one slot
//! per entity; `None` means the entity does not carry that component.  The
//! columns are read-only within a frame: the transform system and the
//! transparency-ordering system publish their results before the draw
//! traversal runs.

use vstd::prelude::*;
use crate::lights::Light;
use crate::types::{Mat4, Rgba};

verus! {

/// A mesh resident in the asset storage: how many vertices one draw call
/// of it covers.  The vertex buffers themselves live on the GPU.
#[derive(Clone, Copy, Debug, PartialEq, Eq, Structural)]
pub struct MeshData {
    pub vertex_count: usize,
}

/// Surface appearance: a texture handle per channel.  An unset channel
/// falls back to the engine-wide defaults.
#[derive(Clone, Copy, Debug, PartialEq, Eq)]
pub struct Material {
    pub albedo: Option<usize>,
    pub emissive: Option<usize>,
    pub normal: Option<usize>,
    pub metallic_roughness: Option<usize>,
    pub ambient_occlusion: Option<usize>,
}

impl Material {
    /// A material with every channel unset, resolving entirely to the
    /// defaults.
    pub fn empty() -> (r: Material)
        ensures
            r.albedo is None,
            r.emissive is None,
            r.normal is None,
            r.metallic_roughness is None,
            r.ambient_occlusion is None,
    {
        Material {
            albedo: None,
            emissive: None,
            normal: None,
            metallic_roughness: None,
            ambient_occlusion: None,
        }
    }
}

/// The process-wide fallback material: one fully resolved texture handle
/// per channel, resident for the renderer's whole lifetime.
#[derive(Clone, Copy, Debug, PartialEq, Eq, Structural)]
pub struct MaterialDefaults {
    pub albedo: usize,
    pub emissive: usize,
    pub normal: usize,
    pub metallic_roughness: usize,
    pub ambient_occlusion: usize,
}

/// Skeletal pose for a skinned mesh: joint matrices in skin order.
#[derive(Clone, Debug, PartialEq)]
pub struct JointTransforms {
    pub matrices: Vec<Mat4>,
}

/// One frame's scene: everything the draw traversal reads.
#[derive(Clone, Debug, PartialEq)]
pub struct Scene {
    /// The entity marked as the camera to render from, if any.
    pub active_camera: Option<usize>,
    /// The world-wide ambient colour.
    pub ambient: Rgba,
    /// Mesh asset storage, indexed by mesh handle; `None` while an asset
    /// is still streaming in.
    pub mesh_storage: Vec<Option<MeshData>>,
    /// Which texture handles are resident in the texture storage.
    pub texture_storage: Vec<bool>,
    /// The fallback material.
    pub material_defaults: MaterialDefaults,
    /// Entities needing blended rendering, sorted back-to-front relative
    /// to the frame's camera by an external system.
    pub transparent_ordering: Vec<usize>,
    /// Per-entity camera projection matrices.
    pub camera: Vec<Option<Mat4>>,
    /// Per-entity mesh handles into the mesh storage.
    pub mesh_handle: Vec<Option<usize>>,
    /// Per-entity materials.
    pub material: Vec<Option<Material>>,
    /// Per-entity world transforms, kept up to date by the transform
    /// system before the traversal runs.
    pub global: Vec<Option<Mat4>>,
    /// Per-entity lights.
    pub light: Vec<Option<Light>>,
    /// Per-entity skeletal poses.
    pub joints: Vec<Option<JointTransforms>>,
    /// Which entities carry the transparency marker.
    pub transparent: Vec<bool>,
}

impl Scene {
    /// Number of entities the frame describes.
    pub open spec fn entity_count(self) -> nat {
        self.camera@.len()
    }

    /// Every component column covers the same entities.
    pub open spec fn wf(self) -> bool {
        &&& self.mesh_handle@.len() == self.entity_count()
        &&& self.material@.len() == self.entity_count()
        &&& self.global@.len() == self.entity_count()
        &&& self.light@.len() == self.entity_count()
        &&& self.joints@.len() == self.entity_count()
        &&& self.transparent@.len() == self.entity_count()
    }

    /// Whether every component column covers the same entities.
    pub fn well_formed(&self) -> (r: bool)
        ensures
            r == self.wf(),
    {
        let n = self.camera.len();
        self.mesh_handle.len() == n && self.material.len() == n && self.global.len() == n
            && self.light.len() == n && self.joints.len() == n && self.transparent.len() == n
    }
}

} // verus!
