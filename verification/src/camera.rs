//! Camera resolution: pick the camera whose matrices the frame uses.
//!
//! The active-camera marker wins when it still points at an entity with a
//! camera and a world transform; otherwise the first camera found in entity
//! order serves (a documented fallback, not a promise of any particular
//! choice); with no camera at all the frame still renders, unprojected,
//! through a neutral identity camera.

use vstd::prelude::*;
use crate::types::Mat4;

verus! {

/// The matrices resolved for a frame: a projection and a view.
#[derive(Clone, Copy, Debug, PartialEq, Eq, Structural)]
pub struct CameraData {
    pub proj: Mat4,
    pub view: Mat4,
}

/// The identity camera used when no camera entity exists.
pub open spec fn neutral_camera() -> CameraData {
    CameraData { proj: Mat4::identity_spec(), view: Mat4::identity_spec() }
}

/// Entity `e` carries both a camera and a world transform.
pub open spec fn has_camera(camera: Seq<Option<Mat4>>, global: Seq<Option<Mat4>>, e: int) -> bool {
    &&& 0 <= e < camera.len()
    &&& e < global.len()
    &&& camera[e] is Some
    &&& global[e] is Some
}

/// Index of the first entity at or after `i` carrying a camera and a world
/// transform, if any.
pub open spec fn find_camera_from(
    camera: Seq<Option<Mat4>>,
    global: Seq<Option<Mat4>>,
    i: int,
) -> Option<int>
    recommends
        0 <= i,
    decreases camera.len() - i,
{
    if i < 0 || i >= camera.len() {
        None
    } else if has_camera(camera, global, i) {
        Some(i)
    } else {
        find_camera_from(camera, global, i + 1)
    }
}

/// The camera matrices of entity `e`.
pub open spec fn camera_at(camera: Seq<Option<Mat4>>, global: Seq<Option<Mat4>>, e: int) -> CameraData
    recommends
        has_camera(camera, global, e),
{
    CameraData { proj: camera[e]->Some_0, view: global[e]->Some_0 }
}

/// The camera a frame without a usable active-camera marker falls back to:
/// the first camera in entity order, or the neutral camera.
pub open spec fn fallback_camera(camera: Seq<Option<Mat4>>, global: Seq<Option<Mat4>>) -> CameraData {
    match find_camera_from(camera, global, 0) {
        Some(e) => camera_at(camera, global, e),
        None => neutral_camera(),
    }
}

/// The camera matrices a frame uses, resolved from the optional
/// active-camera marker and the camera and transform components.
pub open spec fn resolved_camera(
    active: Option<usize>,
    camera: Seq<Option<Mat4>>,
    global: Seq<Option<Mat4>>,
) -> CameraData {
    match active {
        Some(e) => if has_camera(camera, global, e as int) {
            camera_at(camera, global, e as int)
        } else {
            fallback_camera(camera, global)
        },
        None => fallback_camera(camera, global),
    }
}

/// A scan that found a camera at `e`, having seen none before it, found
/// the first one.
proof fn lemma_find_camera_hit(
    camera: Seq<Option<Mat4>>,
    global: Seq<Option<Mat4>>,
    i: int,
    e: int,
)
    requires
        0 <= i <= e,
        has_camera(camera, global, e),
        forall|j: int| i <= j < e ==> !has_camera(camera, global, j),
    ensures
        find_camera_from(camera, global, i) == Some(e),
    decreases e - i,
{
    if i < e {
        lemma_find_camera_hit(camera, global, i + 1, e);
    }
}

/// A scan that saw no camera anywhere finds none.
proof fn lemma_find_camera_miss(camera: Seq<Option<Mat4>>, global: Seq<Option<Mat4>>, i: int)
    requires
        0 <= i,
        forall|j: int| i <= j < camera.len() ==> !has_camera(camera, global, j),
    ensures
        find_camera_from(camera, global, i) is None,
    decreases camera.len() - i,
{
    if i < camera.len() {
        lemma_find_camera_miss(camera, global, i + 1);
    }
}

/// Resolve the frame's camera.  With a usable active-camera marker, its
/// entity's matrices; otherwise the first camera found in entity order;
/// with no camera at all, the neutral identity camera.
pub fn get_camera(
    active: Option<usize>,
    camera: &Vec<Option<Mat4>>,
    global: &Vec<Option<Mat4>>,
) -> (r: CameraData)
    requires
        camera@.len() == global@.len(),
    ensures
        r == resolved_camera(active, camera@, global@),
{
    if let Some(e) = active {
        if e < camera.len() {
            if let (Some(proj), Some(view)) = (camera[e], global[e]) {
                return CameraData { proj, view };
            }
        }
    }
    let n = camera.len();
    let mut i: usize = 0;
    while i < n
        invariant
            i <= n,
            n == camera@.len(),
            camera@.len() == global@.len(),
            forall|j: int| 0 <= j < i ==> !has_camera(camera@, global@, j),
            active matches Some(e) ==> !has_camera(camera@, global@, e as int),
        decreases n - i,
    {
        if let (Some(proj), Some(view)) = (camera[i], global[i]) {
            proof {
                lemma_find_camera_hit(camera@, global@, 0, i as int);
            }
            return CameraData { proj, view };
        }
        i += 1;
    }
    proof {
        lemma_find_camera_miss(camera@, global@, 0);
    }
    CameraData { proj: Mat4::identity(), view: Mat4::identity() }
}

} // verus!
