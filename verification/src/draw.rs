//! Draw-call construction: resolving one entity's mesh, material, transform
//! and joint data into a fully bound GPU draw call, and the shape of a whole
//! frame's command sequence.
//!
//! Per-entity resolution failures are never errors: a mesh still streaming
//! in, or a listed entity missing a component, makes the entity skip this
//! frame and nothing more.

use vstd::prelude::*;
use crate::camera::CameraData;
use crate::effect::MAX_JOINTS;
use crate::lights::LightUniforms;
use crate::scene::{JointTransforms, Material, MaterialDefaults, MeshData, Scene};
use crate::types::{capped, Mat4};

verus! {

/// Per-draw vertex shader arguments: the camera matrices and the world
/// transform.
#[derive(Clone, Copy, Debug, PartialEq, Eq, Structural)]
pub struct VertexArgs {
    pub proj: Mat4,
    pub view: Mat4,
    pub model: Mat4,
}

/// The texture bound for each material channel, after falling back to the
/// defaults for unset or non-resident handles.
#[derive(Clone, Copy, Debug, PartialEq, Eq, Structural)]
pub struct BoundTextures {
    pub albedo: usize,
    pub emissive: usize,
    pub normal: usize,
    pub metallic_roughness: usize,
    pub ambient_occlusion: usize,
}

/// The joint matrices bound for one draw call.
#[derive(Clone, Debug, PartialEq)]
pub enum JointBinding {
    /// The pass was compiled without skinning: no joint buffer is bound.
    Unskinned,
    /// Skinning is enabled but the entity carries no joint transforms:
    /// it is drawn in the identity pose, not an error.
    Identity,
    /// The entity's joint matrices, at most [`MAX_JOINTS`] of them.
    Posed(Vec<Mat4>),
}

/// The mathematical shape of a [`JointBinding`].
#[verifier::ext_equal]
pub enum JointBindingView {
    Unskinned,
    Identity,
    Posed(Seq<Mat4>),
}

impl View for JointBinding {
    type V = JointBindingView;

    open spec fn view(&self) -> JointBindingView {
        match self {
            JointBinding::Unskinned => JointBindingView::Unskinned,
            JointBinding::Identity => JointBindingView::Identity,
            JointBinding::Posed(m) => JointBindingView::Posed(m@),
        }
    }
}

/// One GPU draw call, fully bound.
#[derive(Clone, Debug, PartialEq)]
pub struct DrawCall {
    /// The entity being drawn.
    pub entity: usize,
    /// How many vertices the call covers.
    pub vertex_count: usize,
    /// The vertex shader arguments bound for the call.
    pub vertex_args: VertexArgs,
    /// The textures bound for the call.
    pub textures: BoundTextures,
    /// The joint matrices bound for the call.
    pub joints: JointBinding,
}

/// The mathematical shape of a [`DrawCall`].
#[verifier::ext_equal]
pub struct DrawCallView {
    pub entity: int,
    pub vertex_count: usize,
    pub vertex_args: VertexArgs,
    pub textures: BoundTextures,
    pub joints: JointBindingView,
}

impl View for DrawCall {
    type V = DrawCallView;

    open spec fn view(&self) -> DrawCallView {
        DrawCallView {
            entity: self.entity as int,
            vertex_count: self.vertex_count,
            vertex_args: self.vertex_args,
            textures: self.textures,
            joints: self.joints@,
        }
    }
}

/// Everything one frame's traversal produces: the resolved camera, the
/// packed light uniforms, and the draw calls in submission order.
#[derive(Clone, Debug, PartialEq)]
pub struct FrameOutput {
    pub camera: CameraData,
    pub lights: LightUniforms,
    pub draws: Vec<DrawCall>,
}

/// The shapes of a column of draw calls.
pub open spec fn draws_view(draws: Seq<DrawCall>) -> Seq<DrawCallView> {
    draws.map_values(|d: DrawCall| d@)
}

/// The entities a sequence of draw calls touches, in order.
pub open spec fn entities_of(draws: Seq<DrawCallView>) -> Seq<int> {
    draws.map_values(|d: DrawCallView| d.entity)
}

/// The world transform bound for a draw: the entity's, or identity when it
/// has none.
pub open spec fn model_or_identity(global: Option<Mat4>) -> Mat4 {
    match global {
        Some(g) => g,
        None => Mat4::identity_spec(),
    }
}

/// An optional borrow, by value.
pub open spec fn copied<T>(o: Option<&T>) -> Option<T> {
    match o {
        Some(x) => Some(*x),
        None => None,
    }
}

/// The texture bound for one channel: the material's handle when it is set
/// and resident, the default otherwise.
pub open spec fn channel_spec(tex_storage: Seq<bool>, chan: Option<usize>, fallback: usize) -> usize {
    match chan {
        Some(h) => if h < tex_storage.len() && tex_storage[h as int] {
            h
        } else {
            fallback
        },
        None => fallback,
    }
}

/// The textures bound for a draw, channel by channel; an absent material
/// resolves entirely to the defaults.
pub open spec fn bound_textures_spec(
    tex_storage: Seq<bool>,
    material: Option<Material>,
    defaults: MaterialDefaults,
) -> BoundTextures {
    match material {
        Some(m) => BoundTextures {
            albedo: channel_spec(tex_storage, m.albedo, defaults.albedo),
            emissive: channel_spec(tex_storage, m.emissive, defaults.emissive),
            normal: channel_spec(tex_storage, m.normal, defaults.normal),
            metallic_roughness: channel_spec(
                tex_storage,
                m.metallic_roughness,
                defaults.metallic_roughness,
            ),
            ambient_occlusion: channel_spec(
                tex_storage,
                m.ambient_occlusion,
                defaults.ambient_occlusion,
            ),
        },
        None => BoundTextures {
            albedo: defaults.albedo,
            emissive: defaults.emissive,
            normal: defaults.normal,
            metallic_roughness: defaults.metallic_roughness,
            ambient_occlusion: defaults.ambient_occlusion,
        },
    }
}

/// The joint matrices bound for a draw: none without skinning; with it,
/// the entity's matrices cut to the buffer capacity, or the identity pose
/// when the entity carries none.
pub open spec fn joint_binding_spec(
    skinning: bool,
    joints: Option<JointTransforms>,
) -> JointBindingView {
    if !skinning {
        JointBindingView::Unskinned
    } else {
        match joints {
            Some(jt) => JointBindingView::Posed(capped(jt.matrices@, MAX_JOINTS as int)),
            None => JointBindingView::Identity,
        }
    }
}

/// Mesh handle `h` refers to an asset resident in the storage.
pub open spec fn mesh_resident(s: Scene, h: int) -> bool {
    &&& 0 <= h < s.mesh_storage@.len()
    &&& s.mesh_storage@[h] is Some
}

/// The opaque pass draws entity `e`: it carries a mesh handle, a material
/// and a world transform, does not carry the transparency marker, and its
/// mesh asset is resident.
pub open spec fn opaque_drawable(s: Scene, e: int) -> bool {
    &&& 0 <= e < s.entity_count()
    &&& s.mesh_handle@[e] is Some
    &&& s.material@[e] is Some
    &&& s.global@[e] is Some
    &&& !s.transparent@[e]
    &&& mesh_resident(s, s.mesh_handle@[e]->Some_0 as int)
}

/// The transparent pass draws listed entity `e`: it exists, carries a mesh
/// handle, and its mesh asset is resident.  Its material, transform and
/// joints may be absent — they fall back — but without a mesh there is
/// nothing to draw.
pub open spec fn transparent_drawable(s: Scene, e: int) -> bool {
    &&& 0 <= e < s.entity_count()
    &&& s.mesh_handle@[e] is Some
    &&& mesh_resident(s, s.mesh_handle@[e]->Some_0 as int)
}

/// The draw call issued for entity `e`.
pub open spec fn draw_call_spec(s: Scene, cam: CameraData, skinning: bool, e: int) -> DrawCallView
    recommends
        s.wf(),
        0 <= e < s.entity_count(),
        s.mesh_handle@[e] is Some,
        mesh_resident(s, s.mesh_handle@[e]->Some_0 as int),
{
    DrawCallView {
        entity: e,
        vertex_count: s.mesh_storage@[s.mesh_handle@[e]->Some_0 as int]->Some_0.vertex_count,
        vertex_args: VertexArgs {
            proj: cam.proj,
            view: cam.view,
            model: model_or_identity(s.global@[e]),
        },
        textures: bound_textures_spec(s.texture_storage@, s.material@[e], s.material_defaults),
        joints: joint_binding_spec(skinning, s.joints@[e]),
    }
}

/// The draw calls the opaque pass issues for entities below `n`, in entity
/// order.
pub open spec fn opaque_draws(s: Scene, cam: CameraData, skinning: bool, n: int) -> Seq<
    DrawCallView,
>
    decreases n,
{
    if n <= 0 {
        Seq::empty()
    } else {
        let rest = opaque_draws(s, cam, skinning, n - 1);
        if opaque_drawable(s, n - 1) {
            rest.push(draw_call_spec(s, cam, skinning, n - 1))
        } else {
            rest
        }
    }
}

/// The draw calls the transparent pass issues for an ordered entity list,
/// in list order, skipping entries that cannot be drawn.
pub open spec fn transparent_draws(
    s: Scene,
    cam: CameraData,
    skinning: bool,
    order: Seq<usize>,
) -> Seq<DrawCallView>
    decreases order.len(),
{
    if order.len() == 0 {
        Seq::empty()
    } else {
        let rest = transparent_draws(s, cam, skinning, order.drop_last());
        if transparent_drawable(s, order.last() as int) {
            rest.push(draw_call_spec(s, cam, skinning, order.last() as int))
        } else {
            rest
        }
    }
}

/// Every draw call of one frame: the opaque pass over all entities, then
/// the transparent pass over the back-to-front list.
pub open spec fn frame_draws(s: Scene, cam: CameraData, skinning: bool) -> Seq<DrawCallView> {
    opaque_draws(s, cam, skinning, s.entity_count() as int) + transparent_draws(
        s,
        cam,
        skinning,
        s.transparent_ordering@,
    )
}

/// Resolve the texture bound for one channel.
fn resolve_channel(tex_storage: &Vec<bool>, chan: Option<usize>, fallback: usize) -> (r: usize)
    ensures
        r == channel_spec(tex_storage@, chan, fallback),
{
    match chan {
        Some(h) => if h < tex_storage.len() && tex_storage[h] {
            h
        } else {
            fallback
        },
        None => fallback,
    }
}

/// Resolve every texture channel for a draw.
fn resolve_textures(
    tex_storage: &Vec<bool>,
    material: Option<Material>,
    defaults: &MaterialDefaults,
) -> (r: BoundTextures)
    ensures
        r == bound_textures_spec(tex_storage@, material, *defaults),
{
    match material {
        Some(m) => BoundTextures {
            albedo: resolve_channel(tex_storage, m.albedo, defaults.albedo),
            emissive: resolve_channel(tex_storage, m.emissive, defaults.emissive),
            normal: resolve_channel(tex_storage, m.normal, defaults.normal),
            metallic_roughness: resolve_channel(
                tex_storage,
                m.metallic_roughness,
                defaults.metallic_roughness,
            ),
            ambient_occlusion: resolve_channel(
                tex_storage,
                m.ambient_occlusion,
                defaults.ambient_occlusion,
            ),
        },
        None => BoundTextures {
            albedo: defaults.albedo,
            emissive: defaults.emissive,
            normal: defaults.normal,
            metallic_roughness: defaults.metallic_roughness,
            ambient_occlusion: defaults.ambient_occlusion,
        },
    }
}

/// Copy at most [`MAX_JOINTS`] matrices for upload.
fn capped_matrices(m: &Vec<Mat4>) -> (r: Vec<Mat4>)
    ensures
        r@ == capped(m@, MAX_JOINTS as int),
{
    let limit = if m.len() < MAX_JOINTS {
        m.len()
    } else {
        MAX_JOINTS
    };
    let mut r: Vec<Mat4> = Vec::new();
    let mut i: usize = 0;
    while i < limit
        invariant
            i <= limit,
            limit <= m@.len(),
            limit == m@.len() || limit == MAX_JOINTS,
            r@ == m@.take(i as int),
        decreases limit - i,
    {
        r.push(m[i]);
        proof {
            assert(m@.take(i as int + 1) =~= m@.take(i as int).push(m@[i as int]));
        }
        i += 1;
    }
    proof {
        assert(m@.take(limit as int) =~= capped(m@, MAX_JOINTS as int));
    }
    r
}

/// Resolve one entity's bindings and produce its draw call, or nothing
/// when the mesh asset is absent (the entity skips this frame).  A missing
/// transform binds identity, a missing material binds the defaults, and a
/// skinned entity without joint transforms binds the identity pose.
pub fn draw_mesh(
    skinning: bool,
    mesh: Option<MeshData>,
    joints: Option<&JointTransforms>,
    tex_storage: &Vec<bool>,
    material: Option<Material>,
    material_defaults: &MaterialDefaults,
    camera: &CameraData,
    global: Option<Mat4>,
    entity: usize,
) -> (r: Option<DrawCall>)
    ensures
        r is Some <==> mesh is Some,
        r matches Some(dc) ==> dc@ == (DrawCallView {
            entity: entity as int,
            vertex_count: mesh->Some_0.vertex_count,
            vertex_args: VertexArgs {
                proj: camera.proj,
                view: camera.view,
                model: model_or_identity(global),
            },
            textures: bound_textures_spec(tex_storage@, material, *material_defaults),
            joints: joint_binding_spec(skinning, copied(joints)),
        }),
{
    let m = match mesh {
        Some(m) => m,
        None => {
            return None;
        },
    };
    let model = match global {
        Some(g) => g,
        None => Mat4::identity(),
    };
    let textures = resolve_textures(tex_storage, material, material_defaults);
    let joint_binding = if !skinning {
        JointBinding::Unskinned
    } else {
        match joints {
            Some(jt) => JointBinding::Posed(capped_matrices(&jt.matrices)),
            None => JointBinding::Identity,
        }
    };
    Some(
        DrawCall {
            entity,
            vertex_count: m.vertex_count,
            vertex_args: VertexArgs { proj: camera.proj, view: camera.view, model },
            textures,
            joints: joint_binding,
        },
    )
}

/// The draw call's entity exists and does not carry the transparency
/// marker.
pub open spec fn entity_not_transparent(s: Scene, d: DrawCallView) -> bool {
    &&& 0 <= d.entity < s.entity_count()
    &&& !s.transparent@[d.entity]
}

/// The opaque pass never issues a draw call for an entity carrying the
/// transparency marker, whatever the entity population.
pub proof fn lemma_opaque_skips_transparent(s: Scene, cam: CameraData, skinning: bool, n: int)
    ensures
        forall|k: int|
            0 <= k < opaque_draws(s, cam, skinning, n).len() ==> entity_not_transparent(
                s,
                #[trigger] opaque_draws(s, cam, skinning, n)[k],
            ),
    decreases n,
{
    if n > 0 {
        lemma_opaque_skips_transparent(s, cam, skinning, n - 1);
        let prev = opaque_draws(s, cam, skinning, n - 1);
        let cur = opaque_draws(s, cam, skinning, n);
        if opaque_drawable(s, n - 1) {
            assert forall|k: int| 0 <= k < cur.len() implies entity_not_transparent(
                s,
                cur[k],
            ) by {
                if k < prev.len() {
                    assert(cur[k] == prev[k]);
                } else {
                    assert(cur[k] == draw_call_spec(s, cam, skinning, n - 1));
                }
            }
        }
    }
}

/// The listed entities the transparent pass can draw, kept in list order:
/// the back-to-front list with its undrawable entries removed and nothing
/// reordered.
pub open spec fn drawable_listed_entities(s: Scene, order: Seq<usize>) -> Seq<usize>
    decreases order.len(),
{
    if order.len() == 0 {
        Seq::empty()
    } else {
        let rest = drawable_listed_entities(s, order.drop_last());
        if transparent_drawable(s, order.last() as int) {
            rest.push(order.last())
        } else {
            rest
        }
    }
}

/// A sequence of indices, as mathematical integers.
pub open spec fn as_ints(s: Seq<usize>) -> Seq<int> {
    s.map_values(|e: usize| e as int)
}

/// The transparent pass issues draw calls in exactly the order of the
/// back-to-front list, skipping — not reordering — entries that cannot be
/// drawn.
pub proof fn lemma_transparent_follows_ordering(
    s: Scene,
    cam: CameraData,
    skinning: bool,
    order: Seq<usize>,
)
    ensures
        entities_of(transparent_draws(s, cam, skinning, order)) == as_ints(
            drawable_listed_entities(s, order),
        ),
    decreases order.len(),
{
    if order.len() == 0 {
        assert(entities_of(transparent_draws(s, cam, skinning, order)) =~= as_ints(
            drawable_listed_entities(s, order),
        ));
    } else {
        let rest = order.drop_last();
        let e = order.last();
        lemma_transparent_follows_ordering(s, cam, skinning, rest);
        if transparent_drawable(s, e as int) {
            assert(entities_of(transparent_draws(s, cam, skinning, order)) =~= entities_of(
                transparent_draws(s, cam, skinning, rest),
            ).push(e as int));
            assert(drawable_listed_entities(s, order) == drawable_listed_entities(
                s,
                rest,
            ).push(e));
            assert(as_ints(drawable_listed_entities(s, rest).push(e)) =~= as_ints(
                drawable_listed_entities(s, rest),
            ).push(e as int));
        } else {
            assert(entities_of(transparent_draws(s, cam, skinning, order)) =~= entities_of(
                transparent_draws(s, cam, skinning, rest),
            ));
            assert(drawable_listed_entities(s, order) == drawable_listed_entities(s, rest));
        }
    }
}

} // verus!
