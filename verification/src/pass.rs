//! The forward physically-based drawing pass: compile the effect once at
//! pipeline construction, then traverse the scene every frame.
//!
//! A frame runs through fixed stages: resolve the camera, pack the light
//! uniforms, draw the opaque entities in entity order, then draw the
//! transparent entities in the externally supplied back-to-front order.

use vstd::prelude::*;
use crate::camera::{get_camera, resolved_camera, CameraData};
use crate::draw::{
    draw_call_spec, draw_mesh, draws_view, frame_draws, opaque_drawable, opaque_draws,
    transparent_drawable, transparent_draws, DrawCall, FrameOutput,
};
use crate::effect::{
    create_skinning_effect, layout_for, lemma_layout_admissible, output_for, setup_light_buffers,
    setup_skinning_buffers, setup_textures, setup_vertex_args, shader_for, texture_slots,
    uniforms_for, Blend, ColorMask, CompilationError, DepthMode, Effect, EffectBuilder,
};
use crate::lights::{
    directional_lights_of, point_lights_of, set_light_args, MAX_DIRECTIONAL_LIGHTS,
    MAX_POINT_LIGHTS,
};
use crate::scene::Scene;
use crate::types::capped;
use crate::vertex::AttributeGroup;

verus! {

/// Draw meshes with physically based lighting.
///
/// Construction chooses, once, whether the pass skins vertices and whether
/// it renders blended output; `compile` then builds the matching effect
/// and `apply` traverses a frame's scene with it.
#[derive(Clone, Debug, PartialEq)]
pub struct DrawPbmSeparate {
    /// Deform vertices by joint matrices.
    pub skinning: bool,
    /// Render blended output with this colour mask, blend function and
    /// optional depth mode, instead of depth-tested opaque output.
    pub transparency: Option<(ColorMask, Blend, Option<DepthMode>)>,
}

impl Default for DrawPbmSeparate {
    /// An unskinned, opaque pass.
    fn default() -> (r: Self)
        ensures
            !r.skinning,
            r.transparency is None,
    {
        DrawPbmSeparate { skinning: false, transparency: None }
    }
}

/// `e` is exactly the effect this pass compiles: its shader variant,
/// vertex-buffer layout, uniform slots, texture slots and output
/// configuration all follow from the pass configuration.
pub open spec fn compiled_for(p: DrawPbmSeparate, e: Effect) -> bool {
    &&& e.vertex_shader == shader_for(p.skinning)
    &&& e.vertex_buffers@ == layout_for(p.skinning)
    &&& e.uniforms@ == uniforms_for(p.skinning)
    &&& e.textures@ == texture_slots()
    &&& e.output == output_for(p.transparency)
}

impl DrawPbmSeparate {
    /// Create an instance of the pass: unskinned, opaque.
    pub fn new() -> (r: Self)
        ensures
            !r.skinning,
            r.transparency is None,
    {
        Default::default()
    }

    /// Enable vertex skinning.
    pub fn with_vertex_skinning(self) -> (r: Self)
        ensures
            r.skinning,
            r.transparency == self.transparency,
    {
        let DrawPbmSeparate { skinning: _, transparency } = self;
        DrawPbmSeparate { skinning: true, transparency }
    }

    /// Enable transparency: blended output with the given colour mask,
    /// blend function and optional depth mode.
    pub fn with_transparency(
        self,
        mask: ColorMask,
        blend: Blend,
        depth: Option<DepthMode>,
    ) -> (r: Self)
        ensures
            r.skinning == self.skinning,
            r.transparency == Some((mask, blend, depth)),
    {
        let DrawPbmSeparate { skinning, transparency: _ } = self;
        DrawPbmSeparate { skinning, transparency: Some((mask, blend, depth)) }
    }

    /// Build the pass's GPU program and pipeline state.  In fixed order:
    /// choose the shader variant by the skinning flag; register one raw
    /// vertex buffer per attribute group, each with its own stride; with
    /// skinning, add the joint buffers; register the per-object,
    /// per-camera and light uniform buffers and the texture slots; then
    /// configure the output target.  The registered layout is admissible,
    /// so compilation always succeeds here.
    pub fn compile(&self) -> (r: Result<Effect, CompilationError>)
        ensures
            r is Ok,
            r matches Ok(e) ==> compiled_for(*self, e),
    {
        let builder = if self.skinning {
            create_skinning_effect()
        } else {
            EffectBuilder::simple()
        };
        let builder = builder.with_raw_vertex_buffer(
            AttributeGroup::Position,
            AttributeGroup::Position.size(),
        )
            .with_raw_vertex_buffer(AttributeGroup::Normal, AttributeGroup::Normal.size())
            .with_raw_vertex_buffer(AttributeGroup::Tangent, AttributeGroup::Tangent.size())
            .with_raw_vertex_buffer(AttributeGroup::TexCoord, AttributeGroup::TexCoord.size());
        let builder = if self.skinning {
            setup_skinning_buffers(builder)
        } else {
            builder
        };
        let builder = setup_vertex_args(builder);
        let builder = setup_light_buffers(builder);
        let builder = setup_textures(builder);
        let builder = match self.transparency {
            Some((mask, blend, depth)) => builder.with_blended_output(mask, blend, depth),
            None => builder.with_output(Some(DepthMode::LessEqualWrite)),
        };
        proof {
            assert(builder.vertex_buffers@ =~= layout_for(self.skinning));
            assert(builder.uniforms@ =~= uniforms_for(self.skinning));
            assert(builder.textures@ =~= texture_slots());
            lemma_layout_admissible(self.skinning);
        }
        builder.build()
    }

    /// Traverse one frame's scene with the pass's compiled effect and
    /// produce the frame's command stream: the resolved camera, the packed
    /// light uniforms, and every draw call in submission order — the
    /// opaque entities in entity order followed by the transparent
    /// entities in the back-to-front list's order.
    pub fn apply(&self, effect: &Effect, scene: &Scene) -> (out: FrameOutput)
        requires
            scene.wf(),
            compiled_for(*self, *effect),
        ensures
            out.camera == resolved_camera(scene.active_camera, scene.camera@, scene.global@),
            out.lights.ambient == scene.ambient,
            out.lights.point@ == capped(point_lights_of(scene.light@), MAX_POINT_LIGHTS as int),
            out.lights.directional@ == capped(
                directional_lights_of(scene.light@),
                MAX_DIRECTIONAL_LIGHTS as int,
            ),
            draws_view(out.draws@) == frame_draws(
                *scene,
                resolved_camera(scene.active_camera, scene.camera@, scene.global@),
                self.skinning,
            ),
    {
        let camera = get_camera(scene.active_camera, &scene.camera, &scene.global);
        let lights = set_light_args(scene.ambient, &scene.light);
        let mut draws: Vec<DrawCall> = Vec::new();
        let n = scene.camera.len();

        let mut e: usize = 0;
        while e < n
            invariant
                scene.wf(),
                n == scene.entity_count(),
                e <= n,
                draws_view(draws@) == opaque_draws(*scene, camera, self.skinning, e as int),
            decreases n - e,
        {
            proof {
                assert(opaque_draws(*scene, camera, self.skinning, e as int + 1)
                    == if opaque_drawable(*scene, e as int) {
                    opaque_draws(*scene, camera, self.skinning, e as int).push(
                        draw_call_spec(*scene, camera, self.skinning, e as int),
                    )
                } else {
                    opaque_draws(*scene, camera, self.skinning, e as int)
                });
            }
            match (scene.mesh_handle[e], scene.material[e], scene.global[e], scene.transparent[e]) {
                (Some(h), Some(mat), Some(g), false) => {
                    let mesh_opt = if h < scene.mesh_storage.len() {
                        scene.mesh_storage[h]
                    } else {
                        None
                    };
                    let jref = match &scene.joints[e] {
                        Some(j) => Some(j),
                        None => None,
                    };
                    let dc_opt = draw_mesh(
                        self.skinning,
                        mesh_opt,
                        jref,
                        &scene.texture_storage,
                        Some(mat),
                        &scene.material_defaults,
                        &camera,
                        Some(g),
                        e,
                    );
                    match dc_opt {
                        Some(dc) => {
                            proof {
                                assert(opaque_drawable(*scene, e as int));
                                assert(dc@ == draw_call_spec(
                                    *scene,
                                    camera,
                                    self.skinning,
                                    e as int,
                                ));
                                assert(draws_view(draws@.push(dc)) =~= draws_view(draws@).push(
                                    dc@,
                                ));
                            }
                            draws.push(dc);
                        },
                        None => {
                            proof {
                                assert(!opaque_drawable(*scene, e as int));
                            }
                        },
                    }
                },
                _ => {
                    proof {
                        assert(!opaque_drawable(*scene, e as int));
                    }
                },
            }
            e += 1;
        }

        let ord_len = scene.transparent_ordering.len();
        proof {
            assert(scene.transparent_ordering@.take(0) =~= Seq::<usize>::empty());
        }
        let mut k: usize = 0;
        while k < ord_len
            invariant
                scene.wf(),
                n == scene.entity_count(),
                ord_len == scene.transparent_ordering@.len(),
                k <= ord_len,
                draws_view(draws@) == opaque_draws(
                    *scene,
                    camera,
                    self.skinning,
                    scene.entity_count() as int,
                ) + transparent_draws(
                    *scene,
                    camera,
                    self.skinning,
                    scene.transparent_ordering@.take(k as int),
                ),
            decreases ord_len - k,
        {
            proof {
                let ord = scene.transparent_ordering@;
                assert(ord.take(k as int + 1).drop_last() =~= ord.take(k as int));
                assert(ord.take(k as int + 1).last() == ord[k as int]);
                assert(transparent_draws(*scene, camera, self.skinning, ord.take(k as int + 1))
                    == if transparent_drawable(*scene, ord[k as int] as int) {
                    transparent_draws(*scene, camera, self.skinning, ord.take(k as int)).push(
                        draw_call_spec(*scene, camera, self.skinning, ord[k as int] as int),
                    )
                } else {
                    transparent_draws(*scene, camera, self.skinning, ord.take(k as int))
                });
            }
            let ent = scene.transparent_ordering[k];
            if ent < n {
                match scene.mesh_handle[ent] {
                    Some(h) => {
                        let mesh_opt = if h < scene.mesh_storage.len() {
                            scene.mesh_storage[h]
                        } else {
                            None
                        };
                        let jref = match &scene.joints[ent] {
                            Some(j) => Some(j),
                            None => None,
                        };
                        let dc_opt = draw_mesh(
                            self.skinning,
                            mesh_opt,
                            jref,
                            &scene.texture_storage,
                            scene.material[ent],
                            &scene.material_defaults,
                            &camera,
                            scene.global[ent],
                            ent,
                        );
                        match dc_opt {
                            Some(dc) => {
                                proof {
                                    let s = *scene;
                                    let a = opaque_draws(
                                        s,
                                        camera,
                                        self.skinning,
                                        s.entity_count() as int,
                                    );
                                    let t0 = transparent_draws(
                                        s,
                                        camera,
                                        self.skinning,
                                        s.transparent_ordering@.take(k as int),
                                    );
                                    assert(transparent_drawable(s, ent as int));
                                    assert(dc@ == draw_call_spec(
                                        s,
                                        camera,
                                        self.skinning,
                                        ent as int,
                                    ));
                                    assert(draws_view(draws@.push(dc)) =~= draws_view(
                                        draws@,
                                    ).push(dc@));
                                    assert((a + t0).push(dc@) =~= a + t0.push(dc@));
                                }
                                draws.push(dc);
                            },
                            None => {
                                proof {
                                    assert(!transparent_drawable(*scene, ent as int));
                                }
                            },
                        }
                    },
                    None => {
                        proof {
                            assert(!transparent_drawable(*scene, ent as int));
                        }
                    },
                }
            } else {
                proof {
                    assert(!transparent_drawable(*scene, ent as int));
                }
            }
            k += 1;
        }
        proof {
            assert(scene.transparent_ordering@.take(ord_len as int)
                =~= scene.transparent_ordering@);
        }
        FrameOutput { camera, lights, draws }
    }
}

} // verus!
