//! Effect compilation: a staged builder that accumulates vertex buffer
//! bindings, uniform buffer slots and texture sampler slots, then a
//! terminal `build` step that validates them and produces the immutable
//! [`Effect`].
//!
//! The layout registered here is load-bearing: every draw call issued later
//! binds buffers in exactly the order and with exactly the strides fixed at
//! compilation.

use vstd::prelude::*;
use crate::vertex::{AttributeGroup, VertexBufferBinding};

verus! {

/// Most raw vertex buffers one program may bind (a device limit).
pub const MAX_VERTEX_BUFFERS: usize = 16;

/// Capacity, in matrices, of the joint-transform uniform buffer.
pub const MAX_JOINTS: usize = 256;

/// Which vertex shader variant a program was compiled from.
#[derive(Clone, Copy, Debug, PartialEq, Eq, Structural)]
pub enum VertexShader {
    /// The plain physically-based vertex shader.
    Basic,
    /// The skin-aware variant, deforming vertices by joint matrices.
    Skinned,
}

/// One uniform buffer slot consumed by the shader.
#[derive(Clone, Copy, Debug, PartialEq, Eq, Structural)]
pub enum UniformSlot {
    /// Per-object arguments: the world transform, bound once per draw.
    ObjectArgs,
    /// Per-camera arguments: the projection and view matrices.
    CameraArgs,
    /// The world-wide ambient colour.
    AmbientColor,
    /// Array of point lights, capacity [`crate::lights::MAX_POINT_LIGHTS`].
    PointLights,
    /// Array of directional lights, capacity
    /// [`crate::lights::MAX_DIRECTIONAL_LIGHTS`].
    DirectionalLights,
    /// Array of joint matrices, capacity [`MAX_JOINTS`]; present only when
    /// skinning is enabled.
    JointMatrices,
}

/// One texture sampler slot, named after its material channel.
#[derive(Clone, Copy, Debug, PartialEq, Eq, Structural)]
pub enum TextureChannel {
    Albedo,
    Emissive,
    Normal,
    MetallicRoughness,
    AmbientOcclusion,
}

/// Depth-buffer behaviour of an output target.
#[derive(Clone, Copy, Debug, PartialEq, Eq, Structural)]
pub enum DepthMode {
    /// Test against the depth buffer without writing it.
    LessEqualTest,
    /// Test against the depth buffer and write passing depths back.
    LessEqualWrite,
}

/// Which colour channels an output writes.
#[derive(Clone, Copy, Debug, PartialEq, Eq, Structural)]
pub struct ColorMask {
    pub red: bool,
    pub green: bool,
    pub blue: bool,
    pub alpha: bool,
}

impl ColorMask {
    /// A mask writing every channel.
    pub open spec fn all_spec() -> ColorMask {
        ColorMask { red: true, green: true, blue: true, alpha: true }
    }

    /// A mask writing every channel.
    pub fn all() -> (r: ColorMask)
        ensures
            r == ColorMask::all_spec(),
    {
        ColorMask { red: true, green: true, blue: true, alpha: true }
    }
}

/// The pipeline value a blend factor draws on.
#[derive(Clone, Copy, Debug, PartialEq, Eq, Structural)]
pub enum BlendValue {
    SourceColor,
    SourceAlpha,
    DestColor,
    DestAlpha,
    ConstColor,
    ConstAlpha,
}

/// Multiplier applied to one operand of a blend equation.
#[derive(Clone, Copy, Debug, PartialEq, Eq, Structural)]
pub enum Factor {
    Zero,
    One,
    SourceAlphaSaturated,
    ZeroPlus(BlendValue),
    OneMinus(BlendValue),
}

/// How source and destination are combined.
#[derive(Clone, Copy, Debug, PartialEq, Eq, Structural)]
pub enum Equation {
    Add,
    Sub,
    RevSub,
    Min,
    Max,
}

/// Blend function for one channel group.
#[derive(Clone, Copy, Debug, PartialEq, Eq, Structural)]
pub struct BlendChannel {
    pub equation: Equation,
    pub source: Factor,
    pub destination: Factor,
}

/// Blend functions for the colour and alpha channels.
#[derive(Clone, Copy, Debug, PartialEq, Eq, Structural)]
pub struct Blend {
    pub color: BlendChannel,
    pub alpha: BlendChannel,
}

/// Output target configuration of a compiled effect.
#[derive(Clone, Copy, Debug, PartialEq, Eq)]
pub enum OutputConfig {
    /// Depth-tested opaque write.
    Opaque(Option<DepthMode>),
    /// Blended output with a colour mask, a blend function and an optional
    /// depth test.
    Blended(ColorMask, Blend, Option<DepthMode>),
}

/// Why effect compilation failed.  Compilation failures are fatal to pass
/// construction: the caller must not render with an uncompiled effect.
#[derive(Clone, Copy, Debug, PartialEq, Eq, Structural)]
pub enum CompilationError {
    /// The same attribute group was registered twice: the shader's input
    /// layout cannot be matched.
    DuplicateAttributes,
    /// More raw vertex buffers were registered than the device allows.
    TooManyVertexBuffers,
    /// No output target was configured before `build`.
    NoOutputTarget,
}

/// A compiled, immutable GPU program together with its vertex-buffer
/// layout, uniform slots, texture slots and output configuration.
#[derive(Clone, Debug, PartialEq)]
pub struct Effect {
    pub vertex_shader: VertexShader,
    pub vertex_buffers: Vec<VertexBufferBinding>,
    pub uniforms: Vec<UniformSlot>,
    pub textures: Vec<TextureChannel>,
    pub output: OutputConfig,
}

/// No attribute group is served by two registered buffers.
pub open spec fn distinct_groups(bindings: Seq<VertexBufferBinding>) -> bool {
    forall|i: int, j: int|
        0 <= i < j < bindings.len() ==> bindings[i].group != bindings[j].group
}

/// A staged effect under construction: registrations accumulate here until
/// `build` validates them and produces the immutable [`Effect`].
#[derive(Clone, Debug, PartialEq)]
pub struct EffectBuilder {
    pub vertex_shader: VertexShader,
    pub vertex_buffers: Vec<VertexBufferBinding>,
    pub uniforms: Vec<UniformSlot>,
    pub textures: Vec<TextureChannel>,
    pub output: Option<OutputConfig>,
}

impl EffectBuilder {
    /// Start building a program from the plain (unskinned) shader pair.
    pub fn simple() -> (r: EffectBuilder)
        ensures
            r.vertex_shader == VertexShader::Basic,
            r.vertex_buffers@ == Seq::<VertexBufferBinding>::empty(),
            r.uniforms@ == Seq::<UniformSlot>::empty(),
            r.textures@ == Seq::<TextureChannel>::empty(),
            r.output is None,
    {
        EffectBuilder {
            vertex_shader: VertexShader::Basic,
            vertex_buffers: Vec::new(),
            uniforms: Vec::new(),
            textures: Vec::new(),
            output: None,
        }
    }

    /// Register one raw (non-interleaved) vertex buffer binding.
    pub fn with_raw_vertex_buffer(self, group: AttributeGroup, stride: u32) -> (r: EffectBuilder)
        ensures
            r.vertex_shader == self.vertex_shader,
            r.vertex_buffers@ == self.vertex_buffers@.push(
                VertexBufferBinding { group, stride },
            ),
            r.uniforms@ == self.uniforms@,
            r.textures@ == self.textures@,
            r.output == self.output,
    {
        let EffectBuilder { vertex_shader, mut vertex_buffers, uniforms, textures, output } = self;
        vertex_buffers.push(VertexBufferBinding { group, stride });
        EffectBuilder { vertex_shader, vertex_buffers, uniforms, textures, output }
    }

    /// Register one uniform buffer slot.
    pub fn with_uniform(self, slot: UniformSlot) -> (r: EffectBuilder)
        ensures
            r.vertex_shader == self.vertex_shader,
            r.vertex_buffers@ == self.vertex_buffers@,
            r.uniforms@ == self.uniforms@.push(slot),
            r.textures@ == self.textures@,
            r.output == self.output,
    {
        let EffectBuilder { vertex_shader, vertex_buffers, mut uniforms, textures, output } = self;
        uniforms.push(slot);
        EffectBuilder { vertex_shader, vertex_buffers, uniforms, textures, output }
    }

    /// Register one texture sampler slot.
    pub fn with_texture(self, channel: TextureChannel) -> (r: EffectBuilder)
        ensures
            r.vertex_shader == self.vertex_shader,
            r.vertex_buffers@ == self.vertex_buffers@,
            r.uniforms@ == self.uniforms@,
            r.textures@ == self.textures@.push(channel),
            r.output == self.output,
    {
        let EffectBuilder { vertex_shader, vertex_buffers, uniforms, mut textures, output } = self;
        textures.push(channel);
        EffectBuilder { vertex_shader, vertex_buffers, uniforms, textures, output }
    }

    /// Configure a depth-tested opaque output target.
    pub fn with_output(self, depth: Option<DepthMode>) -> (r: EffectBuilder)
        ensures
            r.vertex_shader == self.vertex_shader,
            r.vertex_buffers@ == self.vertex_buffers@,
            r.uniforms@ == self.uniforms@,
            r.textures@ == self.textures@,
            r.output == Some(OutputConfig::Opaque(depth)),
    {
        let EffectBuilder { vertex_shader, vertex_buffers, uniforms, textures, output: _ } = self;
        EffectBuilder {
            vertex_shader,
            vertex_buffers,
            uniforms,
            textures,
            output: Some(OutputConfig::Opaque(depth)),
        }
    }

    /// Configure a blended output target with a caller-supplied colour
    /// mask, blend function and optional depth test.
    pub fn with_blended_output(
        self,
        mask: ColorMask,
        blend: Blend,
        depth: Option<DepthMode>,
    ) -> (r: EffectBuilder)
        ensures
            r.vertex_shader == self.vertex_shader,
            r.vertex_buffers@ == self.vertex_buffers@,
            r.uniforms@ == self.uniforms@,
            r.textures@ == self.textures@,
            r.output == Some(OutputConfig::Blended(mask, blend, depth)),
    {
        let EffectBuilder { vertex_shader, vertex_buffers, uniforms, textures, output: _ } = self;
        EffectBuilder {
            vertex_shader,
            vertex_buffers,
            uniforms,
            textures,
            output: Some(OutputConfig::Blended(mask, blend, depth)),
        }
    }

    /// Validate the accumulated registrations and produce the immutable
    /// effect.  Succeeds exactly when no attribute group is registered
    /// twice, the bindings fit the device limit, and an output target was
    /// configured.
    pub fn build(self) -> (r: Result<Effect, CompilationError>)
        ensures
            r is Ok <==> (distinct_groups(self.vertex_buffers@) && self.vertex_buffers@.len()
                <= MAX_VERTEX_BUFFERS && self.output is Some),
            r matches Ok(e) ==> (e.vertex_shader == self.vertex_shader && e.vertex_buffers@
                == self.vertex_buffers@ && e.uniforms@ == self.uniforms@ && e.textures@
                == self.textures@ && Some(e.output) == self.output),
            self.vertex_buffers@.len() > MAX_VERTEX_BUFFERS ==> r == Result::<Effect,
                CompilationError,
            >::Err(CompilationError::TooManyVertexBuffers),
            self.vertex_buffers@.len() <= MAX_VERTEX_BUFFERS && !distinct_groups(
                self.vertex_buffers@,
            ) ==> r == Result::<Effect, CompilationError>::Err(
                CompilationError::DuplicateAttributes,
            ),
            self.vertex_buffers@.len() <= MAX_VERTEX_BUFFERS && distinct_groups(
                self.vertex_buffers@,
            ) && self.output is None ==> r == Result::<Effect, CompilationError>::Err(
                CompilationError::NoOutputTarget,
            ),
    {
        let n = self.vertex_buffers.len();
        if n > MAX_VERTEX_BUFFERS {
            return Err(CompilationError::TooManyVertexBuffers);
        }
        let mut i: usize = 0;
        while i < n
            invariant
                i <= n,
                n == self.vertex_buffers@.len(),
                n <= MAX_VERTEX_BUFFERS,
                forall|p: int, q: int|
                    0 <= p < q < i ==> self.vertex_buffers@[p].group
                        != self.vertex_buffers@[q].group,
            decreases n - i,
        {
            let mut j: usize = 0;
            while j < i
                invariant
                    j <= i,
                    i < n,
                    n == self.vertex_buffers@.len(),
                    n <= MAX_VERTEX_BUFFERS,
                    forall|p: int|
                        0 <= p < j ==> self.vertex_buffers@[p].group
                            != self.vertex_buffers@[i as int].group,
                decreases i - j,
            {
                if self.vertex_buffers[j].group == self.vertex_buffers[i].group {
                    return Err(CompilationError::DuplicateAttributes);
                }
                j += 1;
            }
            i += 1;
        }
        match self.output {
            None => Err(CompilationError::NoOutputTarget),
            Some(output) => Ok(
                Effect {
                    vertex_shader: self.vertex_shader,
                    vertex_buffers: self.vertex_buffers,
                    uniforms: self.uniforms,
                    textures: self.textures,
                    output,
                },
            ),
        }
    }
}

/// Start building a program from the skin-aware shader pair.
pub fn create_skinning_effect() -> (r: EffectBuilder)
    ensures
        r.vertex_shader == VertexShader::Skinned,
        r.vertex_buffers@ == Seq::<VertexBufferBinding>::empty(),
        r.uniforms@ == Seq::<UniformSlot>::empty(),
        r.textures@ == Seq::<TextureChannel>::empty(),
        r.output is None,
{
    EffectBuilder {
        vertex_shader: VertexShader::Skinned,
        vertex_buffers: Vec::new(),
        uniforms: Vec::new(),
        textures: Vec::new(),
        output: None,
    }
}

/// Register the joint-index and joint-weight vertex buffers and the
/// joint-matrix uniform buffer needed by the skinned shader.
pub fn setup_skinning_buffers(b: EffectBuilder) -> (r: EffectBuilder)
    ensures
        r.vertex_shader == b.vertex_shader,
        r.vertex_buffers@ == b.vertex_buffers@ + seq![
            VertexBufferBinding {
                group: AttributeGroup::JointIds,
                stride: AttributeGroup::JointIds.size_spec(),
            },
            VertexBufferBinding {
                group: AttributeGroup::JointWeights,
                stride: AttributeGroup::JointWeights.size_spec(),
            },
        ],
        r.uniforms@ == b.uniforms@.push(UniformSlot::JointMatrices),
        r.textures@ == b.textures@,
        r.output == b.output,
{
    let r = b.with_raw_vertex_buffer(AttributeGroup::JointIds, AttributeGroup::JointIds.size())
        .with_raw_vertex_buffer(AttributeGroup::JointWeights, AttributeGroup::JointWeights.size())
        .with_uniform(UniformSlot::JointMatrices);
    proof {
        assert(r.vertex_buffers@ =~= b.vertex_buffers@ + seq![
            VertexBufferBinding {
                group: AttributeGroup::JointIds,
                stride: AttributeGroup::JointIds.size_spec(),
            },
            VertexBufferBinding {
                group: AttributeGroup::JointWeights,
                stride: AttributeGroup::JointWeights.size_spec(),
            },
        ]);
    }
    r
}

/// Register the per-object and per-camera uniform buffers.
pub fn setup_vertex_args(b: EffectBuilder) -> (r: EffectBuilder)
    ensures
        r.vertex_shader == b.vertex_shader,
        r.vertex_buffers@ == b.vertex_buffers@,
        r.uniforms@ == b.uniforms@ + seq![UniformSlot::ObjectArgs, UniformSlot::CameraArgs],
        r.textures@ == b.textures@,
        r.output == b.output,
{
    let r = b.with_uniform(UniformSlot::ObjectArgs).with_uniform(UniformSlot::CameraArgs);
    proof {
        assert(r.uniforms@ =~= b.uniforms@ + seq![
            UniformSlot::ObjectArgs,
            UniformSlot::CameraArgs,
        ]);
    }
    r
}

/// Register the ambient-colour slot and the fixed-capacity light buffers.
pub fn setup_light_buffers(b: EffectBuilder) -> (r: EffectBuilder)
    ensures
        r.vertex_shader == b.vertex_shader,
        r.vertex_buffers@ == b.vertex_buffers@,
        r.uniforms@ == b.uniforms@ + seq![
            UniformSlot::AmbientColor,
            UniformSlot::PointLights,
            UniformSlot::DirectionalLights,
        ],
        r.textures@ == b.textures@,
        r.output == b.output,
{
    let r = b.with_uniform(UniformSlot::AmbientColor)
        .with_uniform(UniformSlot::PointLights)
        .with_uniform(UniformSlot::DirectionalLights);
    proof {
        assert(r.uniforms@ =~= b.uniforms@ + seq![
            UniformSlot::AmbientColor,
            UniformSlot::PointLights,
            UniformSlot::DirectionalLights,
        ]);
    }
    r
}

/// Register one texture sampler slot per material channel.
pub fn setup_textures(b: EffectBuilder) -> (r: EffectBuilder)
    ensures
        r.vertex_shader == b.vertex_shader,
        r.vertex_buffers@ == b.vertex_buffers@,
        r.uniforms@ == b.uniforms@,
        r.textures@ == b.textures@ + texture_slots(),
        r.output == b.output,
{
    let r = b.with_texture(TextureChannel::Albedo)
        .with_texture(TextureChannel::Emissive)
        .with_texture(TextureChannel::Normal)
        .with_texture(TextureChannel::MetallicRoughness)
        .with_texture(TextureChannel::AmbientOcclusion);
    proof {
        assert(r.textures@ =~= b.textures@ + texture_slots());
    }
    r
}

/// The binding registered for one attribute group: its stride is the
/// group's own per-vertex size, the buffers being non-interleaved.
pub open spec fn binding_for(group: AttributeGroup) -> VertexBufferBinding {
    VertexBufferBinding { group, stride: group.size_spec() }
}

/// The attribute groups a pass declares: position, normal, tangent and
/// texture coordinates, plus joint indices and weights when skinning.
pub open spec fn declared_attribute_groups(skinning: bool) -> Seq<AttributeGroup> {
    if skinning {
        seq![
            AttributeGroup::Position,
            AttributeGroup::Normal,
            AttributeGroup::Tangent,
            AttributeGroup::TexCoord,
            AttributeGroup::JointIds,
            AttributeGroup::JointWeights,
        ]
    } else {
        seq![
            AttributeGroup::Position,
            AttributeGroup::Normal,
            AttributeGroup::Tangent,
            AttributeGroup::TexCoord,
        ]
    }
}

/// The vertex buffer bindings a compiled pass registers, in order.
pub open spec fn layout_for(skinning: bool) -> Seq<VertexBufferBinding> {
    if skinning {
        seq![
            binding_for(AttributeGroup::Position),
            binding_for(AttributeGroup::Normal),
            binding_for(AttributeGroup::Tangent),
            binding_for(AttributeGroup::TexCoord),
            binding_for(AttributeGroup::JointIds),
            binding_for(AttributeGroup::JointWeights),
        ]
    } else {
        seq![
            binding_for(AttributeGroup::Position),
            binding_for(AttributeGroup::Normal),
            binding_for(AttributeGroup::Tangent),
            binding_for(AttributeGroup::TexCoord),
        ]
    }
}

/// The uniform slots a compiled pass registers, in order.
pub open spec fn uniforms_for(skinning: bool) -> Seq<UniformSlot> {
    if skinning {
        seq![
            UniformSlot::JointMatrices,
            UniformSlot::ObjectArgs,
            UniformSlot::CameraArgs,
            UniformSlot::AmbientColor,
            UniformSlot::PointLights,
            UniformSlot::DirectionalLights,
        ]
    } else {
        seq![
            UniformSlot::ObjectArgs,
            UniformSlot::CameraArgs,
            UniformSlot::AmbientColor,
            UniformSlot::PointLights,
            UniformSlot::DirectionalLights,
        ]
    }
}

/// The texture slots a compiled pass registers, in order.
pub open spec fn texture_slots() -> Seq<TextureChannel> {
    seq![
        TextureChannel::Albedo,
        TextureChannel::Emissive,
        TextureChannel::Normal,
        TextureChannel::MetallicRoughness,
        TextureChannel::AmbientOcclusion,
    ]
}

/// The shader variant a pass compiles.
pub open spec fn shader_for(skinning: bool) -> VertexShader {
    if skinning {
        VertexShader::Skinned
    } else {
        VertexShader::Basic
    }
}

/// The output configuration a pass compiles: blended when a transparency
/// configuration was supplied, otherwise a depth-tested opaque write.
pub open spec fn output_for(
    transparency: Option<(ColorMask, Blend, Option<DepthMode>)>,
) -> OutputConfig {
    match transparency {
        Some(t) => OutputConfig::Blended(t.0, t.1, t.2),
        None => OutputConfig::Opaque(Some(DepthMode::LessEqualWrite)),
    }
}

/// The layout a compiled pass registers never repeats an attribute group
/// and fits the device's buffer limit, so compilation succeeds.
pub proof fn lemma_layout_admissible(skinning: bool)
    ensures
        distinct_groups(layout_for(skinning)),
        layout_for(skinning).len() <= MAX_VERTEX_BUFFERS,
{
    let l = layout_for(skinning);
    assert forall|i: int, j: int| 0 <= i < j < l.len() implies l[i].group != l[j].group by {
        assert(l[0].group == AttributeGroup::Position);
        assert(l[1].group == AttributeGroup::Normal);
        assert(l[2].group == AttributeGroup::Tangent);
        assert(l[3].group == AttributeGroup::TexCoord);
        if skinning {
            assert(l[4].group == AttributeGroup::JointIds);
            assert(l[5].group == AttributeGroup::JointWeights);
        }
    }
}

/// For any compiled effect, the bytes per vertex consumed by the
/// registered buffer strides equal the combined declared sizes of the
/// attribute groups: the layout registry and the compiler agree.
pub proof fn lemma_layout_strides_match_sizes(e: Effect, skinning: bool)
    requires
        e.vertex_buffers@ == layout_for(skinning),
    ensures
        crate::vertex::stride_sum(e.vertex_buffers@) == crate::vertex::size_sum(
            declared_attribute_groups(skinning),
        ),
{
    lemma_sums_agree(declared_attribute_groups(skinning), layout_for(skinning));
}

/// Strides and sizes agree whenever each binding's stride is its group's
/// size and the bindings follow the declared groups in order.
proof fn lemma_sums_agree(groups: Seq<AttributeGroup>, bindings: Seq<VertexBufferBinding>)
    requires
        bindings.len() == groups.len(),
        forall|i: int| 0 <= i < groups.len() ==> bindings[i] == binding_for(#[trigger] groups[i]),
    ensures
        crate::vertex::stride_sum(bindings) == crate::vertex::size_sum(groups),
    decreases groups.len(),
{
    if groups.len() > 0 {
        lemma_sums_agree(groups.drop_last(), bindings.drop_last());
    }
}

/// Enabling vertex skinning strictly adds the joint-index and joint-weight
/// buffer bindings and the joint-matrix uniform slot: the remaining
/// bindings and slots are those of the unskinned configuration, unchanged
/// and in the same relative order.  The texture slots and the output
/// configuration do not depend on the skinning flag at all.
pub proof fn lemma_skinning_strictly_adds()
    ensures
        layout_for(true) == layout_for(false) + seq![
            binding_for(AttributeGroup::JointIds),
            binding_for(AttributeGroup::JointWeights),
        ],
        uniforms_for(true) == seq![UniformSlot::JointMatrices] + uniforms_for(false),
{
    assert(layout_for(true) =~= layout_for(false) + seq![
        binding_for(AttributeGroup::JointIds),
        binding_for(AttributeGroup::JointWeights),
    ]);
    assert(uniforms_for(true) =~= seq![UniformSlot::JointMatrices] + uniforms_for(false));
}

} // verus!
