use vstd::prelude::*;
use crate::geometry::CUBE_INDEX_COUNT;
use crate::layout::{
    BindGroupLayoutId, BindingType, PipelineId, TextureViewDimension, samples_float, samples_uint,
    spec_layout_entries, spec_pipeline_depth, spec_pipeline_layouts, spec_pipeline_targets,
};
use crate::targets::{
    SurfaceConfiguration, TargetSet, TextureDescriptor, TextureDimension, TextureFormat,
    is_uint_format, spec_target_set, spec_voxel_texture,
};

verus! {

/// What the composition pass shows.
#[derive(Clone, Copy, Debug, PartialEq, Eq, Structural)]
pub enum PresentTarget {
    Albedo,
    Normal,
    LinearDepth,
    DepthBuffer,
    Lit,
}

/// A texture that a composition pass can sample.
#[derive(Clone, Copy, Debug, PartialEq, Eq, Structural)]
pub enum TextureSource {
    Albedo,
    Normal,
    LinearDepth,
    DepthStencil,
}

/// A set of resources bound together under one layout.
#[derive(Clone, Copy, Debug, PartialEq, Eq, Structural)]
pub enum BindGroup {
    /// The palette buffer.
    Static,
    /// The per-frame uniform buffer.
    PerFrame,
    /// The voxel texture and uniform buffer of the draw call at this
    /// position.
    PerDraw(usize),
    /// One texture and the shared sampler, for a debug view.
    Quad { layout: BindGroupLayoutId, texture: TextureSource },
    /// Albedo, normal, the shared sampler and the lighting buffer.
    Lighting,
}

/// A texture that a pass renders to.
#[derive(Clone, Copy, Debug, PartialEq, Eq, Structural)]
pub enum Attachment {
    Albedo,
    Normal,
    LinearDepth,
    /// The surface image that is presented at the end of the frame.
    SurfaceImage,
}

#[derive(Clone, Copy, Debug, PartialEq, Eq, Structural)]
pub enum Command {
    SetPipeline(PipelineId),
    SetBindGroup { index: u32, group: BindGroup },
    /// Binds the whole cube vertex buffer to a slot.
    SetVertexBuffer { slot: u32 },
    /// Binds the whole cube index buffer, 16 bits per index.
    SetIndexBuffer,
    /// Draws indices `0..index_count` with base vertex 0.
    DrawIndexed { index_count: u32, instance_count: u32 },
    /// Draws vertices `0..vertex_count` without an index buffer.
    Draw { vertex_count: u32, instance_count: u32 },
}

/// A colour as four double-precision float bit patterns.
#[derive(Clone, Copy, Debug, PartialEq, Eq, Structural)]
pub struct ClearColor {
    pub r: u64,
    pub g: u64,
    pub b: u64,
    pub a: u64,
}

/// Bit pattern of the double-precision float `1.0`.
pub const ONE_BITS_F64: u64 = 0x3FF0_0000_0000_0000;

/// Opaque black: no red, green or blue, and an alpha of one.
pub open spec fn spec_black() -> ClearColor {
    ClearColor { r: 0, g: 0, b: 0, a: ONE_BITS_F64 }
}

/// One render pass.
#[derive(Clone, Debug, PartialEq, Eq)]
pub struct RenderPass {
    pub color_attachments: Vec<Attachment>,
    /// What every colour attachment is cleared to when the pass begins.
    pub color_clear: ClearColor,
    /// What the pass writes to its colour attachments is kept.
    pub color_store: bool,
    /// Float bit pattern that the depth target is cleared to; `None` where
    /// the pass has no depth target.
    pub depth_clear: Option<u32>,
    /// The depth that the pass writes is kept after it.
    pub depth_store: bool,
    pub commands: Vec<Command>,
}

/// Bit pattern of the single-precision float `1.0`, the far plane.
pub const DEPTH_FAR_BITS: u32 = 0x3F80_0000;

/// The target behind a numeric mode: 0 to 4 in the order of the variants,
/// and the albedo view for every other number.
pub open spec fn spec_present_target(index: usize) -> PresentTarget {
    if index == 1 {
        PresentTarget::Normal
    } else if index == 2 {
        PresentTarget::LinearDepth
    } else if index == 3 {
        PresentTarget::DepthBuffer
    } else if index == 4 {
        PresentTarget::Lit
    } else {
        PresentTarget::Albedo
    }
}

/// The pipeline that shows a target.
pub open spec fn spec_composition_pipeline(target: PresentTarget) -> PipelineId {
    match target {
        PresentTarget::LinearDepth => PipelineId::QuadUint,
        PresentTarget::Lit => PipelineId::Lighting,
        _ => PipelineId::QuadFloat,
    }
}

/// The resources that are bound to show a target.
pub open spec fn spec_composition_group(target: PresentTarget) -> BindGroup {
    match target {
        PresentTarget::Albedo => BindGroup::Quad {
            layout: BindGroupLayoutId::QuadFloat,
            texture: TextureSource::Albedo,
        },
        PresentTarget::Normal => BindGroup::Quad {
            layout: BindGroupLayoutId::QuadFloat,
            texture: TextureSource::Normal,
        },
        PresentTarget::LinearDepth => BindGroup::Quad {
            layout: BindGroupLayoutId::QuadUint,
            texture: TextureSource::LinearDepth,
        },
        PresentTarget::DepthBuffer => BindGroup::Quad {
            layout: BindGroupLayoutId::QuadFloat,
            texture: TextureSource::DepthStencil,
        },
        PresentTarget::Lit => BindGroup::Lighting,
    }
}

/// The layout that a bind group is made with.
pub open spec fn spec_group_layout(group: BindGroup) -> BindGroupLayoutId {
    match group {
        BindGroup::Static => BindGroupLayoutId::Static,
        BindGroup::PerFrame => BindGroupLayoutId::PerFrame,
        BindGroup::PerDraw(_) => BindGroupLayoutId::PerDraw,
        BindGroup::Quad { layout, .. } => layout,
        BindGroup::Lighting => BindGroupLayoutId::Lighting,
    }
}

impl PresentTarget {
    pub fn from_index(index: usize) -> (target: PresentTarget)
        ensures
            target == spec_present_target(index),
    {
        match index {
            1 => PresentTarget::Normal,
            2 => PresentTarget::LinearDepth,
            3 => PresentTarget::DepthBuffer,
            4 => PresentTarget::Lit,
            _ => PresentTarget::Albedo,
        }
    }

    pub fn pipeline(&self) -> (id: PipelineId)
        ensures
            id == spec_composition_pipeline(*self),
    {
        match self {
            PresentTarget::LinearDepth => PipelineId::QuadUint,
            PresentTarget::Lit => PipelineId::Lighting,
            _ => PipelineId::QuadFloat,
        }
    }

    pub fn bind_group(&self) -> (group: BindGroup)
        ensures
            group == spec_composition_group(*self),
    {
        match self {
            PresentTarget::Albedo => BindGroup::Quad {
                layout: BindGroupLayoutId::QuadFloat,
                texture: TextureSource::Albedo,
            },
            PresentTarget::Normal => BindGroup::Quad {
                layout: BindGroupLayoutId::QuadFloat,
                texture: TextureSource::Normal,
            },
            PresentTarget::LinearDepth => BindGroup::Quad {
                layout: BindGroupLayoutId::QuadUint,
                texture: TextureSource::LinearDepth,
            },
            PresentTarget::DepthBuffer => BindGroup::Quad {
                layout: BindGroupLayoutId::QuadFloat,
                texture: TextureSource::DepthStencil,
            },
            PresentTarget::Lit => BindGroup::Lighting,
        }
    }
}

/// What every geometry pass starts with: the pipeline, the two groups that
/// all draws share, and the cube's buffers.
pub open spec fn spec_geometry_prelude() -> Seq<Command> {
    seq![
        Command::SetPipeline(PipelineId::Geometry),
        Command::SetBindGroup { index: 0, group: BindGroup::Static },
        Command::SetBindGroup { index: 1, group: BindGroup::PerFrame },
        Command::SetVertexBuffer { slot: 0 },
        Command::SetIndexBuffer,
    ]
}

/// The two commands of each draw call, in draw-call order: bind the call's
/// group at index 2, then draw the cube once.
pub open spec fn spec_draw_commands(draw_calls: nat) -> Seq<Command> {
    Seq::new(
        2 * draw_calls,
        |k: int|
            if k % 2 == 0 {
                Command::SetBindGroup { index: 2, group: BindGroup::PerDraw((k / 2) as usize) }
            } else {
                Command::DrawIndexed { index_count: CUBE_INDEX_COUNT, instance_count: 1 }
            },
    )
}

pub open spec fn spec_geometry_commands(draw_calls: nat) -> Seq<Command> {
    spec_geometry_prelude() + spec_draw_commands(draw_calls)
}

/// A pass is the geometry pass over `draw_calls` draw calls.
pub open spec fn is_geometry_pass(pass: RenderPass, draw_calls: nat) -> bool {
    &&& pass.color_attachments@ == seq![
        Attachment::Albedo,
        Attachment::Normal,
        Attachment::LinearDepth,
    ]
    &&& pass.color_clear == spec_black()
    &&& pass.color_store
    &&& pass.depth_clear == Some(DEPTH_FAR_BITS)
    &&& !pass.depth_store
    &&& pass.commands@ == spec_geometry_commands(draw_calls)
}

/// The geometry pass: clears the three G-buffer targets to black and the
/// depth target to the far plane, then draws the cube once for each draw
/// call. The colours written are kept, the depth is not.
pub fn geometry_pass(draw_calls: usize) -> (pass: RenderPass)
    ensures
        is_geometry_pass(pass, draw_calls as nat),
{
    let mut color_attachments: Vec<Attachment> = Vec::with_capacity(3);
    color_attachments.push(Attachment::Albedo);
    color_attachments.push(Attachment::Normal);
    color_attachments.push(Attachment::LinearDepth);
    assert(color_attachments@ =~= seq![
        Attachment::Albedo,
        Attachment::Normal,
        Attachment::LinearDepth,
    ]);
    let mut commands: Vec<Command> = Vec::new();
    commands.push(Command::SetPipeline(PipelineId::Geometry));
    commands.push(Command::SetBindGroup { index: 0, group: BindGroup::Static });
    commands.push(Command::SetBindGroup { index: 1, group: BindGroup::PerFrame });
    commands.push(Command::SetVertexBuffer { slot: 0 });
    commands.push(Command::SetIndexBuffer);
    assert(commands@ =~= spec_geometry_commands(0));
    let mut i: usize = 0;
    while i < draw_calls
        invariant
            i <= draw_calls,
            commands@ == spec_geometry_commands(i as nat),
        decreases draw_calls - i,
    {
        commands.push(Command::SetBindGroup { index: 2, group: BindGroup::PerDraw(i) });
        commands.push(Command::DrawIndexed { index_count: CUBE_INDEX_COUNT, instance_count: 1 });
        i += 1;
        assert(commands@ =~= spec_geometry_commands(i as nat));
    }
    RenderPass {
        color_attachments,
        color_clear: ClearColor { r: 0, g: 0, b: 0, a: ONE_BITS_F64 },
        color_store: true,
        depth_clear: Some(DEPTH_FAR_BITS),
        depth_store: false,
        commands,
    }
}

/// After its five commands of set-up, the geometry pass holds two commands
/// for each draw call, in draw-call order: the call's own group is bound,
/// then the cube is drawn once.
pub proof fn lemma_geometry_draws_each_call(draw_calls: nat, i: int)
    requires
        draw_calls <= usize::MAX,
        0 <= i < draw_calls,
    ensures
        spec_geometry_commands(draw_calls).len() == 5 + 2 * draw_calls,
        spec_geometry_commands(draw_calls).subrange(0, 5) == spec_geometry_prelude(),
        spec_geometry_commands(draw_calls)[5 + 2 * i] == (Command::SetBindGroup {
            index: 2,
            group: BindGroup::PerDraw(i as usize),
        }),
        spec_geometry_commands(draw_calls)[6 + 2 * i] == (Command::DrawIndexed {
            index_count: CUBE_INDEX_COUNT,
            instance_count: 1,
        }),
{
    assert(spec_geometry_commands(draw_calls).subrange(0, 5) =~= spec_geometry_prelude());
    assert(spec_geometry_commands(draw_calls)[5 + 2 * i] == spec_draw_commands(draw_calls)[2 * i]);
    assert(spec_geometry_commands(draw_calls)[6 + 2 * i] == spec_draw_commands(draw_calls)[2 * i
        + 1]);
}

/// One full-screen triangle with the pipeline and the resources of the
/// target.
pub open spec fn spec_composition_commands(target: PresentTarget) -> Seq<Command> {
    seq![
        Command::SetPipeline(spec_composition_pipeline(target)),
        Command::SetBindGroup { index: 0, group: spec_composition_group(target) },
        Command::Draw { vertex_count: 3, instance_count: 1 },
    ]
}

/// A pass is the composition pass that shows `target`.
pub open spec fn is_composition_pass(pass: RenderPass, target: PresentTarget) -> bool {
    &&& pass.color_attachments@ == seq![Attachment::SurfaceImage]
    &&& pass.color_clear == spec_black()
    &&& pass.color_store
    &&& pass.depth_clear is None
    &&& !pass.depth_store
    &&& pass.commands@ == spec_composition_commands(target)
}

/// The composition pass: clears the surface image to black and draws one
/// full-screen triangle that shows the target.
pub fn composition_pass(target: PresentTarget) -> (pass: RenderPass)
    ensures
        is_composition_pass(pass, target),
{
    let mut color_attachments: Vec<Attachment> = Vec::with_capacity(1);
    color_attachments.push(Attachment::SurfaceImage);
    assert(color_attachments@ =~= seq![Attachment::SurfaceImage]);
    let mut commands: Vec<Command> = Vec::with_capacity(3);
    commands.push(Command::SetPipeline(target.pipeline()));
    commands.push(Command::SetBindGroup { index: 0, group: target.bind_group() });
    commands.push(Command::Draw { vertex_count: 3, instance_count: 1 });
    assert(commands@ =~= spec_composition_commands(target));
    RenderPass {
        color_attachments,
        color_clear: ClearColor { r: 0, g: 0, b: 0, a: ONE_BITS_F64 },
        color_store: true,
        depth_clear: None,
        depth_store: false,
        commands,
    }
}

/// The pipeline that is current at a position of a command sequence: the
/// one set last before it.
pub open spec fn spec_current_pipeline(commands: Seq<Command>, at: int) -> Option<PipelineId>
    decreases at,
{
    if at <= 0 || at > commands.len() {
        None
    } else {
        match commands[at - 1] {
            Command::SetPipeline(id) => Some(id),
            _ => spec_current_pipeline(commands, at - 1),
        }
    }
}

/// Every group that a command sequence binds is bound at a group number
/// that the current pipeline has, and was made with the layout that the
/// pipeline expects there.
pub open spec fn bindings_match_pipeline(commands: Seq<Command>) -> bool {
    forall|k: int|
        0 <= k < commands.len() ==> match #[trigger] commands[k] {
            Command::SetBindGroup { index, group } => {
                &&& spec_current_pipeline(commands, k) matches Some(id)
                &&& index < spec_pipeline_layouts(id).len()
                &&& spec_pipeline_layouts(id)[index as int] == spec_group_layout(group)
            },
            _ => true,
        }
}

proof fn lemma_geometry_pipeline_is_current(draw_calls: nat, at: int)
    requires
        1 <= at <= spec_geometry_commands(draw_calls).len(),
    ensures
        spec_current_pipeline(spec_geometry_commands(draw_calls), at) == Some(PipelineId::Geometry),
    decreases at,
{
    let commands = spec_geometry_commands(draw_calls);
    if at > 1 {
        lemma_geometry_pipeline_is_current(draw_calls, at - 1);
        assert(!(commands[at - 1] is SetPipeline));
    } else {
        assert(commands[0] == Command::SetPipeline(PipelineId::Geometry));
    }
}

/// The geometry pass binds the palette, the per-frame data and each draw
/// call's data where the geometry pipeline expects them: at groups 0, 1 and
/// 2.
pub proof fn lemma_geometry_bindings_match(draw_calls: nat)
    ensures
        bindings_match_pipeline(spec_geometry_commands(draw_calls)),
{
    let commands = spec_geometry_commands(draw_calls);
    assert forall|k: int| 0 <= k < commands.len() implies match #[trigger] commands[k] {
        Command::SetBindGroup { index, group } => {
            &&& spec_current_pipeline(commands, k) matches Some(id)
            &&& index < spec_pipeline_layouts(id).len()
            &&& spec_pipeline_layouts(id)[index as int] == spec_group_layout(group)
        },
        _ => true,
    } by {
        if k >= 1 {
            lemma_geometry_pipeline_is_current(draw_calls, k);
        }
    }
}

/// Whatever the composition pass shows, it binds its one group at group 0
/// of a pipeline whose layout there is the group's own.
pub proof fn lemma_composition_bindings_match(target: PresentTarget)
    ensures
        bindings_match_pipeline(spec_composition_commands(target)),
{
    let commands = spec_composition_commands(target);
    reveal_with_fuel(spec_current_pipeline, 3);
    assert(spec_current_pipeline(commands, 1) == Some(spec_composition_pipeline(target)));
}

/// The target that stands behind a texture source.
pub open spec fn spec_source_texture(targets: TargetSet, source: TextureSource) -> TextureDescriptor {
    match source {
        TextureSource::Albedo => targets.albedo,
        TextureSource::Normal => targets.normal,
        TextureSource::LinearDepth => targets.linear_z,
        TextureSource::DepthStencil => targets.depth,
    }
}

/// The three G-buffer targets can be rendered to and sampled, so every
/// view but that of the depth buffer samples a texture that was made for
/// it. The depth-stencil target is a render attachment only.
pub proof fn lemma_sampled_targets(config: SurfaceConfiguration, source: TextureSource)
    ensures
        spec_source_texture(spec_target_set(config), source).usage.render_attachment,
        spec_source_texture(spec_target_set(config), source).usage.texture_binding <==> source
            != TextureSource::DepthStencil,
{
}

/// A debug view binds its texture under the layout of the texture's own
/// sample family: integer samples for an integer format, float samples for
/// every other.
pub proof fn lemma_debug_view_sample_family(config: SurfaceConfiguration, target: PresentTarget)
    requires
        target != PresentTarget::Lit,
    ensures
        spec_composition_group(target) matches BindGroup::Quad { layout, texture } && {
            let entry = spec_layout_entries(layout)[0];
            let format = spec_source_texture(spec_target_set(config), texture).format;
            &&& samples_uint(entry) <==> is_uint_format(format)
            &&& samples_float(entry) <==> !is_uint_format(format)
        },
{
}

/// The lighting view samples albedo and normal as floats, and both have a
/// float format.
pub proof fn lemma_lighting_sample_family(config: SurfaceConfiguration)
    ensures
        samples_float(spec_layout_entries(BindGroupLayoutId::Lighting)[0]),
        samples_float(spec_layout_entries(BindGroupLayoutId::Lighting)[1]),
        !is_uint_format(spec_target_set(config).albedo.format),
        !is_uint_format(spec_target_set(config).normal.format),
{
}

/// A voxel texture is what the per-draw layout binds at binding 0: a 3-D
/// texture of unsigned integers.
pub proof fn lemma_voxel_texture_matches_layout(nx: u32, ny: u32, nz: u32)
    ensures
        samples_uint(spec_layout_entries(BindGroupLayoutId::PerDraw)[0]),
        is_uint_format(spec_voxel_texture(nx, ny, nz).format),
        spec_layout_entries(BindGroupLayoutId::PerDraw)[0].ty matches BindingType::Texture {
            view_dimension: TextureViewDimension::D3,
            ..
        },
        spec_voxel_texture(nx, ny, nz).dimension == TextureDimension::D3,
        spec_voxel_texture(nx, ny, nz).usage.texture_binding,
        spec_voxel_texture(nx, ny, nz).usage.copy_dst,
{
}

/// Whatever the composition pass shows, its pipeline writes one colour
/// target in the surface's format and tests no depth, as the pass has the
/// surface image for its one attachment and no depth target.
pub proof fn lemma_composition_targets_match(target: PresentTarget)
    ensures
        spec_pipeline_targets(spec_composition_pipeline(target)) == seq![TextureFormat::Surface],
        spec_pipeline_depth(spec_composition_pipeline(target)) is None,
{
    assert(spec_pipeline_targets(spec_composition_pipeline(target)) =~= seq![
        TextureFormat::Surface,
    ]);
}

/// Each of the five modes shows its own pipeline and texture, and
/// every other number shows what mode 0 shows: the albedo view.
pub proof fn lemma_present_modes(index: usize)
    ensures
        index == 0 ==> spec_composition_pipeline(spec_present_target(index))
            == PipelineId::QuadFloat && spec_composition_group(spec_present_target(index))
            == (BindGroup::Quad {
            layout: BindGroupLayoutId::QuadFloat,
            texture: TextureSource::Albedo,
        }),
        index == 1 ==> spec_composition_pipeline(spec_present_target(index))
            == PipelineId::QuadFloat && spec_composition_group(spec_present_target(index))
            == (BindGroup::Quad {
            layout: BindGroupLayoutId::QuadFloat,
            texture: TextureSource::Normal,
        }),
        index == 2 ==> spec_composition_pipeline(spec_present_target(index))
            == PipelineId::QuadUint && spec_composition_group(spec_present_target(index))
            == (BindGroup::Quad {
            layout: BindGroupLayoutId::QuadUint,
            texture: TextureSource::LinearDepth,
        }),
        index == 3 ==> spec_composition_pipeline(spec_present_target(index))
            == PipelineId::QuadFloat && spec_composition_group(spec_present_target(index))
            == (BindGroup::Quad {
            layout: BindGroupLayoutId::QuadFloat,
            texture: TextureSource::DepthStencil,
        }),
        index == 4 ==> spec_composition_pipeline(spec_present_target(index))
            == PipelineId::Lighting && spec_composition_group(spec_present_target(index))
            == BindGroup::Lighting,
        index > 4 ==> spec_composition_commands(spec_present_target(index))
            == spec_composition_commands(spec_present_target(0)),
{
}

/// Where a frame stands. Each step but the last two names the work that
/// the host does next.
#[derive(Clone, Copy, Debug, PartialEq, Eq, Structural)]
pub enum FrameStep {
    /// Write the per-frame and the lighting uniforms to their buffers.
    WriteUniforms,
    /// Record the geometry pass.
    GeometryPass,
    /// Acquire the next image of the surface. This alone can fail.
    AcquireSurfaceImage,
    /// Record the composition pass onto the acquired image.
    CompositionPass,
    /// Submit everything recorded as one batch.
    Submit,
    /// Present the acquired image.
    Present,
    /// The frame was presented.
    Done,
    /// No image could be acquired: nothing was submitted.
    Failed,
}

/// The step after `step`, where `succeeded` tells how the work of `step`
/// went. Only the acquisition of the surface image looks at it.
pub open spec fn spec_next_step(step: FrameStep, succeeded: bool) -> FrameStep {
    match step {
        FrameStep::WriteUniforms => FrameStep::GeometryPass,
        FrameStep::GeometryPass => FrameStep::AcquireSurfaceImage,
        FrameStep::AcquireSurfaceImage => if succeeded {
            FrameStep::CompositionPass
        } else {
            FrameStep::Failed
        },
        FrameStep::CompositionPass => FrameStep::Submit,
        FrameStep::Submit => FrameStep::Present,
        FrameStep::Present => FrameStep::Done,
        FrameStep::Done => FrameStep::Done,
        FrameStep::Failed => FrameStep::Failed,
    }
}

/// Where a frame stands after `steps` steps from `step`, the acquisition
/// of the image succeeding or not.
pub open spec fn spec_run(step: FrameStep, acquired: bool, steps: nat) -> FrameStep
    decreases steps,
{
    if steps == 0 {
        step
    } else {
        spec_run(spec_next_step(step, acquired), acquired, (steps - 1) as nat)
    }
}

impl FrameStep {
    /// The step that every frame starts with.
    pub fn first() -> (step: FrameStep)
        ensures
            step == FrameStep::WriteUniforms,
    {
        FrameStep::WriteUniforms
    }

    pub fn next(self, succeeded: bool) -> (step: FrameStep)
        ensures
            step == spec_next_step(self, succeeded),
    {
        match self {
            FrameStep::WriteUniforms => FrameStep::GeometryPass,
            FrameStep::GeometryPass => FrameStep::AcquireSurfaceImage,
            FrameStep::AcquireSurfaceImage => if succeeded {
                FrameStep::CompositionPass
            } else {
                FrameStep::Failed
            },
            FrameStep::CompositionPass => FrameStep::Submit,
            FrameStep::Submit => FrameStep::Present,
            FrameStep::Present => FrameStep::Done,
            FrameStep::Done => FrameStep::Done,
            FrameStep::Failed => FrameStep::Failed,
        }
    }

    /// How a frame that has come to its end went: well, or with a render
    /// error. `None` while there is work left.
    pub fn outcome(self) -> (res: Option<Result<(), crate::error::RendererError>>)
        ensures
            self == FrameStep::Done ==> res == Some(Ok::<(), crate::error::RendererError>(())),
            self == FrameStep::Failed ==> res == Some(
                Err::<(), crate::error::RendererError>(crate::error::RendererError::Render),
            ),
            self != FrameStep::Done && self != FrameStep::Failed ==> res is None,
    {
        match self {
            FrameStep::Done => Some(Ok(())),
            FrameStep::Failed => Some(Err(crate::error::RendererError::Render)),
            _ => None,
        }
    }
}

/// A frame whose image is acquired goes through the six steps in their
/// order and ends presented.
pub proof fn lemma_frame_runs_to_presentation()
    ensures
        spec_run(FrameStep::WriteUniforms, true, 1) == FrameStep::GeometryPass,
        spec_run(FrameStep::WriteUniforms, true, 2) == FrameStep::AcquireSurfaceImage,
        spec_run(FrameStep::WriteUniforms, true, 3) == FrameStep::CompositionPass,
        spec_run(FrameStep::WriteUniforms, true, 4) == FrameStep::Submit,
        spec_run(FrameStep::WriteUniforms, true, 5) == FrameStep::Present,
        spec_run(FrameStep::WriteUniforms, true, 6) == FrameStep::Done,
{
    reveal_with_fuel(spec_run, 7);
}

/// A frame whose image cannot be acquired never composes, submits or
/// presents, however long it is run, and has failed after three steps.
pub proof fn lemma_lost_image_submits_nothing(steps: nat)
    ensures
        spec_run(FrameStep::WriteUniforms, false, steps) != FrameStep::CompositionPass,
        spec_run(FrameStep::WriteUniforms, false, steps) != FrameStep::Submit,
        spec_run(FrameStep::WriteUniforms, false, steps) != FrameStep::Present,
        spec_run(FrameStep::WriteUniforms, false, steps) != FrameStep::Done,
        steps >= 3 ==> spec_run(FrameStep::WriteUniforms, false, steps) == FrameStep::Failed,
{
    reveal_with_fuel(spec_run, 4);
    if steps >= 3 {
        lemma_end_stays(FrameStep::Failed, (steps - 3) as nat);
        lemma_run_splits(FrameStep::WriteUniforms, false, 3, (steps - 3) as nat);
    }
}

/// A frame that has come to its end stays there.
pub proof fn lemma_end_stays(step: FrameStep, steps: nat)
    requires
        step == FrameStep::Done || step == FrameStep::Failed,
    ensures
        spec_run(step, true, steps) == step,
        spec_run(step, false, steps) == step,
    decreases steps,
{
    if steps > 0 {
        lemma_end_stays(step, (steps - 1) as nat);
    }
}

/// Running `a + b` steps is running `a` steps and then `b`.
pub proof fn lemma_run_splits(step: FrameStep, acquired: bool, a: nat, b: nat)
    ensures
        spec_run(step, acquired, a + b) == spec_run(spec_run(step, acquired, a), acquired, b),
    decreases a,
{
    if a > 0 {
        lemma_run_splits(spec_next_step(step, acquired), acquired, (a - 1) as nat, b);
    }
}

/// Once recording has begun, only the acquisition of the surface image
/// decides how the frame goes on: at every other step the outcome of the
/// work changes nothing.
pub proof fn lemma_only_acquisition_decides(step: FrameStep)
    requires
        step != FrameStep::AcquireSurfaceImage,
    ensures
        spec_next_step(step, true) == spec_next_step(step, false),
{
}

} // verus!
