use vstd::prelude::*;
use crate::targets::TextureFormat;

verus! {

/// The shader stages that can see a binding.
#[derive(Clone, Copy, Debug, PartialEq, Eq, Structural)]
pub struct ShaderStages {
    pub vertex: bool,
    pub fragment: bool,
}

#[derive(Clone, Copy, Debug, PartialEq, Eq, Structural)]
pub enum TextureSampleType {
    Uint,
    Float { filterable: bool },
}

#[derive(Clone, Copy, Debug, PartialEq, Eq, Structural)]
pub enum SamplerBindingType {
    Filtering,
    NonFiltering,
}

#[derive(Clone, Copy, Debug, PartialEq, Eq, Structural)]
pub enum TextureViewDimension {
    D2,
    D3,
}

/// The kind of resource behind a binding.
#[derive(Clone, Copy, Debug, PartialEq, Eq, Structural)]
pub enum BindingType {
    /// A whole uniform buffer, without dynamic offset.
    UniformBuffer,
    /// A single-sampled texture.
    Texture { sample_type: TextureSampleType, view_dimension: TextureViewDimension },
    Sampler(SamplerBindingType),
}

#[derive(Clone, Copy, Debug, PartialEq, Eq, Structural)]
pub struct BindGroupLayoutEntry {
    pub binding: u32,
    pub visibility: ShaderStages,
    pub ty: BindingType,
}

/// The binding-group layouts of the renderer.
#[derive(Clone, Copy, Debug, PartialEq, Eq, Structural)]
pub enum BindGroupLayoutId {
    /// The palette.
    Static,
    PerFrame,
    PerDraw,
    /// One texture with integer samples and its sampler.
    QuadUint,
    /// One texture with float samples and its sampler.
    QuadFloat,
    Lighting,
}

#[derive(Clone, Copy, Debug, PartialEq, Eq, Structural)]
pub enum PipelineId {
    /// Writes the G-buffer.
    Geometry,
    /// Shows a target with integer samples.
    QuadUint,
    /// Shows a target with float samples.
    QuadFloat,
    /// Combines albedo and normal with the light.
    Lighting,
}

pub open spec fn fragment_only() -> ShaderStages {
    ShaderStages { vertex: false, fragment: true }
}

pub open spec fn vertex_and_fragment() -> ShaderStages {
    ShaderStages { vertex: true, fragment: true }
}

pub open spec fn float_texture_2d() -> BindingType {
    BindingType::Texture {
        sample_type: TextureSampleType::Float { filterable: false },
        view_dimension: TextureViewDimension::D2,
    }
}

/// Layout of a full-screen pass that samples one texture: the texture at
/// binding 0 and its sampler at binding 1, both for the fragment stage.
pub open spec fn spec_quad_layout(
    sample_type: TextureSampleType,
    sampler_type: SamplerBindingType,
) -> Seq<BindGroupLayoutEntry> {
    seq![
        BindGroupLayoutEntry {
            binding: 0,
            visibility: fragment_only(),
            ty: BindingType::Texture { sample_type, view_dimension: TextureViewDimension::D2 },
        },
        BindGroupLayoutEntry {
            binding: 1,
            visibility: fragment_only(),
            ty: BindingType::Sampler(sampler_type),
        },
    ]
}

/// The entries of each layout, in binding order.
pub open spec fn spec_layout_entries(id: BindGroupLayoutId) -> Seq<BindGroupLayoutEntry> {
    match id {
        BindGroupLayoutId::Static => seq![
            BindGroupLayoutEntry {
                binding: 0,
                visibility: fragment_only(),
                ty: BindingType::UniformBuffer,
            },
        ],
        BindGroupLayoutId::PerFrame => seq![
            BindGroupLayoutEntry {
                binding: 0,
                visibility: vertex_and_fragment(),
                ty: BindingType::UniformBuffer,
            },
        ],
        BindGroupLayoutId::PerDraw => seq![
            BindGroupLayoutEntry {
                binding: 0,
                visibility: fragment_only(),
                ty: BindingType::Texture {
                    sample_type: TextureSampleType::Uint,
                    view_dimension: TextureViewDimension::D3,
                },
            },
            BindGroupLayoutEntry {
                binding: 1,
                visibility: vertex_and_fragment(),
                ty: BindingType::UniformBuffer,
            },
        ],
        BindGroupLayoutId::QuadUint => spec_quad_layout(
            TextureSampleType::Uint,
            SamplerBindingType::NonFiltering,
        ),
        BindGroupLayoutId::QuadFloat => spec_quad_layout(
            TextureSampleType::Float { filterable: false },
            SamplerBindingType::Filtering,
        ),
        BindGroupLayoutId::Lighting => seq![
            BindGroupLayoutEntry {
                binding: 0,
                visibility: fragment_only(),
                ty: float_texture_2d(),
            },
            BindGroupLayoutEntry {
                binding: 1,
                visibility: fragment_only(),
                ty: float_texture_2d(),
            },
            BindGroupLayoutEntry {
                binding: 2,
                visibility: fragment_only(),
                ty: BindingType::Sampler(SamplerBindingType::NonFiltering),
            },
            BindGroupLayoutEntry {
                binding: 3,
                visibility: fragment_only(),
                ty: BindingType::UniformBuffer,
            },
        ],
    }
}

fn entry(binding: u32, vertex: bool, ty: BindingType) -> (e: BindGroupLayoutEntry)
    ensures
        e == (BindGroupLayoutEntry {
            binding,
            visibility: ShaderStages { vertex, fragment: true },
            ty,
        }),
{
    BindGroupLayoutEntry { binding, visibility: ShaderStages { vertex, fragment: true }, ty }
}

pub fn quad_layout(sample_type: TextureSampleType, sampler_type: SamplerBindingType) -> (entries:
    Vec<BindGroupLayoutEntry>)
    ensures
        entries@ == spec_quad_layout(sample_type, sampler_type),
{
    let mut entries: Vec<BindGroupLayoutEntry> = Vec::with_capacity(2);
    entries.push(
        entry(0, false, BindingType::Texture { sample_type, view_dimension: TextureViewDimension::D2 }),
    );
    entries.push(entry(1, false, BindingType::Sampler(sampler_type)));
    assert(entries@ =~= spec_quad_layout(sample_type, sampler_type));
    entries
}

pub fn layout_entries(id: BindGroupLayoutId) -> (entries: Vec<BindGroupLayoutEntry>)
    ensures
        entries@ == spec_layout_entries(id),
{
    let float_2d = BindingType::Texture {
        sample_type: TextureSampleType::Float { filterable: false },
        view_dimension: TextureViewDimension::D2,
    };
    let mut entries: Vec<BindGroupLayoutEntry> = Vec::new();
    match id {
        BindGroupLayoutId::Static => {
            entries.push(entry(0, false, BindingType::UniformBuffer));
        },
        BindGroupLayoutId::PerFrame => {
            entries.push(entry(0, true, BindingType::UniformBuffer));
        },
        BindGroupLayoutId::PerDraw => {
            entries.push(
                entry(
                    0,
                    false,
                    BindingType::Texture {
                        sample_type: TextureSampleType::Uint,
                        view_dimension: TextureViewDimension::D3,
                    },
                ),
            );
            entries.push(entry(1, true, BindingType::UniformBuffer));
        },
        BindGroupLayoutId::QuadUint => {
            entries = quad_layout(TextureSampleType::Uint, SamplerBindingType::NonFiltering);
        },
        BindGroupLayoutId::QuadFloat => {
            entries = quad_layout(
                TextureSampleType::Float { filterable: false },
                SamplerBindingType::Filtering,
            );
        },
        BindGroupLayoutId::Lighting => {
            entries.push(entry(0, false, float_2d));
            entries.push(entry(1, false, float_2d));
            entries.push(entry(2, false, BindingType::Sampler(SamplerBindingType::NonFiltering)));
            entries.push(entry(3, false, BindingType::UniformBuffer));
        },
    }
    assert(entries@ =~= spec_layout_entries(id));
    entries
}

/// The entry binds a texture that is sampled as unsigned integers.
pub open spec fn samples_uint(entry: BindGroupLayoutEntry) -> bool {
    entry.ty matches BindingType::Texture { sample_type: TextureSampleType::Uint, .. }
}

/// The entry binds a texture that is sampled as floats.
pub open spec fn samples_float(entry: BindGroupLayoutEntry) -> bool {
    entry.ty matches BindingType::Texture { sample_type: TextureSampleType::Float { .. }, .. }
}

/// In every layout the entry at position `i` has binding number `i`, so no
/// binding number is used twice and none is left out.
pub proof fn lemma_bindings_are_positions(id: BindGroupLayoutId, i: int)
    requires
        0 <= i < spec_layout_entries(id).len(),
    ensures
        spec_layout_entries(id)[i].binding == i,
{
}

/// How a pipeline tests and writes depth.
#[derive(Clone, Copy, Debug, PartialEq, Eq, Structural)]
pub struct DepthStencilState {
    pub format: TextureFormat,
    pub depth_write_enabled: bool,
    /// A fragment passes where its depth is less than the stored one.
    pub depth_compare_less: bool,
}

/// Everything that is needed to compile one pipeline. Each pipeline has a
/// vertex and a fragment entry stage.
#[derive(Clone, Debug, PartialEq, Eq)]
pub struct PipelineDescriptor {
    /// The layout of group `i` stands at position `i`.
    pub bind_group_layouts: Vec<BindGroupLayoutId>,
    /// Bytes from one vertex to the next in the vertex buffer, each vertex
    /// being three floats at location 0; `None` where no buffer is read.
    pub vertex_stride: Option<u64>,
    /// The format of each colour target, in target order.
    pub color_targets: Vec<TextureFormat>,
    /// What is written to a colour target is blended with what it holds.
    pub blend: bool,
    /// All four channels of each colour target are written.
    pub write_all_channels: bool,
    pub depth_stencil: Option<DepthStencilState>,
}

/// Bytes of one cube vertex: three single-precision floats.
pub const VERTEX_STRIDE: u64 = 12;

pub open spec fn spec_pipeline_layouts(id: PipelineId) -> Seq<BindGroupLayoutId> {
    match id {
        PipelineId::Geometry => seq![
            BindGroupLayoutId::Static,
            BindGroupLayoutId::PerFrame,
            BindGroupLayoutId::PerDraw,
        ],
        PipelineId::QuadUint => seq![BindGroupLayoutId::QuadUint],
        PipelineId::QuadFloat => seq![BindGroupLayoutId::QuadFloat],
        PipelineId::Lighting => seq![BindGroupLayoutId::Lighting],
    }
}

pub open spec fn spec_pipeline_targets(id: PipelineId) -> Seq<TextureFormat> {
    match id {
        PipelineId::Geometry => seq![
            TextureFormat::Rgba8Unorm,
            TextureFormat::Rgba8Unorm,
            TextureFormat::R16Uint,
        ],
        _ => seq![TextureFormat::Surface],
    }
}

pub open spec fn spec_pipeline_depth(id: PipelineId) -> Option<DepthStencilState> {
    match id {
        PipelineId::Geometry => Some(
            DepthStencilState {
                format: TextureFormat::Depth24PlusStencil8,
                depth_write_enabled: true,
                depth_compare_less: true,
            },
        ),
        _ => None,
    }
}

pub open spec fn spec_pipeline_vertex_stride(id: PipelineId) -> Option<u64> {
    match id {
        PipelineId::Geometry => Some(VERTEX_STRIDE),
        _ => None,
    }
}

/// A descriptor is the one of pipeline `id`. No pipeline blends, and each
/// writes all channels.
pub open spec fn is_pipeline(desc: PipelineDescriptor, id: PipelineId) -> bool {
    &&& desc.bind_group_layouts@ == spec_pipeline_layouts(id)
    &&& desc.vertex_stride == spec_pipeline_vertex_stride(id)
    &&& desc.color_targets@ == spec_pipeline_targets(id)
    &&& !desc.blend
    &&& desc.write_all_channels
    &&& desc.depth_stencil == spec_pipeline_depth(id)
}

/// A descriptor is a full-screen pipeline over the one group `layout`: no
/// vertex buffer, no depth test, no blending, and one colour target in the
/// surface's format.
pub open spec fn is_fullscreen_pipeline(desc: PipelineDescriptor, layout: BindGroupLayoutId) -> bool {
    &&& desc.bind_group_layouts@ == seq![layout]
    &&& desc.vertex_stride is None
    &&& desc.color_targets@ == seq![TextureFormat::Surface]
    &&& !desc.blend
    &&& desc.write_all_channels
    &&& desc.depth_stencil is None
}

/// The pipeline of each composition view is the full-screen pipeline over
/// the layout of the same name.
pub open spec fn spec_fullscreen_layout(id: PipelineId) -> Option<BindGroupLayoutId> {
    match id {
        PipelineId::Geometry => None,
        PipelineId::QuadUint => Some(BindGroupLayoutId::QuadUint),
        PipelineId::QuadFloat => Some(BindGroupLayoutId::QuadFloat),
        PipelineId::Lighting => Some(BindGroupLayoutId::Lighting),
    }
}

/// The entries of a layout and the full-screen pipeline over it: the
/// pipeline's one group, group 0, has the layout that the entries make.
pub fn create_fullscreen_quad_pipeline(layout: BindGroupLayoutId) -> (res: (
    Vec<BindGroupLayoutEntry>,
    PipelineDescriptor,
))
    ensures
        res.0@ == spec_layout_entries(layout),
        is_fullscreen_pipeline(res.1, layout),
{
    let entries = layout_entries(layout);
    let mut bind_group_layouts: Vec<BindGroupLayoutId> = Vec::with_capacity(1);
    bind_group_layouts.push(layout);
    let mut color_targets: Vec<TextureFormat> = Vec::with_capacity(1);
    color_targets.push(TextureFormat::Surface);
    assert(bind_group_layouts@ =~= seq![layout]);
    assert(color_targets@ =~= seq![TextureFormat::Surface]);
    (
        entries,
        PipelineDescriptor {
            bind_group_layouts,
            vertex_stride: None,
            color_targets,
            blend: false,
            write_all_channels: true,
            depth_stencil: None,
        },
    )
}

/// A full-screen pipeline over the layout of a composition view is that
/// view's pipeline.
pub proof fn lemma_fullscreen_is_composition_pipeline(desc: PipelineDescriptor, id: PipelineId)
    requires
        spec_fullscreen_layout(id) matches Some(layout) && is_fullscreen_pipeline(desc, layout),
    ensures
        is_pipeline(desc, id),
{
    assert(spec_pipeline_layouts(id) =~= seq![spec_fullscreen_layout(id).unwrap()]);
    assert(spec_pipeline_targets(id) =~= seq![TextureFormat::Surface]);
}

pub fn pipeline_descriptor(id: PipelineId) -> (desc: PipelineDescriptor)
    ensures
        is_pipeline(desc, id),
{
    match id {
        PipelineId::Geometry => {
            let mut bind_group_layouts: Vec<BindGroupLayoutId> = Vec::with_capacity(3);
            bind_group_layouts.push(BindGroupLayoutId::Static);
            bind_group_layouts.push(BindGroupLayoutId::PerFrame);
            bind_group_layouts.push(BindGroupLayoutId::PerDraw);
            let mut color_targets: Vec<TextureFormat> = Vec::with_capacity(3);
            color_targets.push(TextureFormat::Rgba8Unorm);
            color_targets.push(TextureFormat::Rgba8Unorm);
            color_targets.push(TextureFormat::R16Uint);
            assert(bind_group_layouts@ =~= spec_pipeline_layouts(id));
            assert(color_targets@ =~= spec_pipeline_targets(id));
            PipelineDescriptor {
                bind_group_layouts,
                vertex_stride: Some(VERTEX_STRIDE),
                color_targets,
                blend: false,
                write_all_channels: true,
                depth_stencil: Some(
                    DepthStencilState {
                        format: TextureFormat::Depth24PlusStencil8,
                        depth_write_enabled: true,
                        depth_compare_less: true,
                    },
                ),
            }
        },
        PipelineId::QuadUint => {
            let (_, desc) = create_fullscreen_quad_pipeline(BindGroupLayoutId::QuadUint);
            proof {
                lemma_fullscreen_is_composition_pipeline(desc, id);
            }
            desc
        },
        PipelineId::QuadFloat => {
            let (_, desc) = create_fullscreen_quad_pipeline(BindGroupLayoutId::QuadFloat);
            proof {
                lemma_fullscreen_is_composition_pipeline(desc, id);
            }
            desc
        },
        PipelineId::Lighting => {
            let (_, desc) = create_fullscreen_quad_pipeline(BindGroupLayoutId::Lighting);
            proof {
                lemma_fullscreen_is_composition_pipeline(desc, id);
            }
            desc
        },
    }
}

/// The geometry pipeline's colour targets have the formats of the albedo,
/// normal and linear depth targets, in that order, and it tests depth in
/// the format of the depth target.
pub proof fn lemma_geometry_targets_match(config: crate::targets::SurfaceConfiguration)
    ensures
        spec_pipeline_targets(PipelineId::Geometry) == seq![
            crate::targets::spec_target_set(config).albedo.format,
            crate::targets::spec_target_set(config).normal.format,
            crate::targets::spec_target_set(config).linear_z.format,
        ],
        spec_pipeline_depth(PipelineId::Geometry) matches Some(d) && d.format
            == crate::targets::spec_target_set(config).depth.format,
{
    assert(spec_pipeline_targets(PipelineId::Geometry) =~= seq![
        crate::targets::spec_target_set(config).albedo.format,
        crate::targets::spec_target_set(config).normal.format,
        crate::targets::spec_target_set(config).linear_z.format,
    ]);
}

} // verus!
