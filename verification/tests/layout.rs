use voxellaneous_core::layout::{
    create_fullscreen_quad_pipeline, layout_entries, pipeline_descriptor, quad_layout,
    BindGroupLayoutEntry, BindGroupLayoutId, BindingType, DepthStencilState, PipelineId,
    SamplerBindingType, ShaderStages, TextureSampleType, TextureViewDimension, VERTEX_STRIDE,
};
use voxellaneous_core::targets::TextureFormat;

const FRAGMENT: ShaderStages = ShaderStages { vertex: false, fragment: true };
const BOTH: ShaderStages = ShaderStages { vertex: true, fragment: true };

fn all_layouts() -> Vec<BindGroupLayoutId> {
    vec![
        BindGroupLayoutId::Static,
        BindGroupLayoutId::PerFrame,
        BindGroupLayoutId::PerDraw,
        BindGroupLayoutId::QuadUint,
        BindGroupLayoutId::QuadFloat,
        BindGroupLayoutId::Lighting,
    ]
}

#[test]
fn static_and_per_frame_layouts_hold_one_uniform_buffer() {
    assert_eq!(
        layout_entries(BindGroupLayoutId::Static),
        vec![BindGroupLayoutEntry { binding: 0, visibility: FRAGMENT, ty: BindingType::UniformBuffer }]
    );
    assert_eq!(
        layout_entries(BindGroupLayoutId::PerFrame),
        vec![BindGroupLayoutEntry { binding: 0, visibility: BOTH, ty: BindingType::UniformBuffer }]
    );
}

#[test]
fn per_draw_layout_holds_volume_and_transform() {
    assert_eq!(
        layout_entries(BindGroupLayoutId::PerDraw),
        vec![
            BindGroupLayoutEntry {
                binding: 0,
                visibility: FRAGMENT,
                ty: BindingType::Texture {
                    sample_type: TextureSampleType::Uint,
                    view_dimension: TextureViewDimension::D3,
                },
            },
            BindGroupLayoutEntry { binding: 1, visibility: BOTH, ty: BindingType::UniformBuffer },
        ]
    );
}

#[test]
fn quad_layouts_differ_in_sample_family() {
    let uint = layout_entries(BindGroupLayoutId::QuadUint);
    let float = layout_entries(BindGroupLayoutId::QuadFloat);
    assert_eq!(uint, quad_layout(TextureSampleType::Uint, SamplerBindingType::NonFiltering));
    assert_eq!(
        float,
        quad_layout(TextureSampleType::Float { filterable: false }, SamplerBindingType::Filtering)
    );
    assert_eq!(
        uint[0].ty,
        BindingType::Texture {
            sample_type: TextureSampleType::Uint,
            view_dimension: TextureViewDimension::D2,
        }
    );
    assert_eq!(uint[1].ty, BindingType::Sampler(SamplerBindingType::NonFiltering));
    assert_eq!(
        float[0].ty,
        BindingType::Texture {
            sample_type: TextureSampleType::Float { filterable: false },
            view_dimension: TextureViewDimension::D2,
        }
    );
    assert_eq!(float[1].ty, BindingType::Sampler(SamplerBindingType::Filtering));
    assert_ne!(uint, float);
}

#[test]
fn lighting_layout_holds_two_textures_sampler_and_uniforms() {
    let float_2d = BindingType::Texture {
        sample_type: TextureSampleType::Float { filterable: false },
        view_dimension: TextureViewDimension::D2,
    };
    assert_eq!(
        layout_entries(BindGroupLayoutId::Lighting),
        vec![
            BindGroupLayoutEntry { binding: 0, visibility: FRAGMENT, ty: float_2d },
            BindGroupLayoutEntry { binding: 1, visibility: FRAGMENT, ty: float_2d },
            BindGroupLayoutEntry {
                binding: 2,
                visibility: FRAGMENT,
                ty: BindingType::Sampler(SamplerBindingType::NonFiltering),
            },
            BindGroupLayoutEntry { binding: 3, visibility: FRAGMENT, ty: BindingType::UniformBuffer },
        ]
    );
}

#[test]
fn bindings_are_numbered_by_position() {
    for id in all_layouts() {
        let entries = layout_entries(id);
        assert!(!entries.is_empty());
        for (i, e) in entries.iter().enumerate() {
            assert_eq!(e.binding as usize, i);
            assert!(e.visibility.fragment);
        }
    }
}

#[test]
fn geometry_pipeline_writes_the_g_buffer() {
    let p = pipeline_descriptor(PipelineId::Geometry);
    assert_eq!(
        p.bind_group_layouts,
        vec![BindGroupLayoutId::Static, BindGroupLayoutId::PerFrame, BindGroupLayoutId::PerDraw]
    );
    assert_eq!(p.vertex_stride, Some(12));
    assert_eq!(VERTEX_STRIDE, 12);
    assert_eq!(
        p.color_targets,
        vec![TextureFormat::Rgba8Unorm, TextureFormat::Rgba8Unorm, TextureFormat::R16Uint]
    );
    assert_eq!(
        p.depth_stencil,
        Some(DepthStencilState {
            format: TextureFormat::Depth24PlusStencil8,
            depth_write_enabled: true,
            depth_compare_less: true,
        })
    );
}

#[test]
fn composition_pipelines_are_self_contained() {
    let cases = [
        (PipelineId::QuadUint, BindGroupLayoutId::QuadUint),
        (PipelineId::QuadFloat, BindGroupLayoutId::QuadFloat),
        (PipelineId::Lighting, BindGroupLayoutId::Lighting),
    ];
    for (id, layout) in cases {
        let p = pipeline_descriptor(id);
        assert_eq!(p.bind_group_layouts, vec![layout]);
        assert_eq!(p.vertex_stride, None);
        assert_eq!(p.color_targets, vec![TextureFormat::Surface]);
        assert_eq!(p.depth_stencil, None);
    }
}

#[test]
fn fullscreen_quad_pipeline_is_built_over_its_own_layout() {
    for layout in all_layouts() {
        let (entries, pipeline) = create_fullscreen_quad_pipeline(layout);
        assert_eq!(entries, layout_entries(layout));
        assert_eq!(pipeline.bind_group_layouts, vec![layout]);
        assert_eq!(layout_entries(pipeline.bind_group_layouts[0]), entries);
        assert_eq!(pipeline.vertex_stride, None);
        assert_eq!(pipeline.color_targets, vec![TextureFormat::Surface]);
        assert_eq!(pipeline.depth_stencil, None);
    }
}

#[test]
fn composition_pipelines_are_fullscreen_pipelines() {
    let cases = [
        (PipelineId::QuadUint, BindGroupLayoutId::QuadUint),
        (PipelineId::QuadFloat, BindGroupLayoutId::QuadFloat),
        (PipelineId::Lighting, BindGroupLayoutId::Lighting),
    ];
    for (id, layout) in cases {
        assert_eq!(create_fullscreen_quad_pipeline(layout).1, pipeline_descriptor(id));
    }
}

#[test]
fn no_pipeline_blends() {
    let ids =
        [PipelineId::Geometry, PipelineId::QuadUint, PipelineId::QuadFloat, PipelineId::Lighting];
    for id in ids {
        let p = pipeline_descriptor(id);
        assert!(!p.blend);
        assert!(p.write_all_channels);
    }
}
