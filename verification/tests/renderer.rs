use voxellaneous_core::error::RendererError;
use voxellaneous_core::frame::{
    composition_pass, geometry_pass, Attachment, BindGroup, Command, PresentTarget, TextureSource,
};
use voxellaneous_core::layout::{BindGroupLayoutId, PipelineId};
use voxellaneous_core::renderer::{AdapterInfo, Renderer};
use voxellaneous_core::scene::{plan_draw_calls, DrawCallData, Scene, VoxelObject};
use voxellaneous_core::targets::{
    create_target_set, surface_configuration, voxel_texture, TextureFormat,
};
use voxellaneous_core::uniforms::{block_bytes, pack_palette, Rgba};

fn adapter() -> AdapterInfo {
    AdapterInfo {
        name: "Test Adapter".to_string(),
        vendor: 0x10de,
        device: 0x2204,
        device_type: "DiscreteGpu".to_string(),
        driver_info: "545.29".to_string(),
        backend: "Vulkan".to_string(),
    }
}

fn renderer() -> Renderer {
    Renderer::new(adapter(), 2, 800, 600, 2048).unwrap()
}

fn identity() -> Vec<u32> {
    let mut m = vec![0.0f32.to_bits(); 16];
    for i in 0..4 {
        m[5 * i] = 1.0f32.to_bits();
    }
    m
}

fn object(id: &str, dims: [u32; 3]) -> VoxelObject {
    VoxelObject {
        id: id.to_string(),
        dims,
        voxels: vec![0u8; (dims[0] * dims[1] * dims[2]) as usize],
        model_matrix: identity(),
        inv_model_matrix: identity(),
    }
}

fn red() -> Rgba {
    Rgba { r: 255, g: 0, b: 0, a: 255 }
}

fn expected_call(object: usize, dims: [u32; 3]) -> DrawCallData {
    let mut uniforms = identity();
    uniforms.extend(identity());
    DrawCallData {
        object,
        texture: voxel_texture(dims[0], dims[1], dims[2]),
        bytes_per_row: dims[0],
        rows_per_image: dims[1],
        uniforms,
    }
}

#[test]
fn new_renderer_is_empty() {
    let r = renderer();
    assert_eq!(r.surface_config(), surface_configuration(2, 800, 600).unwrap());
    assert_eq!(r.targets(), create_target_set(&r.surface_config()));
    assert_eq!(r.color_palette(), &vec![0u32; 256]);
    assert!(r.draw_calls().is_empty());
    assert_eq!(r.max_texture_dimension_3d(), 2048);
    assert_eq!(r.static_uniforms(), vec![0u8; 1024]);
}

#[test]
fn new_without_surface_format_fails() {
    assert!(matches!(Renderer::new(adapter(), 0, 800, 600, 2048), Err(RendererError::Acquisition)));
}

#[test]
fn resize_recreates_targets_at_the_new_size() {
    let mut r = renderer();
    assert_eq!(r.resize(1920, 1080), Ok(()));
    let c = r.surface_config();
    assert_eq!((c.width, c.height), (1920, 1080));
    assert_eq!(c.format_index, 0);
    assert_eq!(c.desired_maximum_frame_latency, 2);
    let t = r.targets();
    for d in [t.albedo, t.normal, t.linear_z, t.depth] {
        assert_eq!((d.width, d.height, d.depth_or_array_layers), (1920, 1080, 1));
    }
    assert_eq!(t.albedo.format, TextureFormat::Rgba8Unorm);
    assert_eq!(t.normal.format, TextureFormat::Rgba8Unorm);
    assert_eq!(t.linear_z.format, TextureFormat::R16Uint);
    assert_eq!(t.depth.format, TextureFormat::Depth24PlusStencil8);
    assert!(!t.depth.usage.texture_binding);
    assert!(t.albedo.usage.texture_binding && t.albedo.usage.render_attachment);
}

#[test]
fn resize_twice_is_resize_once() {
    let mut once = renderer();
    once.resize(1280, 720).unwrap();
    let mut twice = renderer();
    twice.resize(1280, 720).unwrap();
    twice.resize(1280, 720).unwrap();
    assert_eq!(once.targets(), twice.targets());
    assert_eq!(once.surface_config(), twice.surface_config());
}

#[test]
fn resize_keeps_the_scene() {
    let mut r = renderer();
    let scene = Scene { palette: vec![red()], objects: vec![object("a", [2, 2, 2])] };
    r.upload_scene(&scene).unwrap();
    r.resize(10, 20).unwrap();
    assert_eq!(r.draw_calls(), &vec![expected_call(0, [2, 2, 2])]);
    assert_eq!(r.color_palette()[0], 0xFF00_00FF);
}

#[test]
fn upload_holds_one_draw_call_per_object_in_order() {
    let mut r = renderer();
    let dims = [[2, 2, 2], [1, 5, 3], [16, 8, 4]];
    let scene = Scene {
        palette: vec![red(), Rgba { r: 1, g: 2, b: 3, a: 4 }],
        objects: dims.iter().enumerate().map(|(i, d)| object(&format!("o{}", i), *d)).collect(),
    };
    assert_eq!(r.upload_scene(&scene), Ok(()));
    assert_eq!(r.draw_calls().len(), 3);
    for i in 0..3 {
        assert_eq!(r.draw_calls()[i], expected_call(i, dims[i]));
    }
    assert_eq!(r.color_palette(), &pack_palette(&scene.palette));
    assert_eq!(r.static_uniforms(), block_bytes(&pack_palette(&scene.palette)));
}

#[test]
fn upload_replaces_the_previous_scene() {
    let mut r = renderer();
    let first = Scene {
        palette: vec![red(), red(), red()],
        objects: vec![object("a", [1, 1, 1]), object("b", [2, 2, 2])],
    };
    r.upload_scene(&first).unwrap();
    let second = Scene { palette: vec![], objects: vec![object("c", [3, 3, 3])] };
    r.upload_scene(&second).unwrap();
    assert_eq!(r.draw_calls(), &vec![expected_call(0, [3, 3, 3])]);
    assert_eq!(r.color_palette(), &vec![0u32; 256]);
    let empty = Scene { palette: vec![], objects: vec![] };
    r.upload_scene(&empty).unwrap();
    assert!(r.draw_calls().is_empty());
}

#[test]
fn failed_upload_changes_nothing() {
    let mut r = renderer();
    let first = Scene { palette: vec![red()], objects: vec![object("a", [2, 2, 2])] };
    r.upload_scene(&first).unwrap();
    let calls = r.draw_calls().clone();
    let palette = r.color_palette().clone();
    let bad = Scene {
        palette: vec![Rgba { r: 9, g: 9, b: 9, a: 9 }],
        objects: vec![object("x", [4, 4, 4]), object("y", [0, 4, 4]), object("z", [1, 1, 1])],
    };
    assert_eq!(r.upload_scene(&bad), Err(RendererError::Upload(1)));
    assert_eq!(r.draw_calls(), &calls);
    assert_eq!(r.color_palette(), &palette);
}

#[test]
fn upload_rejects_sides_over_the_device_limit() {
    let mut r = Renderer::new(adapter(), 1, 64, 64, 8).unwrap();
    let ok = Scene { palette: vec![], objects: vec![object("a", [8, 8, 8])] };
    assert_eq!(r.upload_scene(&ok), Ok(()));
    let bad = Scene { palette: vec![], objects: vec![object("a", [8, 9, 8])] };
    assert_eq!(r.upload_scene(&bad), Err(RendererError::Upload(0)));
    assert_eq!(r.draw_calls(), &vec![expected_call(0, [8, 8, 8])]);
}

#[test]
fn upload_rejects_voxel_count_mismatch() {
    let mut r = renderer();
    let mut short = object("a", [2, 2, 2]);
    short.voxels.pop();
    let scene = Scene { palette: vec![red()], objects: vec![object("b", [1, 1, 1]), short] };
    assert_eq!(r.upload_scene(&scene), Err(RendererError::ContractViolation));
    assert!(r.draw_calls().is_empty());
    assert_eq!(r.color_palette(), &vec![0u32; 256]);
}

#[test]
fn upload_rejects_malformed_matrices() {
    let mut r = renderer();
    let mut a = object("a", [2, 2, 2]);
    a.model_matrix.push(0);
    let scene = Scene { palette: vec![], objects: vec![a] };
    assert_eq!(r.upload_scene(&scene), Err(RendererError::ContractViolation));
    let mut b = object("b", [2, 2, 2]);
    b.inv_model_matrix.clear();
    let scene = Scene { palette: vec![], objects: vec![b] };
    assert_eq!(r.upload_scene(&scene), Err(RendererError::ContractViolation));
}

#[test]
fn first_fault_decides_the_error() {
    let mut short = object("s", [2, 2, 2]);
    short.voxels.clear();
    let objects = vec![object("a", [1, 1, 1]), object("b", [3, 0, 3]), short.clone()];
    assert_eq!(plan_draw_calls(&objects, 2048), Err(RendererError::Upload(1)));
    let objects = vec![short, object("b", [3, 0, 3])];
    assert_eq!(plan_draw_calls(&objects, 2048), Err(RendererError::ContractViolation));
    let mut both = object("c", [0, 1, 1]);
    both.voxels.push(1);
    assert_eq!(plan_draw_calls(&[both], 2048), Err(RendererError::ContractViolation));
    assert_eq!(plan_draw_calls(&[], 2048), Ok(vec![]));
}

#[test]
fn huge_dimensions_do_not_wrap() {
    let o = VoxelObject {
        id: "big".to_string(),
        dims: [u32::MAX, u32::MAX, u32::MAX],
        voxels: vec![],
        model_matrix: identity(),
        inv_model_matrix: identity(),
    };
    assert!(!o.is_well_formed());
    let wrap = VoxelObject { dims: [65536, 65536, 65536], ..o };
    assert!(!wrap.is_well_formed());
    assert_eq!(wrap.fault(3, 2048), Some(RendererError::ContractViolation));
}

#[test]
fn object_checks_and_uniform_block() {
    let o = object("a", [2, 3, 4]);
    assert_eq!(o.voxels.len(), 24);
    assert!(o.is_well_formed());
    assert!(o.is_creatable(4));
    assert!(!o.is_creatable(3));
    assert_eq!(o.fault(7, 3), Some(RendererError::Upload(7)));
    assert_eq!(o.fault(7, 4), None);
    assert_eq!(o.draw_call(5), Ok(expected_call(5, [2, 3, 4])));
    assert_eq!(block_bytes(&o.draw_call(0).unwrap().uniforms).len(), 128);
    let mut bad = o.clone();
    bad.model_matrix.pop();
    assert_eq!(bad.draw_call(0), Err(RendererError::ContractViolation));
}

#[test]
fn draw_call_keeps_model_then_inverse() {
    let mut o = object("a", [1, 1, 1]);
    o.model_matrix = (0..16).collect();
    o.inv_model_matrix = (100..116).collect();
    let mut r = renderer();
    r.upload_scene(&Scene { palette: vec![], objects: vec![o] }).unwrap();
    let expected: Vec<u32> = (0..16).chain(100..116).collect();
    assert_eq!(r.draw_calls()[0].uniforms, expected);
}

#[test]
fn draw_calls_name_their_objects() {
    let mut r = renderer();
    let scene = Scene {
        palette: vec![],
        objects: vec![object("a", [1, 2, 3]), object("b", [4, 5, 6]), object("c", [7, 8, 9])],
    };
    r.upload_scene(&scene).unwrap();
    for (i, call) in r.draw_calls().iter().enumerate() {
        assert_eq!(call.object, i);
        let o = &scene.objects[call.object];
        assert_eq!(
            o.voxels.len() as u32,
            call.bytes_per_row * call.rows_per_image * call.texture.depth_or_array_layers
        );
    }
}

#[test]
fn render_plans_both_passes() {
    let mut r = renderer();
    let scene = Scene {
        palette: vec![red()],
        objects: vec![object("a", [2, 2, 2]), object("b", [1, 1, 1])],
    };
    r.upload_scene(&scene).unwrap();
    let camera = [1.0f32.to_bits(), 2.0f32.to_bits(), 3.0f32.to_bits()];
    let light = [0.0f32.to_bits(), 1.0f32.to_bits(), 0.0f32.to_bits()];
    let ambient = 0.25f32.to_bits();
    let plan = r.render(&identity(), &camera, 4, &light, ambient).unwrap();
    let mut per_frame = identity();
    per_frame.extend_from_slice(&camera);
    per_frame.push(0);
    assert_eq!(plan.per_frame_uniforms, block_bytes(&per_frame));
    assert_eq!(plan.per_frame_uniforms.len(), 80);
    assert_eq!(plan.lighting_uniforms, block_bytes(&[light[0], light[1], light[2], ambient]));
    assert_eq!(plan.lighting_uniforms.len(), 16);
    assert_eq!(plan.geometry_pass, geometry_pass(2));
    assert_eq!(plan.composition_pass, composition_pass(PresentTarget::Lit));
}

#[test]
fn render_selects_composition_by_mode() {
    let r = renderer();
    let camera = [0u32; 3];
    let expected = [
        PresentTarget::Albedo,
        PresentTarget::Normal,
        PresentTarget::LinearDepth,
        PresentTarget::DepthBuffer,
        PresentTarget::Lit,
        PresentTarget::Albedo,
        PresentTarget::Albedo,
    ];
    for (mode, target) in expected.iter().enumerate() {
        let plan = r.render(&identity(), &camera, mode, &camera, 0).unwrap();
        assert_eq!(plan.composition_pass, composition_pass(*target));
    }
}

#[test]
fn render_rejects_malformed_lengths() {
    let r = renderer();
    let camera = [0u32; 3];
    let m = identity();
    assert_eq!(r.render(&m[..15], &camera, 0, &camera, 0), Err(RendererError::ContractViolation));
    assert_eq!(r.render(&m, &camera[..2], 0, &camera, 0), Err(RendererError::ContractViolation));
    assert_eq!(r.render(&m, &[0u32; 4], 0, &camera, 0), Err(RendererError::ContractViolation));
}

#[test]
fn render_rejects_a_malformed_light_direction() {
    let r = renderer();
    let camera = [0u32; 3];
    let m = identity();
    assert_eq!(r.render(&m, &camera, 0, &[], 7), Err(RendererError::ContractViolation));
    assert_eq!(r.render(&m, &camera, 4, &[1, 2], 7), Err(RendererError::ContractViolation));
    assert_eq!(r.render(&m, &camera, 0, &[1, 2, 3, 4], 7), Err(RendererError::ContractViolation));
    let plan = r.render(&m, &camera, 0, &[1, 2, 3], 7).unwrap();
    assert_eq!(plan.lighting_uniforms, block_bytes(&[1, 2, 3, 7]));
}

#[test]
fn gpu_info_describes_the_adapter() {
    let info = renderer().get_gpu_info();
    assert_eq!(info.name, "Test Adapter");
    assert_eq!(info.vendor_id, 0x10de);
    assert_eq!(info.device_id, 0x2204);
    assert_eq!(info.device_type, "DiscreteGpu");
    assert_eq!(info.driver_info, "545.29");
    assert_eq!(info.backend, "Vulkan");
}

#[test]
fn single_red_cube_end_to_end() {
    let mut r = renderer();
    let scene = Scene { palette: vec![red()], objects: vec![object("cube", [2, 2, 2])] };
    assert_eq!(scene.objects[0].voxels, vec![0u8; 8]);
    assert_eq!(r.upload_scene(&scene), Ok(()));
    assert_eq!(r.draw_calls().len(), 1);
    assert_eq!(r.color_palette()[0], 0xFF00_00FF);
    assert_eq!(&r.static_uniforms()[..4], &0xFF00_00FFu32.to_ne_bytes());
    let camera = [0.0f32.to_bits(), 0.0f32.to_bits(), 5.0f32.to_bits()];
    let light = [0.0f32.to_bits(), 1.0f32.to_bits(), 0.0f32.to_bits()];
    let plan = r.render(&identity(), &camera, 0, &light, 0.2f32.to_bits()).unwrap();
    assert_eq!(plan.geometry_pass.commands.len(), 7);
    assert_eq!(
        plan.geometry_pass.commands[5],
        Command::SetBindGroup { index: 2, group: BindGroup::PerDraw(0) }
    );
    assert_eq!(
        plan.geometry_pass.commands[6],
        Command::DrawIndexed { index_count: 36, instance_count: 1 }
    );
    assert_eq!(plan.composition_pass.color_attachments, vec![Attachment::SurfaceImage]);
    assert_eq!(
        plan.composition_pass.commands,
        vec![
            Command::SetPipeline(PipelineId::QuadFloat),
            Command::SetBindGroup {
                index: 0,
                group: BindGroup::Quad {
                    layout: BindGroupLayoutId::QuadFloat,
                    texture: TextureSource::Albedo,
                },
            },
            Command::Draw { vertex_count: 3, instance_count: 1 },
        ]
    );
}
