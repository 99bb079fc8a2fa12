use voxellaneous_core::error::RendererError;
use voxellaneous_core::targets::{
    create_depth_texture, create_render_texture_view, create_target_set, device_request,
    surface_configuration, DeviceRequest,
    voxel_texture, SurfaceConfiguration, TextureDescriptor, TextureDimension, TextureFormat,
    TextureUsages,
};

fn config(width: u32, height: u32) -> SurfaceConfiguration {
    surface_configuration(1, width, height).unwrap()
}

#[test]
fn surface_uses_first_format_vsync_and_two_frames() {
    let c = surface_configuration(3, 800, 600).unwrap();
    assert_eq!(
        c,
        SurfaceConfiguration {
            format_index: 0,
            width: 800,
            height: 600,
            vsync: true,
            desired_maximum_frame_latency: 2,
            usage: TextureUsages { render_attachment: true, texture_binding: false, copy_dst: false },
        }
    );
}

#[test]
fn surface_without_formats_is_an_acquisition_error() {
    assert_eq!(surface_configuration(0, 800, 600), Err(RendererError::Acquisition));
}

#[test]
fn render_texture_is_attachment_and_binding() {
    let d = create_render_texture_view(640, 480, TextureFormat::R16Uint);
    assert_eq!(
        d,
        TextureDescriptor {
            width: 640,
            height: 480,
            depth_or_array_layers: 1,
            mip_level_count: 1,
            sample_count: 1,
            dimension: TextureDimension::D2,
            format: TextureFormat::R16Uint,
            usage: TextureUsages { render_attachment: true, texture_binding: true, copy_dst: false },
        }
    );
}

#[test]
fn depth_texture_is_attachment_only() {
    let d = create_depth_texture(&config(320, 200));
    assert_eq!(
        d,
        TextureDescriptor {
            width: 320,
            height: 200,
            depth_or_array_layers: 1,
            mip_level_count: 1,
            sample_count: 1,
            dimension: TextureDimension::D2,
            format: TextureFormat::Depth24PlusStencil8,
            usage: TextureUsages { render_attachment: true, texture_binding: false, copy_dst: false },
        }
    );
}

#[test]
fn target_set_has_g_buffer_formats() {
    let t = create_target_set(&config(1024, 768));
    assert_eq!(t.albedo, create_render_texture_view(1024, 768, TextureFormat::Rgba8Unorm));
    assert_eq!(t.normal, create_render_texture_view(1024, 768, TextureFormat::Rgba8Unorm));
    assert_eq!(t.linear_z, create_render_texture_view(1024, 768, TextureFormat::R16Uint));
    assert_eq!(t.depth, create_depth_texture(&config(1024, 768)));
}

#[test]
fn voxel_texture_is_a_byte_volume() {
    assert_eq!(
        voxel_texture(2, 3, 4),
        TextureDescriptor {
            width: 2,
            height: 3,
            depth_or_array_layers: 4,
            mip_level_count: 1,
            sample_count: 1,
            dimension: TextureDimension::D3,
            format: TextureFormat::R8Uint,
            usage: TextureUsages { render_attachment: false, texture_binding: true, copy_dst: true },
        }
    );
}

#[test]
fn device_request_prefers_performance_and_wide_formats() {
    assert_eq!(
        device_request(),
        DeviceRequest {
            high_performance: true,
            force_fallback_adapter: false,
            texture_format_16bit_norm: true,
        }
    );
}

#[test]
fn only_the_depth_target_cannot_be_sampled() {
    let t = create_target_set(&config(4, 4));
    for d in [t.albedo, t.normal, t.linear_z] {
        assert!(d.usage.render_attachment && d.usage.texture_binding && !d.usage.copy_dst);
    }
    assert!(t.depth.usage.render_attachment && !t.depth.usage.texture_binding);
}
