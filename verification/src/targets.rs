use vstd::prelude::*;
use crate::error::RendererError;

verus! {

/// The texel formats that the renderer creates or writes to.
#[derive(Clone, Copy, Debug, PartialEq, Eq, Structural)]
pub enum TextureFormat {
    /// Four 8-bit normalised channels: albedo and normal targets.
    Rgba8Unorm,
    /// One 16-bit unsigned integer channel: the linear depth target.
    R16Uint,
    /// One 8-bit unsigned integer channel: voxel volumes.
    R8Uint,
    /// 24 bits of depth and 8 of stencil.
    Depth24PlusStencil8,
    /// The format that the presentable surface was configured with.
    Surface,
}

/// The format holds unsigned integers, which a shader reads as integers
/// and not as floats.
pub open spec fn is_uint_format(format: TextureFormat) -> bool {
    format == TextureFormat::R16Uint || format == TextureFormat::R8Uint
}

#[derive(Clone, Copy, Debug, PartialEq, Eq, Structural)]
pub enum TextureDimension {
    D2,
    D3,
}

/// What a texture may be used for.
#[derive(Clone, Copy, Debug, PartialEq, Eq, Structural)]
pub struct TextureUsages {
    pub render_attachment: bool,
    pub texture_binding: bool,
    pub copy_dst: bool,
}

/// Everything that is needed to create one texture.
#[derive(Clone, Copy, Debug, PartialEq, Eq, Structural)]
pub struct TextureDescriptor {
    pub width: u32,
    pub height: u32,
    pub depth_or_array_layers: u32,
    pub mip_level_count: u32,
    pub sample_count: u32,
    pub dimension: TextureDimension,
    pub format: TextureFormat,
    pub usage: TextureUsages,
}

/// How the presentable surface is configured.
#[derive(Clone, Copy, Debug, PartialEq, Eq, Structural)]
pub struct SurfaceConfiguration {
    /// Position, in the list of formats that the surface supports, of the
    /// format in use.
    pub format_index: usize,
    pub width: u32,
    pub height: u32,
    /// Presentation waits for the display's refresh (first in, first out).
    pub vsync: bool,
    pub desired_maximum_frame_latency: u32,
    pub usage: TextureUsages,
}

/// The three G-buffer colour targets and the depth-stencil target.
#[derive(Clone, Copy, Debug, PartialEq, Eq, Structural)]
pub struct TargetSet {
    pub albedo: TextureDescriptor,
    pub normal: TextureDescriptor,
    pub linear_z: TextureDescriptor,
    pub depth: TextureDescriptor,
}

/// What is asked of the GPU when adapter and device are acquired.
#[derive(Clone, Copy, Debug, PartialEq, Eq, Structural)]
pub struct DeviceRequest {
    /// Prefer the adapter with the highest performance to the one that
    /// draws the least power.
    pub high_performance: bool,
    pub force_fallback_adapter: bool,
    /// The device must support 16-bit normalised texture formats.
    pub texture_format_16bit_norm: bool,
}

pub open spec fn spec_device_request() -> DeviceRequest {
    DeviceRequest {
        high_performance: true,
        force_fallback_adapter: false,
        texture_format_16bit_norm: true,
    }
}

pub fn device_request() -> (request: DeviceRequest)
    ensures
        request == spec_device_request(),
{
    DeviceRequest {
        high_performance: true,
        force_fallback_adapter: false,
        texture_format_16bit_norm: true,
    }
}

pub open spec fn spec_surface_configuration(width: u32, height: u32) -> SurfaceConfiguration {
    SurfaceConfiguration {
        format_index: 0,
        width,
        height,
        vsync: true,
        desired_maximum_frame_latency: 2,
        usage: TextureUsages { render_attachment: true, texture_binding: false, copy_dst: false },
    }
}

/// Configures the surface with the first of the `format_count` formats that
/// it supports, or fails where it supports none.
pub fn surface_configuration(format_count: usize, width: u32, height: u32) -> (res: Result<
    SurfaceConfiguration,
    RendererError,
>)
    ensures
        res is Ok <==> format_count > 0,
        res matches Ok(config) ==> config == spec_surface_configuration(width, height),
        res matches Err(e) ==> e == RendererError::Acquisition,
{
    if format_count == 0 {
        return Err(RendererError::Acquisition);
    }
    Ok(
        SurfaceConfiguration {
            format_index: 0,
            width,
            height,
            vsync: true,
            desired_maximum_frame_latency: 2,
            usage: TextureUsages {
                render_attachment: true,
                texture_binding: false,
                copy_dst: false,
            },
        },
    )
}

/// A single-sampled 2-D colour target without mip levels that a pass can
/// render to and a later pass can sample.
pub open spec fn spec_render_texture(
    width: u32,
    height: u32,
    format: TextureFormat,
) -> TextureDescriptor {
    TextureDescriptor {
        width,
        height,
        depth_or_array_layers: 1,
        mip_level_count: 1,
        sample_count: 1,
        dimension: TextureDimension::D2,
        format,
        usage: TextureUsages { render_attachment: true, texture_binding: true, copy_dst: false },
    }
}

pub fn create_render_texture_view(width: u32, height: u32, format: TextureFormat) -> (desc:
    TextureDescriptor)
    ensures
        desc == spec_render_texture(width, height, format),
{
    TextureDescriptor {
        width,
        height,
        depth_or_array_layers: 1,
        mip_level_count: 1,
        sample_count: 1,
        dimension: TextureDimension::D2,
        format,
        usage: TextureUsages { render_attachment: true, texture_binding: true, copy_dst: false },
    }
}

/// The depth-stencil target of a surface: as large as the surface, and
/// usable as a render attachment only.
pub open spec fn spec_depth_texture(config: SurfaceConfiguration) -> TextureDescriptor {
    TextureDescriptor {
        width: config.width,
        height: config.height,
        depth_or_array_layers: 1,
        mip_level_count: 1,
        sample_count: 1,
        dimension: TextureDimension::D2,
        format: TextureFormat::Depth24PlusStencil8,
        usage: TextureUsages { render_attachment: true, texture_binding: false, copy_dst: false },
    }
}

pub fn create_depth_texture(config: &SurfaceConfiguration) -> (desc: TextureDescriptor)
    ensures
        desc == spec_depth_texture(*config),
{
    TextureDescriptor {
        width: config.width,
        height: config.height,
        depth_or_array_layers: 1,
        mip_level_count: 1,
        sample_count: 1,
        dimension: TextureDimension::D2,
        format: TextureFormat::Depth24PlusStencil8,
        usage: TextureUsages { render_attachment: true, texture_binding: false, copy_dst: false },
    }
}

/// The targets that belong to a surface configuration.
pub open spec fn spec_target_set(config: SurfaceConfiguration) -> TargetSet {
    TargetSet {
        albedo: spec_render_texture(config.width, config.height, TextureFormat::Rgba8Unorm),
        normal: spec_render_texture(config.width, config.height, TextureFormat::Rgba8Unorm),
        linear_z: spec_render_texture(config.width, config.height, TextureFormat::R16Uint),
        depth: spec_depth_texture(config),
    }
}

pub fn create_target_set(config: &SurfaceConfiguration) -> (targets: TargetSet)
    ensures
        targets == spec_target_set(*config),
{
    TargetSet {
        albedo: create_render_texture_view(config.width, config.height, TextureFormat::Rgba8Unorm),
        normal: create_render_texture_view(config.width, config.height, TextureFormat::Rgba8Unorm),
        linear_z: create_render_texture_view(config.width, config.height, TextureFormat::R16Uint),
        depth: create_depth_texture(config),
    }
}

/// The 3-D texture that holds one object's voxel identifiers: one byte per
/// voxel, written by copy and read by the geometry pass.
pub open spec fn spec_voxel_texture(nx: u32, ny: u32, nz: u32) -> TextureDescriptor {
    TextureDescriptor {
        width: nx,
        height: ny,
        depth_or_array_layers: nz,
        mip_level_count: 1,
        sample_count: 1,
        dimension: TextureDimension::D3,
        format: TextureFormat::R8Uint,
        usage: TextureUsages { render_attachment: false, texture_binding: true, copy_dst: true },
    }
}

pub fn voxel_texture(nx: u32, ny: u32, nz: u32) -> (desc: TextureDescriptor)
    ensures
        desc == spec_voxel_texture(nx, ny, nz),
{
    TextureDescriptor {
        width: nx,
        height: ny,
        depth_or_array_layers: nz,
        mip_level_count: 1,
        sample_count: 1,
        dimension: TextureDimension::D3,
        format: TextureFormat::R8Uint,
        usage: TextureUsages { render_attachment: false, texture_binding: true, copy_dst: true },
    }
}

} // verus!
