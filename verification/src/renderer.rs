use vstd::prelude::*;
use crate::error::RendererError;
use crate::frame::{
    PresentTarget, RenderPass, composition_pass, geometry_pass, is_composition_pass,
    is_geometry_pass, spec_present_target,
};
use crate::scene::{
    DrawCallData, DrawCallView, Scene, VoxelObject, all_uploadable, draw_call_views,
    is_first_fault, plan_draw_calls, spec_draw_calls,
};
use crate::targets::{
    SurfaceConfiguration, TargetSet, create_target_set, spec_surface_configuration,
    spec_target_set, surface_configuration,
};
use crate::uniforms::{
    PALETTE_SIZE, is_memory_image, lighting_words, pack_palette, per_frame_words,
    spec_lighting_words, spec_pack_palette, spec_per_frame_words, block_bytes,
};

verus! {

/// What the GPU adapter reports of itself.
#[derive(Clone, Debug, PartialEq, Eq)]
pub struct AdapterInfo {
    pub name: String,
    pub vendor: u32,
    pub device: u32,
    pub device_type: String,
    pub driver_info: String,
    pub backend: String,
}

/// The adapter's description as it is handed to the host.
#[derive(Clone, Debug, PartialEq, Eq)]
pub struct SerializableAdapterInfo {
    pub name: String,
    pub vendor_id: u32,
    pub device_id: u32,
    pub device_type: String,
    pub driver_info: String,
    pub backend: String,
}

/// What one frame writes and records. The steps of a frame say in which
/// order.
#[derive(Clone, Debug, PartialEq, Eq)]
pub struct FramePlan {
    pub per_frame_uniforms: Vec<u8>,
    pub lighting_uniforms: Vec<u8>,
    pub geometry_pass: RenderPass,
    pub composition_pass: RenderPass,
}

/// The state of a renderer.
pub struct Renderer {
    adapter_info: AdapterInfo,
    surface_config: SurfaceConfiguration,
    targets: TargetSet,
    max_texture_dimension_3d: u32,
    color_palette: Vec<u32>,
    draw_call_array: Vec<DrawCallData>,
}

/// A renderer's state as plain values.
pub ghost struct RendererView {
    pub adapter_info: AdapterInfo,
    pub surface_config: SurfaceConfiguration,
    pub targets: TargetSet,
    pub max_texture_dimension_3d: u32,
    pub color_palette: Seq<u32>,
    pub draw_calls: Seq<DrawCallView>,
}

impl RendererView {
    /// The targets are those of the surface configuration, and the palette
    /// block is complete.
    pub open spec fn wf(self) -> bool {
        &&& self.targets == spec_target_set(self.surface_config)
        &&& self.color_palette.len() == PALETTE_SIZE
    }

    /// The state after the surface has been given a new size: the
    /// configuration has the new size, the targets are made anew for it,
    /// and the scene stays.
    pub open spec fn resized(self, width: u32, height: u32) -> RendererView {
        let surface_config = SurfaceConfiguration { width, height, ..self.surface_config };
        RendererView { surface_config, targets: spec_target_set(surface_config), ..self }
    }

    /// The state after a scene has replaced the one before.
    pub open spec fn uploaded(self, palette: Seq<crate::uniforms::Rgba>, objects: Seq<VoxelObject>)
        -> RendererView {
        RendererView {
            color_palette: spec_pack_palette(palette),
            draw_calls: spec_draw_calls(objects),
            ..self
        }
    }
}

impl View for Renderer {
    type V = RendererView;

    closed spec fn view(&self) -> RendererView {
        RendererView {
            adapter_info: self.adapter_info,
            surface_config: self.surface_config,
            targets: self.targets,
            max_texture_dimension_3d: self.max_texture_dimension_3d,
            color_palette: self.color_palette@,
            draw_calls: draw_call_views(self.draw_call_array@),
        }
    }
}

impl Renderer {
    /// A renderer for a surface of the given size that supports
    /// `format_count` formats, on a device whose 3-D textures have at most
    /// `max_texture_dimension_3d` texels a side. It starts with an all-zero
    /// palette and nothing to draw.
    pub fn new(
        adapter_info: AdapterInfo,
        format_count: usize,
        width: u32,
        height: u32,
        max_texture_dimension_3d: u32,
    ) -> (res: Result<Renderer, RendererError>)
        ensures
            res is Ok <==> format_count > 0,
            res matches Err(e) ==> e == RendererError::Acquisition,
            res matches Ok(renderer) ==> {
                &&& renderer@.wf()
                &&& renderer@.adapter_info == adapter_info
                &&& renderer@.surface_config == spec_surface_configuration(width, height)
                &&& renderer@.max_texture_dimension_3d == max_texture_dimension_3d
                &&& renderer@.color_palette == Seq::new(PALETTE_SIZE as nat, |i: int| 0u32)
                &&& renderer@.draw_calls == Seq::<DrawCallView>::empty()
            },
    {
        let surface_config = match surface_configuration(format_count, width, height) {
            Ok(config) => config,
            Err(e) => {
                return Err(e);
            },
        };
        let targets = create_target_set(&surface_config);
        let no_colors: Vec<crate::uniforms::Rgba> = Vec::new();
        let color_palette = pack_palette(no_colors.as_slice());
        let draw_call_array: Vec<DrawCallData> = Vec::new();
        assert(color_palette@ =~= Seq::new(PALETTE_SIZE as nat, |i: int| 0u32));
        assert(draw_call_views(draw_call_array@) =~= Seq::<DrawCallView>::empty());
        Ok(
            Renderer {
                adapter_info,
                surface_config,
                targets,
                max_texture_dimension_3d,
                color_palette,
                draw_call_array,
            },
        )
    }

    /// Gives the surface a new size and makes the depth target and the
    /// three G-buffer targets anew for it.
    pub fn resize(&mut self, width: u32, height: u32) -> (res: Result<(), RendererError>)
        ensures
            res is Ok,
            final(self)@ == old(self)@.resized(width, height),
    {
        self.surface_config.width = width;
        self.surface_config.height = height;
        self.targets = create_target_set(&self.surface_config);
        Ok(())
    }

    /// Plans one frame. The matrix, the position and the light are float bit
    /// patterns. An input of the wrong length is rejected, none is cut,
    /// filled up or replaced.
    pub fn render(
        &self,
        vp_matrix: &[u32],
        view_position: &[u32],
        present_target: usize,
        light_dir: &[u32],
        ambient: u32,
    ) -> (res: Result<FramePlan, RendererError>)
        ensures
            res is Ok <==> vp_matrix@.len() == 16 && view_position@.len() == 3 && light_dir@.len()
                == 3,
            res matches Err(e) ==> e == RendererError::ContractViolation,
            res matches Ok(plan) ==> {
                &&& is_memory_image(
                    spec_per_frame_words(vp_matrix@, view_position@),
                    plan.per_frame_uniforms@,
                )
                &&& is_memory_image(
                    spec_lighting_words(light_dir@, ambient),
                    plan.lighting_uniforms@,
                )
                &&& plan.per_frame_uniforms@.len() == 80
                &&& plan.lighting_uniforms@.len() == 16
                &&& is_geometry_pass(plan.geometry_pass, self@.draw_calls.len())
                &&& is_composition_pass(plan.composition_pass, spec_present_target(present_target))
            },
    {
        let per_frame = match per_frame_words(vp_matrix, view_position) {
            Ok(words) => words,
            Err(e) => {
                return Err(e);
            },
        };
        let lighting = match lighting_words(light_dir, ambient) {
            Ok(words) => words,
            Err(e) => {
                return Err(e);
            },
        };
        Ok(
            FramePlan {
                per_frame_uniforms: block_bytes(per_frame.as_slice()),
                lighting_uniforms: block_bytes(lighting.as_slice()),
                geometry_pass: geometry_pass(self.draw_call_array.len()),
                composition_pass: composition_pass(PresentTarget::from_index(present_target)),
            },
        )
    }

    /// The adapter's description.
    pub fn get_gpu_info(&self) -> (info: SerializableAdapterInfo)
        ensures
            info.name == self@.adapter_info.name,
            info.vendor_id == self@.adapter_info.vendor,
            info.device_id == self@.adapter_info.device,
            info.device_type == self@.adapter_info.device_type,
            info.driver_info == self@.adapter_info.driver_info,
            info.backend == self@.adapter_info.backend,
    {
        SerializableAdapterInfo {
            name: self.adapter_info.name.clone(),
            vendor_id: self.adapter_info.vendor,
            device_id: self.adapter_info.device,
            device_type: self.adapter_info.device_type.clone(),
            driver_info: self.adapter_info.driver_info.clone(),
            backend: self.adapter_info.backend.clone(),
        }
    }

    /// Replaces the palette and all draw calls by those of the scene, or
    /// changes nothing: where an object has a fault, the first such fault is
    /// returned and the renderer stays as it was.
    pub fn upload_scene(&mut self, scene: &Scene) -> (res: Result<(), RendererError>)
        ensures
            res is Ok <==> all_uploadable(scene.objects@, old(self)@.max_texture_dimension_3d),
            res is Ok ==> final(self)@ == old(self)@.uploaded(scene.palette@, scene.objects@),
            res is Ok ==> final(self)@.draw_calls.len() == scene.objects@.len(),
            res matches Err(e) ==> {
                &&& *final(self) == *old(self)
                &&& exists|k: int|
                    is_first_fault(scene.objects@, old(self)@.max_texture_dimension_3d, k)
                        && scene.objects@[k].spec_fault(
                        k as usize,
                        old(self)@.max_texture_dimension_3d,
                    ) == Some(e)
            },
    {
        let draw_call_array = match plan_draw_calls(
            scene.objects.as_slice(),
            self.max_texture_dimension_3d,
        ) {
            Ok(calls) => calls,
            Err(e) => {
                return Err(e);
            },
        };
        self.color_palette = pack_palette(scene.palette.as_slice());
        self.draw_call_array = draw_call_array;
        Ok(())
    }

    /// The bytes of the static uniform block: the packed palette.
    pub fn static_uniforms(&self) -> (bytes: Vec<u8>)
        ensures
            is_memory_image(self@.color_palette, bytes@),
    {
        block_bytes(self.color_palette.as_slice())
    }

    pub fn surface_config(&self) -> (config: SurfaceConfiguration)
        ensures
            config == self@.surface_config,
    {
        self.surface_config
    }

    /// The longest side, in texels, of a 3-D texture on the device.
    pub fn max_texture_dimension_3d(&self) -> (limit: u32)
        ensures
            limit == self@.max_texture_dimension_3d,
    {
        self.max_texture_dimension_3d
    }

    pub fn targets(&self) -> (targets: TargetSet)
        ensures
            targets == self@.targets,
    {
        self.targets
    }

    pub fn color_palette(&self) -> (palette: &Vec<u32>)
        ensures
            palette@ == self@.color_palette,
    {
        &self.color_palette
    }

    pub fn draw_calls(&self) -> (calls: &Vec<DrawCallData>)
        ensures
            draw_call_views(calls@) == self@.draw_calls,
    {
        &self.draw_call_array
    }
}

/// Resizing and uploading keep a renderer's state well formed.
pub proof fn lemma_wf_is_kept(
    state: RendererView,
    width: u32,
    height: u32,
    palette: Seq<crate::uniforms::Rgba>,
    objects: Seq<VoxelObject>,
)
    requires
        state.wf(),
    ensures
        state.resized(width, height).wf(),
        state.uploaded(palette, objects).wf(),
{
}

/// Resizing twice to one size is resizing once: the state is the same, and
/// each target has that size and its own format.
pub proof fn lemma_resize_is_idempotent(state: RendererView, width: u32, height: u32)
    ensures
        state.resized(width, height).resized(width, height) == state.resized(width, height),
        state.resized(width, height).targets == spec_target_set(
            state.resized(width, height).surface_config,
        ),
        state.resized(width, height).targets.albedo.width == width,
        state.resized(width, height).targets.albedo.height == height,
        state.resized(width, height).targets.normal.width == width,
        state.resized(width, height).targets.normal.height == height,
        state.resized(width, height).targets.linear_z.width == width,
        state.resized(width, height).targets.linear_z.height == height,
        state.resized(width, height).targets.depth.width == width,
        state.resized(width, height).targets.depth.height == height,
{
}

/// After a successful upload the renderer holds one draw call for each
/// object of the scene, in the order of the objects.
pub proof fn lemma_upload_keeps_order(
    state: RendererView,
    palette: Seq<crate::uniforms::Rgba>,
    objects: Seq<VoxelObject>,
    i: int,
)
    requires
        0 <= i < objects.len(),
        objects.len() <= usize::MAX,
    ensures
        state.uploaded(palette, objects).draw_calls.len() == objects.len(),
        state.uploaded(palette, objects).draw_calls[i] == objects[i].spec_draw_call(i as usize),
        state.uploaded(palette, objects).draw_calls[i].object == i,
{
}

/// The palette block after an upload: the packed colour at each position
/// that the palette has, and zero at every other position up to 256.
pub proof fn lemma_uploaded_palette(
    state: RendererView,
    palette: Seq<crate::uniforms::Rgba>,
    objects: Seq<VoxelObject>,
    i: int,
)
    requires
        0 <= i < PALETTE_SIZE,
    ensures
        state.uploaded(palette, objects).color_palette.len() == PALETTE_SIZE,
        i < palette.len() ==> state.uploaded(palette, objects).color_palette[i]
            == crate::uniforms::spec_pack_rgba(palette[i]),
        i >= palette.len() ==> state.uploaded(palette, objects).color_palette[i] == 0,
{
}

} // verus!
