use vstd::prelude::*;
use crate::error::RendererError;
use crate::targets::{TextureDescriptor, spec_voxel_texture, voxel_texture};
use crate::uniforms::{Rgba, per_draw_words, spec_per_draw_words};

verus! {

/// One voxel grid with its placement. The matrices hold float bit patterns.
#[derive(Clone, Debug, PartialEq, Eq)]
pub struct VoxelObject {
    pub id: String,
    /// Grid size along x, y and z.
    pub dims: [u32; 3],
    /// One palette index per voxel: x runs fastest, then y, then z.
    pub voxels: Vec<u8>,
    pub model_matrix: Vec<u32>,
    pub inv_model_matrix: Vec<u32>,
}

/// A palette and the objects that are drawn with it.
#[derive(Clone, Debug, PartialEq, Eq)]
pub struct Scene {
    pub palette: Vec<Rgba>,
    pub objects: Vec<VoxelObject>,
}

/// What the renderer keeps of one uploaded object: which object of the
/// scene it is, its voxel texture, how the voxel bytes are laid out in the
/// copy that fills it, and the words of its per-draw uniform block.
#[derive(Clone, Debug, PartialEq, Eq)]
pub struct DrawCallData {
    /// Position in the scene of the object whose voxels fill the texture.
    pub object: usize,
    pub texture: TextureDescriptor,
    pub bytes_per_row: u32,
    pub rows_per_image: u32,
    pub uniforms: Vec<u32>,
}

/// A draw call as plain values.
pub ghost struct DrawCallView {
    pub object: usize,
    pub texture: TextureDescriptor,
    pub bytes_per_row: u32,
    pub rows_per_image: u32,
    pub uniforms: Seq<u32>,
}

impl View for DrawCallData {
    type V = DrawCallView;

    open spec fn view(&self) -> DrawCallView {
        DrawCallView {
            object: self.object,
            texture: self.texture,
            bytes_per_row: self.bytes_per_row,
            rows_per_image: self.rows_per_image,
            uniforms: self.uniforms@,
        }
    }
}

/// A sequence of draw calls as plain values.
pub open spec fn draw_call_views(calls: Seq<DrawCallData>) -> Seq<DrawCallView> {
    Seq::new(calls.len(), |i: int| calls[i]@)
}

impl VoxelObject {
    /// Number of voxels that the dimensions declare.
    pub open spec fn spec_voxel_count(&self) -> int {
        self.dims@[0] * self.dims@[1] * self.dims@[2]
    }

    /// The object keeps its side of the contract: one byte per declared
    /// voxel and sixteen words per matrix.
    pub open spec fn spec_is_well_formed(&self) -> bool {
        &&& self.voxels@.len() == self.spec_voxel_count()
        &&& self.model_matrix@.len() == 16
        &&& self.inv_model_matrix@.len() == 16
    }

    /// A 3-D texture of the object's size can be created: no side is empty
    /// and none is longer than the device allows.
    pub open spec fn spec_is_creatable(&self, max_dimension: u32) -> bool {
        forall|k: int| 0 <= k < 3 ==> 0 < #[trigger] self.dims@[k] <= max_dimension
    }

    /// Why the object at position `index` cannot be uploaded, if anything.
    pub open spec fn spec_fault(&self, index: usize, max_dimension: u32) -> Option<RendererError> {
        if !self.spec_is_well_formed() {
            Some(RendererError::ContractViolation)
        } else if !self.spec_is_creatable(max_dimension) {
            Some(RendererError::Upload(index))
        } else {
            None
        }
    }

    /// The draw call of the object at position `index`: a texture of the
    /// grid's size, filled from rows of `nx` bytes, `ny` rows to the image,
    /// and a uniform block of the model matrix and then its inverse.
    pub open spec fn spec_draw_call(&self, index: usize) -> DrawCallView {
        DrawCallView {
            object: index,
            texture: spec_voxel_texture(self.dims@[0], self.dims@[1], self.dims@[2]),
            bytes_per_row: self.dims@[0],
            rows_per_image: self.dims@[1],
            uniforms: spec_per_draw_words(self.model_matrix@, self.inv_model_matrix@),
        }
    }

    pub fn is_well_formed(&self) -> (ok: bool)
        ensures
            ok == self.spec_is_well_formed(),
    {
        let nx: u128 = self.dims[0] as u128;
        let ny: u128 = self.dims[1] as u128;
        let nz: u128 = self.dims[2] as u128;
        assert(nx * ny <= 0xffff_ffff * 0xffff_ffff) by (nonlinear_arith)
            requires
                nx <= 0xffff_ffff,
                ny <= 0xffff_ffff,
        ;
        let layer: u128 = nx * ny;
        assert(layer * nz <= 0xffff_ffff * 0xffff_ffff * 0xffff_ffff) by (nonlinear_arith)
            requires
                layer <= 0xffff_ffff * 0xffff_ffff,
                nz <= 0xffff_ffff,
        ;
        let count: u128 = layer * nz;
        self.voxels.len() as u128 == count && self.model_matrix.len() == 16
            && self.inv_model_matrix.len() == 16
    }

    pub fn is_creatable(&self, max_dimension: u32) -> (ok: bool)
        ensures
            ok == self.spec_is_creatable(max_dimension),
    {
        let ok = 0 < self.dims[0] && self.dims[0] <= max_dimension && 0 < self.dims[1]
            && self.dims[1] <= max_dimension && 0 < self.dims[2] && self.dims[2] <= max_dimension;
        proof {
            if ok {
                assert forall|k: int| 0 <= k < 3 implies 0 < #[trigger] self.dims@[k]
                    <= max_dimension by {
                    assert(k == 0 || k == 1 || k == 2);
                }
            } else {
                assert(0 < self.dims@[0] <= max_dimension || !self.spec_is_creatable(max_dimension));
                assert(0 < self.dims@[1] <= max_dimension || !self.spec_is_creatable(max_dimension));
                assert(0 < self.dims@[2] <= max_dimension || !self.spec_is_creatable(max_dimension));
            }
        }
        ok
    }

    pub fn fault(&self, index: usize, max_dimension: u32) -> (fault: Option<RendererError>)
        ensures
            fault == self.spec_fault(index, max_dimension),
    {
        if !self.is_well_formed() {
            Some(RendererError::ContractViolation)
        } else if !self.is_creatable(max_dimension) {
            Some(RendererError::Upload(index))
        } else {
            None
        }
    }

    /// The draw call of the object, which stands at position `index` of its
    /// scene, where its matrices have sixteen words each.
    pub fn draw_call(&self, index: usize) -> (res: Result<DrawCallData, RendererError>)
        ensures
            res is Ok <==> self.model_matrix@.len() == 16 && self.inv_model_matrix@.len() == 16,
            res matches Ok(call) ==> call@ == self.spec_draw_call(index),
            res matches Err(e) ==> e == RendererError::ContractViolation,
    {
        match per_draw_words(self.model_matrix.as_slice(), self.inv_model_matrix.as_slice()) {
            Ok(uniforms) => Ok(
                DrawCallData {
                    object: index,
                    texture: voxel_texture(self.dims[0], self.dims[1], self.dims[2]),
                    bytes_per_row: self.dims[0],
                    rows_per_image: self.dims[1],
                    uniforms,
                },
            ),
            Err(e) => Err(e),
        }
    }
}

/// The voxel bytes of a well-formed object fill its texture exactly: rows
/// of `bytes_per_row`, `rows_per_image` rows to each of the layers.
pub proof fn lemma_copy_fills_texture(object: VoxelObject, index: usize)
    requires
        object.spec_is_well_formed(),
    ensures
        object.voxels@.len() == object.spec_draw_call(index).bytes_per_row * object.spec_draw_call(
            index,
        ).rows_per_image * object.spec_draw_call(index).texture.depth_or_array_layers,
        object.spec_draw_call(index).bytes_per_row == object.spec_draw_call(index).texture.width,
        object.spec_draw_call(index).rows_per_image == object.spec_draw_call(
            index,
        ).texture.height,
{
}

/// The draw calls of a sequence of objects: one for each, in their order.
pub open spec fn spec_draw_calls(objects: Seq<VoxelObject>) -> Seq<DrawCallView> {
    Seq::new(objects.len(), |i: int| objects[i].spec_draw_call(i as usize))
}

/// No object of the sequence has a fault.
pub open spec fn all_uploadable(objects: Seq<VoxelObject>, max_dimension: u32) -> bool {
    forall|k: int|
        0 <= k < objects.len() ==> (#[trigger] objects[k]).spec_fault(k as usize, max_dimension)
            is None
}

/// The object at position `k` has a fault, and none before it has one.
pub open spec fn is_first_fault(objects: Seq<VoxelObject>, max_dimension: u32, k: int) -> bool {
    &&& 0 <= k < objects.len()
    &&& objects[k].spec_fault(k as usize, max_dimension) is Some
    &&& all_uploadable(objects.subrange(0, k), max_dimension)
}

/// Plans the draw calls of a sequence of objects, all or none: the result is
/// the fault of the first object that has one, where any has.
pub fn plan_draw_calls(objects: &[VoxelObject], max_dimension: u32) -> (res: Result<
    Vec<DrawCallData>,
    RendererError,
>)
    ensures
        res is Ok <==> all_uploadable(objects@, max_dimension),
        res matches Ok(calls) ==> draw_call_views(calls@) == spec_draw_calls(objects@),
        res matches Err(e) ==> exists|k: int|
            is_first_fault(objects@, max_dimension, k) && objects@[k].spec_fault(
                k as usize,
                max_dimension,
            ) == Some(e),
{
    let mut calls: Vec<DrawCallData> = Vec::with_capacity(objects.len());
    let mut i: usize = 0;
    while i < objects.len()
        invariant
            i <= objects@.len(),
            calls@.len() == i,
            draw_call_views(calls@) == spec_draw_calls(objects@.subrange(0, i as int)),
            all_uploadable(objects@.subrange(0, i as int), max_dimension),
        decreases objects@.len() - i,
    {
        match objects[i].fault(i, max_dimension) {
            Some(e) => {
                assert(is_first_fault(objects@, max_dimension, i as int));
                return Err(e);
            },
            None => {},
        }
        let ghost planned = calls@;
        match objects[i].draw_call(i) {
            Ok(call) => {
                calls.push(call);
            },
            Err(e) => {
                return Err(e);
            },
        }
        proof {
            let before = objects@.subrange(0, i as int);
            let after = objects@.subrange(0, i + 1);
            assert forall|k: int| 0 <= k < after.len() implies (#[trigger] after[k]).spec_fault(
                k as usize,
                max_dimension,
            ) is None by {
                if k < i {
                    assert(before[k] == after[k]);
                }
            }
            assert forall|k: int| 0 <= k < after.len() implies draw_call_views(calls@)[k]
                == spec_draw_calls(after)[k] by {
                if k < i {
                    assert(calls@[k] == planned[k]);
                    assert(draw_call_views(planned)[k] == spec_draw_calls(before)[k]);
                    assert(before[k] == after[k]);
                }
            }
            assert(draw_call_views(calls@) =~= spec_draw_calls(after));
        }
        i += 1;
    }
    assert(objects@.subrange(0, i as int) =~= objects@);
    Ok(calls)
}

} // verus!
