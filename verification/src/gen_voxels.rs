//! The voxel generation shaders: the byte sizes of their images and the stages of their
//! render node, which fills the voxel chunk once and then renders one layer of it per
//! frame.
use vstd::prelude::*;
use crate::shader::slib::{ShaderStage, PipelineState, stage_rank, stage_ranks, lemma_ranks_monotone};

verus! {

/// Side length of the voxel chunk, in voxels.
pub const CHUNK_SIZE: u32 = 100;

/// Bytes of one layer of the chunk, `CHUNK_SIZE^2` texels, given the texel size of the
/// image format (none for formats without a copy block size, which gives no bytes).
pub open spec fn layer_bytes(block_size: Option<u32>) -> int {
    CHUNK_SIZE * CHUNK_SIZE * match block_size {
        Some(b) => b as int,
        None => 0,
    }
}

/// Bytes of the two-dimensional slice image.
pub fn slice_image_len(block_size: Option<u32>) -> (len: usize)
    requires
        layer_bytes(block_size) * CHUNK_SIZE <= usize::MAX,
    ensures
        len == layer_bytes(block_size),
{
    let block = match block_size {
        Some(b) => b as usize,
        None => 0,
    };
    assert(CHUNK_SIZE * CHUNK_SIZE * block <= CHUNK_SIZE * CHUNK_SIZE * block * CHUNK_SIZE)
        by (nonlinear_arith)
        requires
            0 <= block,
    ;
    CHUNK_SIZE as usize * CHUNK_SIZE as usize * block
}

/// Bytes of the three-dimensional voxel image: `CHUNK_SIZE` layers.
pub fn voxel_image_len(block_size: Option<u32>) -> (len: usize)
    requires
        layer_bytes(block_size) * CHUNK_SIZE <= usize::MAX,
    ensures
        len == layer_bytes(block_size) * CHUNK_SIZE,
{
    slice_image_len(block_size) * CHUNK_SIZE as usize
}

/// Which pipeline a frame of the voxel node runs, with its workgroup counts.
#[derive(Clone, Copy, Debug, PartialEq, Eq, Structural)]
pub enum VoxelPass {
    /// Fill the whole chunk with the sphere.
    Sphere(u32, u32, u32),
    /// Copy one layer of the chunk into the slice image.
    Slice(u32, u32, u32),
}

/// The stage the voxel node moves to, given the states of the sphere and slice pipelines:
/// from loading to startup once the sphere pipeline is ready, from startup to update once
/// the slice pipeline is.
pub open spec fn voxel_next_stage(stage: ShaderStage, sphere: PipelineState, slice: PipelineState) -> ShaderStage {
    match stage {
        ShaderStage::Loading => if sphere == PipelineState::Ready {
            ShaderStage::Startup
        } else {
            ShaderStage::Loading
        },
        ShaderStage::Startup => if slice == PipelineState::Ready {
            ShaderStage::Update
        } else {
            ShaderStage::Startup
        },
        ShaderStage::Update => ShaderStage::Update,
    }
}

/// Law: each stage of the voxel node waits on one pipeline and on no other: loading on
/// the sphere pipeline, startup on the slice pipeline. A stage moves on exactly when its
/// own pipeline is ready, whatever the state of the other, and the update stage never
/// moves.
pub proof fn lemma_voxel_waits_on_its_pipeline(
    sphere: PipelineState,
    slice: PipelineState,
    other_sphere: PipelineState,
    other_slice: PipelineState,
)
    ensures
        voxel_next_stage(ShaderStage::Loading, sphere, slice) == voxel_next_stage(
            ShaderStage::Loading,
            sphere,
            other_slice,
        ),
        (voxel_next_stage(ShaderStage::Loading, sphere, slice) == ShaderStage::Startup) <==> sphere
            == PipelineState::Ready,
        voxel_next_stage(ShaderStage::Startup, sphere, slice) == voxel_next_stage(
            ShaderStage::Startup,
            other_sphere,
            slice,
        ),
        (voxel_next_stage(ShaderStage::Startup, sphere, slice) == ShaderStage::Update) <==> slice
            == PipelineState::Ready,
        voxel_next_stage(ShaderStage::Update, sphere, slice) == ShaderStage::Update,
{
}

/// Whether `stages` is what the voxel node goes through when its updates are fed the
/// sphere and slice pipeline states `inputs`, one pair per update.
pub open spec fn is_voxel_run(stages: Seq<ShaderStage>, inputs: Seq<(PipelineState, PipelineState)>) -> bool {
    &&& stages.len() == inputs.len() + 1
    &&& forall|k: int|
        0 <= k < inputs.len() ==> stages[k + 1] == voxel_next_stage(
            stages[k],
            (#[trigger] inputs[k]).0,
            inputs[k].1,
        )
}

/// Law: over any run of updates of the voxel node, whatever the pipeline states, the stage
/// never moves back, moves on by at most one stage per update, and once in the update
/// stage stays there.
pub proof fn lemma_voxel_run(stages: Seq<ShaderStage>, inputs: Seq<(PipelineState, PipelineState)>)
    requires
        is_voxel_run(stages, inputs),
    ensures
        forall|i: int, j: int|
            #![trigger stages[i], stages[j]]
            0 <= i <= j < stages.len() ==> stage_rank(stages[i]) <= stage_rank(stages[j]),
        forall|k: int|
            0 <= k < inputs.len() ==> stage_rank(stages[k + 1]) <= stage_rank(#[trigger] stages[k]) + 1,
        forall|i: int, j: int|
            #![trigger stages[i], stages[j]]
            0 <= i <= j < stages.len() && stages[i] == ShaderStage::Update ==> stages[j]
                == ShaderStage::Update,
{
    let ranks = stage_ranks(stages);
    assert forall|i: int, j: int| #![trigger ranks[i], ranks[j]] 0 <= i && j == i + 1 && j < ranks.len()
        implies ranks[i] <= ranks[j] <= ranks[i] + 1 by {
        assert(stages[j] == voxel_next_stage(stages[i], inputs[i].0, inputs[i].1));
    }
    lemma_ranks_monotone(ranks);
    assert forall|i: int, j: int| #![trigger stages[i], stages[j]] 0 <= i <= j < stages.len() implies stage_rank(
        stages[i],
    ) <= stage_rank(stages[j]) by {
        assert(ranks[i] <= ranks[j]);
    }
    assert forall|k: int| 0 <= k < inputs.len() implies stage_rank(stages[k + 1]) <= stage_rank(
        #[trigger] stages[k],
    ) + 1 by {
        assert(ranks[k] <= ranks[k + 1] <= ranks[k] + 1);
    }
}

/// The voxel node: its stage.
pub struct ComputeNode {
    pub stage: ShaderStage,
}

impl ComputeNode {
    /// A node that starts out loading.
    pub fn default() -> (node: Self)
        ensures
            node.stage == ShaderStage::Loading,
    {
        ComputeNode { stage: ShaderStage::Loading }
    }

    /// Advances the stage: from loading to startup once the sphere pipeline is ready, from
    /// startup to update once the slice pipeline is. A failed sphere pipeline while loading
    /// is fatal.
    pub fn update(&mut self, sphere: PipelineState, slice: PipelineState)
        requires
            old(self).stage == ShaderStage::Loading ==> sphere != PipelineState::Failed,
        ensures
            final(self).stage == voxel_next_stage(old(self).stage, sphere, slice),
            stage_rank(final(self).stage) == stage_rank(old(self).stage) || stage_rank(
                final(self).stage,
            ) == stage_rank(old(self).stage) + 1,
    {
        match self.stage {
            ShaderStage::Loading => {
                if sphere == PipelineState::Ready {
                    self.stage = ShaderStage::Startup;
                }
            },
            ShaderStage::Startup => {
                if slice == PipelineState::Ready {
                    self.stage = ShaderStage::Update;
                }
            },
            ShaderStage::Update => {},
        }
    }

    /// What a frame runs: nothing while loading, the sphere over the whole chunk at
    /// startup, then one layer per update.
    pub fn pass(&self) -> (pass: Option<VoxelPass>)
        ensures
            self.stage == ShaderStage::Loading ==> pass is None,
            self.stage == ShaderStage::Startup ==> pass == Some(
                VoxelPass::Sphere(CHUNK_SIZE, CHUNK_SIZE, CHUNK_SIZE),
            ),
            self.stage == ShaderStage::Update ==> pass == Some(
                VoxelPass::Slice(CHUNK_SIZE, CHUNK_SIZE, 1),
            ),
    {
        match self.stage {
            ShaderStage::Loading => None,
            ShaderStage::Startup => Some(VoxelPass::Sphere(CHUNK_SIZE, CHUNK_SIZE, CHUNK_SIZE)),
            ShaderStage::Update => Some(VoxelPass::Slice(CHUNK_SIZE, CHUNK_SIZE, 1)),
        }
    }
}

} // verus!
