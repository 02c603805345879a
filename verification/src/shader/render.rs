//! The render node that chains the voxel shaders: it generates the voxels, then the mesh
//! vertices, then renders a slice per frame, and reports when it starts and when startup
//! is complete.
use vstd::prelude::*;
use crate::shader::slib::{PipelineState, steps_up_by_one, lemma_ranks_monotone, lemma_ranks_cross};
use crate::shader::CHUNK_SIZE;

verus! {

/// The stages of the chained shaders.
#[derive(Clone, Copy, Debug, PartialEq, Eq, Hash, Structural)]
pub enum ShaderStage {
    Loading,
    GenerateVoxels,
    GenerateMeshVertices,
    Update,
}

/// What the node reports as it goes.
#[derive(Clone, Copy, Debug, PartialEq, Eq, Hash, Structural)]
pub enum ComputeShaderStage {
    Starting,
    StartupComplete,
}

/// Which pipeline a frame runs, with its workgroup counts.
#[derive(Clone, Copy, Debug, PartialEq, Eq, Structural)]
pub enum ChainPass {
    Sphere(u32, u32, u32),
    Vertices(u32, u32, u32),
    Slice(u32, u32, u32),
}

/// The rank of a stage: stages only ever move to the next rank.
pub open spec fn chain_rank(stage: ShaderStage) -> int {
    match stage {
        ShaderStage::Loading => 0,
        ShaderStage::GenerateVoxels => 1,
        ShaderStage::GenerateMeshVertices => 2,
        ShaderStage::Update => 3,
    }
}

/// One update of the chaining node, given the states of the sphere, vertex and slice
/// pipelines: the stage it moves to and what it reports. Loading moves on once the sphere
/// pipeline is ready, reporting the start; voxel generation moves on once the vertex
/// pipeline is ready; vertex generation moves on once the slice pipeline is ready,
/// reporting that startup is complete.
pub open spec fn chain_step(
    stage: ShaderStage,
    sphere: PipelineState,
    vertices: PipelineState,
    slice: PipelineState,
) -> (ShaderStage, Option<ComputeShaderStage>) {
    match stage {
        ShaderStage::Loading => if sphere == PipelineState::Ready {
            (ShaderStage::GenerateVoxels, Some(ComputeShaderStage::Starting))
        } else {
            (ShaderStage::Loading, None)
        },
        ShaderStage::GenerateVoxels => if vertices == PipelineState::Ready {
            (ShaderStage::GenerateMeshVertices, None)
        } else {
            (ShaderStage::GenerateVoxels, None)
        },
        ShaderStage::GenerateMeshVertices => if slice == PipelineState::Ready {
            (ShaderStage::Update, Some(ComputeShaderStage::StartupComplete))
        } else {
            (ShaderStage::GenerateMeshVertices, None)
        },
        ShaderStage::Update => (ShaderStage::Update, None),
    }
}

/// Law: each stage of the chaining node waits on one pipeline and on no other: loading on
/// the sphere pipeline, voxel generation on the vertex pipeline, vertex generation on the
/// slice pipeline. A stage moves on exactly when its own pipeline is ready, whatever the
/// states of the other two, and the update stage never moves or reports.
pub proof fn lemma_chain_waits_on_its_pipeline(
    sphere: PipelineState,
    vertices: PipelineState,
    slice: PipelineState,
    other_sphere: PipelineState,
    other_vertices: PipelineState,
    other_slice: PipelineState,
)
    ensures
        chain_step(ShaderStage::Loading, sphere, vertices, slice) == chain_step(
            ShaderStage::Loading,
            sphere,
            other_vertices,
            other_slice,
        ),
        (chain_step(ShaderStage::Loading, sphere, vertices, slice).0 == ShaderStage::GenerateVoxels)
            <==> sphere == PipelineState::Ready,
        chain_step(ShaderStage::GenerateVoxels, sphere, vertices, slice) == chain_step(
            ShaderStage::GenerateVoxels,
            other_sphere,
            vertices,
            other_slice,
        ),
        (chain_step(ShaderStage::GenerateVoxels, sphere, vertices, slice).0
            == ShaderStage::GenerateMeshVertices) <==> vertices == PipelineState::Ready,
        chain_step(ShaderStage::GenerateMeshVertices, sphere, vertices, slice) == chain_step(
            ShaderStage::GenerateMeshVertices,
            other_sphere,
            other_vertices,
            slice,
        ),
        (chain_step(ShaderStage::GenerateMeshVertices, sphere, vertices, slice).0
            == ShaderStage::Update) <==> slice == PipelineState::Ready,
        chain_step(ShaderStage::Update, sphere, vertices, slice) == (
            ShaderStage::Update,
            None::<ComputeShaderStage>,
        ),
{
}

/// Whether `stages` and `reports` are what the chaining node goes through and reports when
/// its updates are fed the sphere, vertex and slice pipeline states `inputs`, one triple
/// per update.
pub open spec fn is_chain_run(
    stages: Seq<ShaderStage>,
    reports: Seq<Option<ComputeShaderStage>>,
    inputs: Seq<(PipelineState, PipelineState, PipelineState)>,
) -> bool {
    &&& stages.len() == inputs.len() + 1
    &&& reports.len() == inputs.len()
    &&& forall|k: int|
        0 <= k < inputs.len() ==> (stages[k + 1], reports[k]) == chain_step(
            stages[k],
            (#[trigger] inputs[k]).0,
            inputs[k].1,
            inputs[k].2,
        )
}

/// The ranks of the stages of a run of the chaining node.
pub open spec fn chain_ranks(stages: Seq<ShaderStage>) -> Seq<int> {
    Seq::new(stages.len(), |k: int| chain_rank(stages[k]))
}

proof fn lemma_chain_step(
    stages: Seq<ShaderStage>,
    reports: Seq<Option<ComputeShaderStage>>,
    inputs: Seq<(PipelineState, PipelineState, PipelineState)>,
    k: int,
)
    requires
        is_chain_run(stages, reports, inputs),
        0 <= k < inputs.len(),
    ensures
        chain_rank(stages[k]) <= chain_rank(stages[k + 1]) <= chain_rank(stages[k]) + 1,
        reports[k] == Some(ComputeShaderStage::Starting) <==> (stages[k] == ShaderStage::Loading
            && stages[k + 1] == ShaderStage::GenerateVoxels),
        reports[k] == Some(ComputeShaderStage::StartupComplete) <==> (stages[k]
            == ShaderStage::GenerateMeshVertices && stages[k + 1] == ShaderStage::Update),
{
    assert((stages[k + 1], reports[k]) == chain_step(stages[k], inputs[k].0, inputs[k].1, inputs[k].2));
}

proof fn lemma_chain_ranks_step(
    stages: Seq<ShaderStage>,
    reports: Seq<Option<ComputeShaderStage>>,
    inputs: Seq<(PipelineState, PipelineState, PipelineState)>,
)
    requires
        is_chain_run(stages, reports, inputs),
    ensures
        steps_up_by_one(chain_ranks(stages)),
        forall|i: int, j: int|
            #![trigger chain_ranks(stages)[i], chain_ranks(stages)[j]]
            0 <= i <= j < stages.len() ==> chain_ranks(stages)[i] <= chain_ranks(stages)[j],
{
    let ranks = chain_ranks(stages);
    assert forall|i: int, j: int| #![trigger ranks[i], ranks[j]] 0 <= i && j == i + 1 && j < ranks.len()
        implies ranks[i] <= ranks[j] <= ranks[i] + 1 by {
        lemma_chain_step(stages, reports, inputs, i);
    }
    lemma_ranks_monotone(ranks);
}

/// Law: over any run of updates of the chaining node, whatever the pipeline states, the
/// stage never moves back, moves on by at most one stage per update, and once in the update
/// stage stays there.
pub proof fn lemma_chain_run(
    stages: Seq<ShaderStage>,
    reports: Seq<Option<ComputeShaderStage>>,
    inputs: Seq<(PipelineState, PipelineState, PipelineState)>,
)
    requires
        is_chain_run(stages, reports, inputs),
    ensures
        forall|i: int, j: int|
            #![trigger stages[i], stages[j]]
            0 <= i <= j < stages.len() ==> chain_rank(stages[i]) <= chain_rank(stages[j]),
        forall|k: int|
            0 <= k < inputs.len() ==> chain_rank(stages[k + 1]) <= chain_rank(#[trigger] stages[k]) + 1,
        forall|i: int, j: int|
            #![trigger stages[i], stages[j]]
            0 <= i <= j < stages.len() && stages[i] == ShaderStage::Update ==> stages[j]
                == ShaderStage::Update,
{
    let ranks = chain_ranks(stages);
    lemma_chain_ranks_step(stages, reports, inputs);
    assert forall|i: int, j: int| #![trigger stages[i], stages[j]] 0 <= i <= j < stages.len() implies chain_rank(
        stages[i],
    ) <= chain_rank(stages[j]) by {
        assert(ranks[i] <= ranks[j]);
    }
    assert forall|k: int| 0 <= k < inputs.len() implies chain_rank(stages[k + 1]) <= chain_rank(
        #[trigger] stages[k],
    ) + 1 by {
        lemma_chain_step(stages, reports, inputs, k);
    }
}

/// Law: over any run of updates of the chaining node, whatever the pipeline states, the
/// start is reported exactly on the step from loading to voxel generation, and the end of
/// startup exactly on the step from vertex generation to update. So each is reported at
/// most once, and the end of startup never before the start; in a run that begins loading,
/// every report of the end of startup follows a report of the start.
pub proof fn lemma_chain_reports(
    stages: Seq<ShaderStage>,
    reports: Seq<Option<ComputeShaderStage>>,
    inputs: Seq<(PipelineState, PipelineState, PipelineState)>,
)
    requires
        is_chain_run(stages, reports, inputs),
    ensures
        forall|k: int|
            0 <= k < reports.len() ==> (#[trigger] reports[k] == Some(ComputeShaderStage::Starting) <==> (
            stages[k] == ShaderStage::Loading && stages[k + 1] == ShaderStage::GenerateVoxels)),
        forall|k: int|
            0 <= k < reports.len() ==> (#[trigger] reports[k] == Some(
                ComputeShaderStage::StartupComplete,
            ) <==> (stages[k] == ShaderStage::GenerateMeshVertices && stages[k + 1]
                == ShaderStage::Update)),
        forall|i: int, j: int|
            #![trigger reports[i], reports[j]]
            0 <= i < reports.len() && 0 <= j < reports.len() && reports[i] == Some(
                ComputeShaderStage::Starting,
            ) && reports[j] == Some(ComputeShaderStage::Starting) ==> i == j,
        forall|i: int, j: int|
            #![trigger reports[i], reports[j]]
            0 <= i < reports.len() && 0 <= j < reports.len() && reports[i] == Some(
                ComputeShaderStage::StartupComplete,
            ) && reports[j] == Some(ComputeShaderStage::StartupComplete) ==> i == j,
        forall|i: int, j: int|
            #![trigger reports[i], reports[j]]
            0 <= i < reports.len() && 0 <= j < reports.len() && reports[i] == Some(
                ComputeShaderStage::Starting,
            ) && reports[j] == Some(ComputeShaderStage::StartupComplete) ==> i < j,
        stages.len() > 0 && stages[0] == ShaderStage::Loading ==> forall|j: int|
            0 <= j < reports.len() && #[trigger] reports[j] == Some(
                ComputeShaderStage::StartupComplete,
            ) ==> exists|i: int| 0 <= i < j && #[trigger] reports[i] == Some(ComputeShaderStage::Starting),
{
    let ranks = chain_ranks(stages);
    lemma_chain_ranks_step(stages, reports, inputs);
    assert forall|k: int| 0 <= k < reports.len() implies (#[trigger] reports[k] == Some(
        ComputeShaderStage::Starting,
    ) <==> (stages[k] == ShaderStage::Loading && stages[k + 1] == ShaderStage::GenerateVoxels)) && (
    reports[k] == Some(ComputeShaderStage::StartupComplete) <==> (stages[k]
        == ShaderStage::GenerateMeshVertices && stages[k + 1] == ShaderStage::Update)) by {
        lemma_chain_step(stages, reports, inputs, k);
    }
    assert forall|i: int, j: int|
        #![trigger reports[i], reports[j]]
        0 <= i < reports.len() && 0 <= j < reports.len() && reports[i] == Some(
            ComputeShaderStage::Starting,
        ) && reports[j] == Some(ComputeShaderStage::Starting) implies i == j by {
        lemma_chain_step(stages, reports, inputs, i);
        lemma_chain_step(stages, reports, inputs, j);
        if i < j {
            assert(ranks[i + 1] <= ranks[j]);
        } else if j < i {
            assert(ranks[j + 1] <= ranks[i]);
        }
    }
    assert forall|i: int, j: int|
        #![trigger reports[i], reports[j]]
        0 <= i < reports.len() && 0 <= j < reports.len() && reports[i] == Some(
            ComputeShaderStage::StartupComplete,
        ) && reports[j] == Some(ComputeShaderStage::StartupComplete) implies i == j by {
        lemma_chain_step(stages, reports, inputs, i);
        lemma_chain_step(stages, reports, inputs, j);
        if i < j {
            assert(ranks[i + 1] <= ranks[j]);
        } else if j < i {
            assert(ranks[j + 1] <= ranks[i]);
        }
    }
    assert forall|i: int, j: int|
        #![trigger reports[i], reports[j]]
        0 <= i < reports.len() && 0 <= j < reports.len() && reports[i] == Some(
            ComputeShaderStage::Starting,
        ) && reports[j] == Some(ComputeShaderStage::StartupComplete) implies i < j by {
        lemma_chain_step(stages, reports, inputs, i);
        lemma_chain_step(stages, reports, inputs, j);
        if j <= i {
            assert(ranks[j] <= ranks[i]);
        }
    }
    if stages.len() > 0 && stages[0] == ShaderStage::Loading {
        assert forall|j: int|
            0 <= j < reports.len() && #[trigger] reports[j] == Some(
                ComputeShaderStage::StartupComplete,
            ) implies exists|i: int| 0 <= i < j && #[trigger] reports[i] == Some(ComputeShaderStage::Starting) by {
            lemma_chain_step(stages, reports, inputs, j);
            assert(ranks[0] == 0 && ranks[j] == 2);
            lemma_ranks_cross(ranks, j, 0);
            let i = choose|i: int| 0 <= i < j && ranks[i] == 0 && #[trigger] ranks[i + 1] == 0 + 1;
            lemma_chain_step(stages, reports, inputs, i);
            assert(reports[i] == Some(ComputeShaderStage::Starting));
        }
    }
}

/// The chaining node: its stage.
pub struct ComputeNode {
    pub stage: ShaderStage,
}

impl ComputeNode {
    /// A node that starts out loading.
    pub fn default() -> (node: Self)
        ensures
            node.stage == ShaderStage::Loading,
    {
        ComputeNode { stage: ShaderStage::Loading }
    }

    /// Advances the stage given the states of the sphere, vertex and slice pipelines, and
    /// returns what to report. Loading moves on once the sphere pipeline is ready, reporting
    /// the start; voxel generation moves on once the vertex pipeline is ready; vertex
    /// generation moves on once the slice pipeline is ready, reporting that startup is
    /// complete. A failed sphere pipeline while loading, or a failed vertex pipeline while
    /// generating voxels, is fatal.
    pub fn update(&mut self, sphere: PipelineState, vertices: PipelineState, slice: PipelineState) -> (report: Option<ComputeShaderStage>)
        requires
            old(self).stage == ShaderStage::Loading ==> sphere != PipelineState::Failed,
            old(self).stage == ShaderStage::GenerateVoxels ==> vertices != PipelineState::Failed,
        ensures
            (final(self).stage, report) == chain_step(old(self).stage, sphere, vertices, slice),
            chain_rank(final(self).stage) == chain_rank(old(self).stage) || chain_rank(
                final(self).stage,
            ) == chain_rank(old(self).stage) + 1,
    {
        match self.stage {
            ShaderStage::Loading => {
                if sphere == PipelineState::Ready {
                    self.stage = ShaderStage::GenerateVoxels;
                    return Some(ComputeShaderStage::Starting);
                }
                None
            },
            ShaderStage::GenerateVoxels => {
                if vertices == PipelineState::Ready {
                    self.stage = ShaderStage::GenerateMeshVertices;
                }
                None
            },
            ShaderStage::GenerateMeshVertices => {
                if slice == PipelineState::Ready {
                    self.stage = ShaderStage::Update;
                    return Some(ComputeShaderStage::StartupComplete);
                }
                None
            },
            ShaderStage::Update => None,
        }
    }

    /// What a frame runs: nothing while loading, the sphere and then the vertices over the
    /// whole chunk, then one slice per update.
    pub fn pass(&self) -> (pass: Option<ChainPass>)
        ensures
            self.stage == ShaderStage::Loading ==> pass is None,
            self.stage == ShaderStage::GenerateVoxels ==> pass == Some(
                ChainPass::Sphere(CHUNK_SIZE, CHUNK_SIZE, CHUNK_SIZE),
            ),
            self.stage == ShaderStage::GenerateMeshVertices ==> pass == Some(
                ChainPass::Vertices(CHUNK_SIZE, CHUNK_SIZE, CHUNK_SIZE),
            ),
            self.stage == ShaderStage::Update ==> pass == Some(
                ChainPass::Slice(CHUNK_SIZE, CHUNK_SIZE, 1),
            ),
    {
        match self.stage {
            ShaderStage::Loading => None,
            ShaderStage::GenerateVoxels => Some(ChainPass::Sphere(CHUNK_SIZE, CHUNK_SIZE, CHUNK_SIZE)),
            ShaderStage::GenerateMeshVertices => Some(
                ChainPass::Vertices(CHUNK_SIZE, CHUNK_SIZE, CHUNK_SIZE),
            ),
            ShaderStage::Update => Some(ChainPass::Slice(CHUNK_SIZE, CHUNK_SIZE, 1)),
        }
    }
}

} // verus!
