//! The compute shader of the template: its entry points, the dispatches made at startup
//! and on update, and the stage its render node is in.
use vstd::prelude::*;
use crate::shader::slib::{
    ShaderStage, PipelineState, all_ready, first_unready_failed, startup_ready, all_ok,
    stage_rank, stage_ranks, lemma_ranks_monotone,
};

verus! {

/// The shader's entry points.
#[derive(Clone, Copy, Debug, PartialEq, Eq, Hash, Structural)]
pub enum Entries {
    Main,
    Update,
}

/// One dispatch of an entry point, with its workgroup counts.
#[derive(Debug)]
pub struct ShaderDispatch {
    pub entry: Entries,
    pub workgroup: (u32, u32, u32),
}

impl Clone for ShaderDispatch {
    fn clone(&self) -> (c: Self)
        ensures
            c == *self,
    {
        ShaderDispatch { entry: self.entry, workgroup: self.workgroup }
    }
}

/// The dispatches made once at startup and on every update.
#[derive(Debug)]
pub struct ShaderDispatches {
    pub on_startup: Vec<ShaderDispatch>,
    pub on_update: Vec<ShaderDispatch>,
}

fn clone_dispatch_list(list: &Vec<ShaderDispatch>) -> (c: Vec<ShaderDispatch>)
    ensures
        c@ == list@,
{
    let mut c: Vec<ShaderDispatch> = Vec::new();
    let mut i: usize = 0;
    while i < list.len()
        invariant
            i <= list@.len(),
            c@ == list@.take(i as int),
        decreases list@.len() - i,
    {
        c.push(list[i].clone());
        assert(c@ =~= list@.take(i + 1));
        i = i + 1;
    }
    assert(list@.take(list@.len() as int) =~= list@);
    c
}

impl Clone for ShaderDispatches {
    fn clone(&self) -> (c: Self)
        ensures
            c.on_startup@ == self.on_startup@,
            c.on_update@ == self.on_update@,
    {
        ShaderDispatches {
            on_startup: clone_dispatch_list(&self.on_startup),
            on_update: clone_dispatch_list(&self.on_update),
        }
    }
}

impl ShaderDispatches {
    /// Whether no dispatch is ever made, in which case the shader plugin sets nothing up.
    pub fn runs_nothing(&self) -> (b: bool)
        ensures
            b == (self.on_startup@.len() == 0 && self.on_update@.len() == 0),
    {
        self.on_startup.len() == 0 && self.on_update.len() == 0
    }
}

/// The stage the template's node moves to: from loading to startup once the startup
/// pipelines are all ready, from startup to update once the update pipelines are.
pub open spec fn template_next_stage(
    stage: ShaderStage,
    startup_states: Seq<PipelineState>,
    update_states: Seq<PipelineState>,
) -> ShaderStage {
    match stage {
        ShaderStage::Loading => if all_ready(startup_states) {
            ShaderStage::Startup
        } else {
            ShaderStage::Loading
        },
        ShaderStage::Startup => if all_ready(update_states) {
            ShaderStage::Update
        } else {
            ShaderStage::Startup
        },
        ShaderStage::Update => ShaderStage::Update,
    }
}

/// Law: loading waits on the startup pipelines alone and moves on exactly when every one
/// of them is ready; startup waits on the update pipelines alone and moves on exactly when
/// every one of them is ready; the update stage never moves.
pub proof fn lemma_template_waits_on_its_pipelines(
    startup_states: Seq<PipelineState>,
    update_states: Seq<PipelineState>,
    other_startup: Seq<PipelineState>,
    other_update: Seq<PipelineState>,
)
    ensures
        template_next_stage(ShaderStage::Loading, startup_states, update_states)
            == template_next_stage(ShaderStage::Loading, startup_states, other_update),
        (template_next_stage(ShaderStage::Loading, startup_states, update_states)
            == ShaderStage::Startup) <==> forall|i: int|
            0 <= i < startup_states.len() ==> #[trigger] startup_states[i] == PipelineState::Ready,
        template_next_stage(ShaderStage::Startup, startup_states, update_states)
            == template_next_stage(ShaderStage::Startup, other_startup, update_states),
        (template_next_stage(ShaderStage::Startup, startup_states, update_states)
            == ShaderStage::Update) <==> forall|i: int|
            0 <= i < update_states.len() ==> #[trigger] update_states[i] == PipelineState::Ready,
        template_next_stage(ShaderStage::Update, startup_states, update_states) == ShaderStage::Update,
{
}

/// Whether `stages` is what the template's node goes through when its updates are fed the
/// startup and update pipeline states `inputs`, one pair of lists per update.
pub open spec fn is_template_run(
    stages: Seq<ShaderStage>,
    inputs: Seq<(Seq<PipelineState>, Seq<PipelineState>)>,
) -> bool {
    &&& stages.len() == inputs.len() + 1
    &&& forall|k: int|
        0 <= k < inputs.len() ==> stages[k + 1] == template_next_stage(
            stages[k],
            (#[trigger] inputs[k]).0,
            inputs[k].1,
        )
}

/// Law: over any run of updates of the template's node, whatever the pipeline states, the
/// stage never moves back, moves on by at most one stage per update, and once in the
/// update stage stays there.
pub proof fn lemma_template_run(
    stages: Seq<ShaderStage>,
    inputs: Seq<(Seq<PipelineState>, Seq<PipelineState>)>,
)
    requires
        is_template_run(stages, inputs),
    ensures
        forall|i: int, j: int|
            #![trigger stages[i], stages[j]]
            0 <= i <= j < stages.len() ==> stage_rank(stages[i]) <= stage_rank(stages[j]),
        forall|k: int|
            0 <= k < inputs.len() ==> stage_rank(stages[k + 1]) <= stage_rank(#[trigger] stages[k]) + 1,
        forall|i: int, j: int|
            #![trigger stages[i], stages[j]]
            0 <= i <= j < stages.len() && stages[i] == ShaderStage::Update ==> stages[j]
                == ShaderStage::Update,
{
    let ranks = stage_ranks(stages);
    assert forall|i: int, j: int| #![trigger ranks[i], ranks[j]] 0 <= i && j == i + 1 && j < ranks.len()
        implies ranks[i] <= ranks[j] <= ranks[i] + 1 by {
        assert(stages[j] == template_next_stage(stages[i], inputs[i].0, inputs[i].1));
    }
    lemma_ranks_monotone(ranks);
    assert forall|i: int, j: int| #![trigger stages[i], stages[j]] 0 <= i <= j < stages.len() implies stage_rank(
        stages[i],
    ) <= stage_rank(stages[j]) by {
        assert(ranks[i] <= ranks[j]);
    }
    assert forall|k: int| 0 <= k < inputs.len() implies stage_rank(stages[k + 1]) <= stage_rank(
        #[trigger] stages[k],
    ) + 1 by {
        assert(ranks[k] <= ranks[k + 1] <= ranks[k] + 1);
    }
}

/// The template's render node: its stage and its dispatches.
pub struct ComputeNode(pub ShaderStage, pub ShaderDispatches);

impl ComputeNode {
    /// Advances the stage, given the states of the startup pipelines and of the update
    /// pipelines, each in the order of its list. While loading, the first startup pipeline
    /// that is not ready must not have failed.
    pub fn update(&mut self, startup_states: &Vec<PipelineState>, update_states: &Vec<PipelineState>)
        requires
            startup_states@.len() == old(self).1.on_startup@.len(),
            update_states@.len() == old(self).1.on_update@.len(),
            old(self).0 == ShaderStage::Loading ==> !first_unready_failed(startup_states@),
        ensures
            final(self).0 == template_next_stage(old(self).0, startup_states@, update_states@),
            final(self).1 == old(self).1,
            stage_rank(final(self).0) == stage_rank(old(self).0) || stage_rank(final(self).0)
                == stage_rank(old(self).0) + 1,
    {
        match self.0 {
            ShaderStage::Loading => {
                if startup_ready(startup_states) {
                    self.0 = ShaderStage::Startup;
                }
            },
            ShaderStage::Startup => {
                if all_ok(update_states) {
                    self.0 = ShaderStage::Update;
                }
            },
            ShaderStage::Update => {},
        }
    }

    /// The dispatches to run this frame: the startup list in the startup stage, the update
    /// list in the update stage, none while loading.
    pub fn active_dispatches(&self) -> (active: Option<&Vec<ShaderDispatch>>)
        ensures
            self.0 == ShaderStage::Loading ==> active is None,
            self.0 == ShaderStage::Startup ==> active == Some(&self.1.on_startup),
            self.0 == ShaderStage::Update ==> active == Some(&self.1.on_update),
    {
        match self.0 {
            ShaderStage::Startup => Some(&self.1.on_startup),
            ShaderStage::Update => Some(&self.1.on_update),
            ShaderStage::Loading => None,
        }
    }
}

} // verus!
