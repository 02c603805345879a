//! The generic compute shader driver: the entry points a shader dispatches at startup and
//! on every update, the stage a compute node is in, and the builder of a shader plugin.
use vstd::prelude::*;

verus! {

/// How far the pipelines of a compute node have come.
#[derive(Clone, Copy, Debug, PartialEq, Eq, Hash, Structural)]
pub enum ShaderStage {
    Loading,
    Startup,
    Update,
}

/// The state of a cached compute pipeline, as the pipeline cache reports it.
#[derive(Clone, Copy, Debug, PartialEq, Eq, Hash, Structural)]
pub enum PipelineState {
    Queued,
    Creating,
    Ready,
    Failed,
}

/// The data of an image: one texel repeated, raw bytes, or all zeros.
#[derive(Clone, Debug)]
pub enum ImageData {
    Fill([u8; 4]),
    Data(Vec<u8>),
    Zeros,
}

/// The size of a texture: width, height, and depth or number of array layers.
#[derive(Clone, Copy, Debug, PartialEq, Eq, Structural)]
pub struct Extent3d {
    pub width: u32,
    pub height: u32,
    pub depth_or_array_layers: u32,
}

/// How to build an image: its size and its data.
#[derive(Clone, Debug)]
pub struct ImageBuilder {
    pub size: Extent3d,
    pub data: ImageData,
}

/// Number of bytes of a zero-filled image of `size`, with `block_size` bytes per texel
/// when the format has a copy block size, and none when it has not. The arithmetic is on
/// `u32` and must not overflow.
pub open spec fn zeros_byte_len(size: Extent3d, block_size: Option<u32>) -> int {
    size.height * size.width * size.depth_or_array_layers * match block_size {
        Some(b) => b as int,
        None => 0,
    }
}

/// The byte length of the zero-filled data of an image of `size` whose format has copy
/// block size `block_size` (none for formats without one, which gives no bytes). Each
/// product along the way must fit a `u32`.
pub fn zeros_len(size: Extent3d, block_size: Option<u32>) -> (len: u32)
    requires
        size.height * size.width <= u32::MAX,
        size.height * size.width * size.depth_or_array_layers <= u32::MAX,
        zeros_byte_len(size, block_size) <= u32::MAX,
    ensures
        len == zeros_byte_len(size, block_size),
{
    let total = size.height * size.width;
    assert(total * size.depth_or_array_layers <= u32::MAX);
    let total = total * size.depth_or_array_layers;
    let block = match block_size {
        Some(b) => b,
        None => 0,
    };
    total * block
}

/// Whether every pipeline is ready.
pub open spec fn all_ready(states: Seq<PipelineState>) -> bool {
    forall|i: int| 0 <= i < states.len() ==> #[trigger] states[i] == PipelineState::Ready
}

/// Whether the first pipeline that is not ready has failed: a check that stops at the
/// first pipeline not ready meets a failure.
pub open spec fn first_unready_failed(states: Seq<PipelineState>) -> bool {
    exists|i: int|
        0 <= i < states.len() && states[i] == PipelineState::Failed && forall|j: int|
            0 <= j < i ==> #[trigger] states[j] == PipelineState::Ready
}

/// Whether every pipeline is ready, stopping at the first one that is not. The caller
/// must rule out that this first one has failed, for a failed pipeline is fatal.
pub fn startup_ready(states: &Vec<PipelineState>) -> (ready: bool)
    requires
        !first_unready_failed(states@),
    ensures
        ready == all_ready(states@),
{
    let mut i: usize = 0;
    while i < states.len()
        invariant
            !first_unready_failed(states@),
            i <= states@.len(),
            forall|j: int| 0 <= j < i ==> #[trigger] states@[j] == PipelineState::Ready,
        decreases states@.len() - i,
    {
        match states[i] {
            PipelineState::Ready => {},
            PipelineState::Failed => {
                assert(first_unready_failed(states@));
                return false;
            },
            _ => {
                return false;
            },
        }
        i = i + 1;
    }
    true
}

/// Whether every pipeline is ready; a failed pipeline counts as not ready.
pub fn all_ok(states: &Vec<PipelineState>) -> (ready: bool)
    ensures
        ready == all_ready(states@),
{
    let mut i: usize = 0;
    while i < states.len()
        invariant
            i <= states@.len(),
            forall|j: int| 0 <= j < i ==> #[trigger] states@[j] == PipelineState::Ready,
        decreases states@.len() - i,
    {
        if states[i] != PipelineState::Ready {
            return false;
        }
        i = i + 1;
    }
    true
}

/// The position of an entry point in a shader's list of pipelines. It is implemented by
/// each shader's own entry type.
pub trait HelperEntry {
    fn as_key(&self) -> usize;
}

/// One dispatch of an entry point, with its workgroup counts.
#[derive(Debug)]
pub struct ShaderEntry<EntryTy> {
    pub entry: EntryTy,
    pub workgroup: (u32, u32, u32),
}

impl<EntryTy: Clone> Clone for ShaderEntry<EntryTy> {
    fn clone(&self) -> (c: Self)
        ensures
            c.workgroup == self.workgroup,
            cloned::<EntryTy>(self.entry, c.entry),
    {
        ShaderEntry { entry: self.entry.clone(), workgroup: self.workgroup }
    }
}

/// The dispatches a shader makes once at startup and on every update.
#[derive(Clone, Debug)]
pub struct ShaderEntries<EntryTy> {
    pub on_startup: Vec<ShaderEntry<EntryTy>>,
    pub on_update: Vec<ShaderEntry<EntryTy>>,
}

impl<EntryTy> ShaderEntries<EntryTy> {
    /// Whether the pipelines of the startup dispatches are all ready, given their states in
    /// order, checked up to the first that is not; it must not have failed.
    pub fn on_startup_success(&self, states: &Vec<PipelineState>) -> (ready: bool)
        requires
            states@.len() == self.on_startup@.len(),
            !first_unready_failed(states@),
        ensures
            ready == all_ready(states@),
    {
        startup_ready(states)
    }

    /// Whether the pipelines of the startup dispatches are all ready, given their states in
    /// order; a failure counts as not ready. (It is the startup list that is checked here,
    /// as the update stage is entered once the startup dispatches have run.)
    pub fn on_update_success(&self, states: &Vec<PipelineState>) -> (ready: bool)
        requires
            states@.len() == self.on_startup@.len(),
        ensures
            ready == all_ready(states@),
    {
        all_ok(states)
    }
}

/// The rank of a stage: stages only ever move to the next rank.
pub open spec fn stage_rank(stage: ShaderStage) -> int {
    match stage {
        ShaderStage::Loading => 0,
        ShaderStage::Startup => 1,
        ShaderStage::Update => 2,
    }
}

/// The stage a node of a generic shader moves to, given the states of its startup
/// pipelines: from loading to startup once they are all ready, and from startup to update
/// once they still are.
pub open spec fn next_stage(stage: ShaderStage, startup_states: Seq<PipelineState>) -> ShaderStage {
    match stage {
        ShaderStage::Loading => if all_ready(startup_states) {
            ShaderStage::Startup
        } else {
            ShaderStage::Loading
        },
        ShaderStage::Startup => if all_ready(startup_states) {
            ShaderStage::Update
        } else {
            ShaderStage::Startup
        },
        ShaderStage::Update => ShaderStage::Update,
    }
}

/// Ranks that, step by step, stay or rise by one.
pub open spec fn steps_up_by_one(ranks: Seq<int>) -> bool {
    forall|i: int, j: int|
        #![trigger ranks[i], ranks[j]]
        0 <= i && j == i + 1 && j < ranks.len() ==> ranks[i] <= ranks[j] <= ranks[i] + 1
}

proof fn lemma_ranks_rise_to(ranks: Seq<int>, i: int, j: int)
    requires
        steps_up_by_one(ranks),
        0 <= i <= j < ranks.len(),
    ensures
        ranks[i] <= ranks[j],
    decreases j - i,
{
    if i < j {
        lemma_ranks_rise_to(ranks, i, j - 1);
        assert(ranks[j - 1] <= ranks[j]);
    }
}

/// Ranks that stay or rise by one at each step never fall between any two steps.
pub(crate) proof fn lemma_ranks_monotone(ranks: Seq<int>)
    requires
        steps_up_by_one(ranks),
    ensures
        forall|i: int, j: int|
            #![trigger ranks[i], ranks[j]]
            0 <= i <= j < ranks.len() ==> ranks[i] <= ranks[j],
{
    assert forall|i: int, j: int| #![trigger ranks[i], ranks[j]] 0 <= i <= j < ranks.len() implies ranks[i]
        <= ranks[j] by {
        lemma_ranks_rise_to(ranks, i, j);
    }
}

/// Ranks that stay or rise by one at each step pass every level between the first rank
/// and a later one, by a step from that level to the next.
pub(crate) proof fn lemma_ranks_cross(ranks: Seq<int>, i: int, level: int)
    requires
        steps_up_by_one(ranks),
        0 <= i < ranks.len(),
        ranks[0] <= level < ranks[i],
    ensures
        exists|j: int| 0 <= j < i && ranks[j] == level && #[trigger] ranks[j + 1] == level + 1,
    decreases i,
{
    assert(i > 0);
    assert(ranks[i - 1] <= ranks[i] <= ranks[i - 1] + 1);
    if ranks[i - 1] <= level {
        assert(ranks[i - 1] == level && ranks[(i - 1) + 1] == level + 1);
    } else {
        lemma_ranks_cross(ranks, i - 1, level);
    }
}

/// Law: a generic node moves from loading to startup, and from startup to update, exactly
/// when every startup pipeline is ready, and otherwise stays where it is; the update stage
/// never moves.
pub proof fn lemma_stage_waits_on_startup_pipelines(startup_states: Seq<PipelineState>)
    ensures
        (next_stage(ShaderStage::Loading, startup_states) == ShaderStage::Startup) <==> forall|i: int|
            0 <= i < startup_states.len() ==> #[trigger] startup_states[i] == PipelineState::Ready,
        next_stage(ShaderStage::Loading, startup_states) != ShaderStage::Startup ==> next_stage(
            ShaderStage::Loading,
            startup_states,
        ) == ShaderStage::Loading,
        (next_stage(ShaderStage::Startup, startup_states) == ShaderStage::Update) <==> forall|i: int|
            0 <= i < startup_states.len() ==> #[trigger] startup_states[i] == PipelineState::Ready,
        next_stage(ShaderStage::Startup, startup_states) != ShaderStage::Update ==> next_stage(
            ShaderStage::Startup,
            startup_states,
        ) == ShaderStage::Startup,
        next_stage(ShaderStage::Update, startup_states) == ShaderStage::Update,
{
}

/// Whether `stages` is what a generic node goes through when its updates are fed the
/// startup pipeline states `inputs`, one list per update.
pub open spec fn is_stage_run(stages: Seq<ShaderStage>, inputs: Seq<Seq<PipelineState>>) -> bool {
    &&& stages.len() == inputs.len() + 1
    &&& forall|k: int| 0 <= k < inputs.len() ==> stages[k + 1] == next_stage(stages[k], #[trigger] inputs[k])
}

/// The ranks of the stages of a run.
pub open spec fn stage_ranks(stages: Seq<ShaderStage>) -> Seq<int> {
    Seq::new(stages.len(), |k: int| stage_rank(stages[k]))
}

/// Law: over any run of updates of a generic node, whatever the pipeline states, the stage
/// never moves back, moves on by at most one stage per update, and once in the update
/// stage stays there.
pub proof fn lemma_stage_run(stages: Seq<ShaderStage>, inputs: Seq<Seq<PipelineState>>)
    requires
        is_stage_run(stages, inputs),
    ensures
        forall|i: int, j: int|
            #![trigger stages[i], stages[j]]
            0 <= i <= j < stages.len() ==> stage_rank(stages[i]) <= stage_rank(stages[j]),
        forall|k: int|
            0 <= k < inputs.len() ==> stage_rank(stages[k + 1]) <= stage_rank(#[trigger] stages[k]) + 1,
        forall|i: int, j: int|
            #![trigger stages[i], stages[j]]
            0 <= i <= j < stages.len() && stages[i] == ShaderStage::Update ==> stages[j]
                == ShaderStage::Update,
{
    let ranks = stage_ranks(stages);
    assert forall|i: int, j: int| #![trigger ranks[i], ranks[j]] 0 <= i && j == i + 1 && j < ranks.len()
        implies ranks[i] <= ranks[j] <= ranks[i] + 1 by {
        assert(stages[j] == next_stage(stages[i], inputs[i]));
    }
    lemma_ranks_monotone(ranks);
    assert forall|i: int, j: int| #![trigger stages[i], stages[j]] 0 <= i <= j < stages.len() implies stage_rank(
        stages[i],
    ) <= stage_rank(stages[j]) by {
        assert(ranks[i] <= ranks[j]);
    }
    assert forall|k: int| 0 <= k < inputs.len() implies stage_rank(stages[k + 1]) <= stage_rank(
        #[trigger] stages[k],
    ) + 1 by {
        assert(ranks[k] <= ranks[k + 1] <= ranks[k] + 1);
    }
}

/// A render graph node that runs a shader's dispatches according to its stage.
pub struct ComputeNode<EntryTy> {
    state: ShaderStage,
    dispatches: ShaderEntries<EntryTy>,
}

impl<EntryTy> ComputeNode<EntryTy> {
    /// The node's stage.
    pub closed spec fn stage(&self) -> ShaderStage {
        self.state
    }

    /// The node's dispatches.
    pub closed spec fn entries(&self) -> ShaderEntries<EntryTy> {
        self.dispatches
    }

    /// A node that starts out loading.
    pub fn new(dispatches: ShaderEntries<EntryTy>) -> (node: Self)
        ensures
            node.stage() == ShaderStage::Loading,
            node.entries() == dispatches,
    {
        ComputeNode { state: ShaderStage::Loading, dispatches }
    }

    /// The node's stage.
    pub fn state(&self) -> (s: ShaderStage)
        ensures
            s == self.stage(),
    {
        self.state
    }

    /// The node's dispatches.
    pub fn dispatches(&self) -> (d: &ShaderEntries<EntryTy>)
        ensures
            *d == self.entries(),
    {
        &self.dispatches
    }

    /// Advances the stage, given the states of the startup pipelines in order. While
    /// loading, the first startup pipeline that is not ready must not have failed.
    pub fn update(&mut self, startup_states: &Vec<PipelineState>)
        requires
            startup_states@.len() == old(self).entries().on_startup@.len(),
            old(self).stage() == ShaderStage::Loading ==> !first_unready_failed(startup_states@),
        ensures
            final(self).stage() == next_stage(old(self).stage(), startup_states@),
            final(self).entries() == old(self).entries(),
            stage_rank(final(self).stage()) == stage_rank(old(self).stage()) || stage_rank(
                final(self).stage(),
            ) == stage_rank(old(self).stage()) + 1,
    {
        match self.state {
            ShaderStage::Loading => {
                if self.dispatches.on_startup_success(startup_states) {
                    self.state = ShaderStage::Startup;
                }
            },
            ShaderStage::Startup => {
                if self.dispatches.on_update_success(startup_states) {
                    self.state = ShaderStage::Update;
                }
            },
            ShaderStage::Update => {},
        }
    }

    /// The dispatches to run this frame: the startup list in the startup stage, the update
    /// list in the update stage, none while loading.
    pub fn active_dispatches(&self) -> (active: Option<&Vec<ShaderEntry<EntryTy>>>)
        ensures
            self.stage() == ShaderStage::Loading ==> active is None,
            self.stage() == ShaderStage::Startup ==> active == Some(&self.entries().on_startup),
            self.stage() == ShaderStage::Update ==> active == Some(&self.entries().on_update),
    {
        match self.state {
            ShaderStage::Startup => Some(&self.dispatches.on_startup),
            ShaderStage::Update => Some(&self.dispatches.on_update),
            ShaderStage::Loading => None,
        }
    }
}

/// Collects a shader's initial data and dispatches before building its plugin.
pub struct ShaderBuilder<DataTy, EntriesTy> {
    initial_data: Option<DataTy>,
    dispatches: Option<ShaderEntries<EntriesTy>>,
}

/// A shader plugin: the data its buffers start with and the dispatches it makes.
pub struct ShaderPlugin<DataTy, EntriesTy> {
    initial_data: DataTy,
    entry_dispatches: ShaderEntries<EntriesTy>,
}

impl<DataTy, EntriesTy> ShaderBuilder<DataTy, EntriesTy> {
    /// The initial data given so far.
    pub closed spec fn spec_initial_data(&self) -> Option<DataTy> {
        self.initial_data
    }

    /// The dispatches given so far.
    pub closed spec fn spec_dispatches(&self) -> Option<ShaderEntries<EntriesTy>> {
        self.dispatches
    }

    /// A builder with nothing given yet.
    pub fn default() -> (b: Self)
        ensures
            b.spec_initial_data() is None,
            b.spec_dispatches() is None,
    {
        ShaderBuilder { initial_data: None, dispatches: None }
    }

    /// Sets the initial data, keeping the dispatches.
    pub fn initial_data(self, data: DataTy) -> (b: Self)
        ensures
            b.spec_initial_data() == Some(data),
            b.spec_dispatches() == self.spec_dispatches(),
    {
        ShaderBuilder { initial_data: Some(data), dispatches: self.dispatches }
    }

    /// Sets the dispatches, keeping the initial data.
    pub fn dispatches(self, dispatches: ShaderEntries<EntriesTy>) -> (b: Self)
        ensures
            b.spec_initial_data() == self.spec_initial_data(),
            b.spec_dispatches() == Some(dispatches),
    {
        ShaderBuilder { initial_data: self.initial_data, dispatches: Some(dispatches) }
    }

    /// Builds the plugin; both the initial data and the dispatches must have been given.
    pub fn build(self) -> (plugin: ShaderPlugin<DataTy, EntriesTy>)
        requires
            self.spec_initial_data() is Some,
            self.spec_dispatches() is Some,
        ensures
            plugin.spec_initial_data() == self.spec_initial_data()->0,
            plugin.spec_dispatches() == self.spec_dispatches()->0,
    {
        ShaderPlugin::from_builder(self)
    }
}

impl<DataTy, EntriesTy> ShaderPlugin<DataTy, EntriesTy> {
    /// The data the plugin's buffers start with.
    pub closed spec fn spec_initial_data(&self) -> DataTy {
        self.initial_data
    }

    /// The dispatches the plugin makes.
    pub closed spec fn spec_dispatches(&self) -> ShaderEntries<EntriesTy> {
        self.entry_dispatches
    }

    /// The plugin of a builder that has been given both its initial data and its
    /// dispatches.
    pub fn from_builder(builder: ShaderBuilder<DataTy, EntriesTy>) -> (plugin: Self)
        requires
            builder.spec_initial_data() is Some,
            builder.spec_dispatches() is Some,
        ensures
            plugin.spec_initial_data() == builder.spec_initial_data()->0,
            plugin.spec_dispatches() == builder.spec_dispatches()->0,
    {
        let initial_data = builder.initial_data.unwrap();
        ShaderPlugin { initial_data, entry_dispatches: builder.dispatches.unwrap() }
    }

    /// The data the plugin's buffers start with.
    pub fn initial_data(&self) -> (d: &DataTy)
        ensures
            *d == self.spec_initial_data(),
    {
        &self.initial_data
    }

    /// The dispatches the plugin makes.
    pub fn entry_dispatches(&self) -> (d: &ShaderEntries<EntriesTy>)
        ensures
            *d == self.spec_dispatches(),
    {
        &self.entry_dispatches
    }
}

} // verus!
