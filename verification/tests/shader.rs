use bevy_playground::shader::generate;
use bevy_playground::shader::exm::HelloEntries;
use bevy_playground::shader::render::{ChainPass, ComputeNode as ChainNode, ComputeShaderStage, ShaderStage as ChainStage};
use bevy_playground::shader::slib::{
    all_ok, startup_ready, zeros_len, ComputeNode, Extent3d, HelperEntry, PipelineState,
    ShaderBuilder, ShaderEntries, ShaderEntry, ShaderStage,
};
use bevy_playground::shader::vertices::{vertex_buffer_len, VertexData};
use bevy_playground::temp::{ComputeNode as TemplateNode, Entries, ShaderDispatch, ShaderDispatches};
use PipelineState::{Creating, Failed, Queued, Ready};

fn entries() -> ShaderEntries<HelloEntries> {
    ShaderEntries {
        on_startup: vec![ShaderEntry { entry: HelloEntries::Main, workgroup: (4, 4, 1) }],
        on_update: vec![ShaderEntry { entry: HelloEntries::Update, workgroup: (8, 1, 1) }],
    }
}

#[test]
fn readiness_checks() {
    assert!(startup_ready(&vec![]));
    assert!(startup_ready(&vec![Ready, Ready]));
    assert!(!startup_ready(&vec![Ready, Creating, Failed]));
    assert!(!all_ok(&vec![Ready, Failed]));
    assert!(all_ok(&vec![Ready]));
    assert!(!all_ok(&vec![Queued]));
}

#[test]
fn generic_node_goes_through_its_stages() {
    let mut node = ComputeNode::new(entries());
    assert_eq!(node.state(), ShaderStage::Loading);
    assert!(node.active_dispatches().is_none());
    node.update(&vec![Creating]);
    assert_eq!(node.state(), ShaderStage::Loading);
    node.update(&vec![Ready]);
    assert_eq!(node.state(), ShaderStage::Startup);
    assert_eq!(node.active_dispatches().unwrap()[0].workgroup, (4, 4, 1));
    node.update(&vec![Ready]);
    assert_eq!(node.state(), ShaderStage::Update);
    assert_eq!(node.active_dispatches().unwrap()[0].workgroup, (8, 1, 1));
    node.update(&vec![Failed]);
    assert_eq!(node.state(), ShaderStage::Update);
}

#[test]
fn template_node_checks_the_update_pipelines() {
    let dispatches = ShaderDispatches {
        on_startup: vec![ShaderDispatch { entry: Entries::Main, workgroup: (1, 1, 1) }],
        on_update: vec![ShaderDispatch { entry: Entries::Update, workgroup: (2, 2, 2) }],
    };
    assert!(!dispatches.runs_nothing());
    assert!(ShaderDispatches { on_startup: vec![], on_update: vec![] }.runs_nothing());
    let mut node = TemplateNode(ShaderStage::Loading, dispatches.clone());
    node.update(&vec![Ready], &vec![Queued]);
    assert_eq!(node.0, ShaderStage::Startup);
    node.update(&vec![Ready], &vec![Queued]);
    assert_eq!(node.0, ShaderStage::Startup);
    node.update(&vec![Queued], &vec![Ready]);
    assert_eq!(node.0, ShaderStage::Update);
    assert_eq!(node.active_dispatches().unwrap()[0].entry, Entries::Update);
}

#[test]
fn builder_builds_plugin() {
    let plugin = ShaderBuilder::default().initial_data(42u32).dispatches(entries()).build();
    assert_eq!(*plugin.initial_data(), 42);
    assert_eq!(plugin.entry_dispatches().on_startup.len(), 1);
}

#[test]
fn zero_image_sizes() {
    let size = Extent3d { width: 4, height: 3, depth_or_array_layers: 2 };
    assert_eq!(zeros_len(size, Some(4)), 96);
    assert_eq!(zeros_len(size, None), 0);
}

#[test]
fn hello_entry_keys() {
    assert_eq!(HelloEntries::Main.as_key(), 0);
    assert_eq!(HelloEntries::Update.as_key(), 1);
}

#[test]
fn chain_node_reports_start_and_completion() {
    let mut node = ChainNode::default();
    assert_eq!(node.pass(), None);
    assert_eq!(node.update(Ready, Queued, Queued), Some(ComputeShaderStage::Starting));
    assert_eq!(node.stage, ChainStage::GenerateVoxels);
    assert_eq!(node.pass(), Some(ChainPass::Sphere(32, 32, 32)));
    assert_eq!(node.update(Ready, Ready, Queued), None);
    assert_eq!(node.stage, ChainStage::GenerateMeshVertices);
    assert_eq!(node.update(Ready, Ready, Ready), Some(ComputeShaderStage::StartupComplete));
    assert_eq!(node.pass(), Some(ChainPass::Slice(32, 32, 1)));
}

#[test]
fn vertex_buffers() {
    assert_eq!(vertex_buffer_len(), 32 * 32 * 32 * 3 * 8);
    assert!(!VertexData::default().has_indices());
    assert!(VertexData { index_head: 3, vertex_head: 0 }.has_indices());
}

fn pick(seed: &mut u32) -> PipelineState {
    *seed = seed.wrapping_mul(1_103_515_245).wrapping_add(12_345);
    match (*seed >> 16) % 4 {
        0 => Queued,
        1 => Creating,
        2 => Ready,
        _ => Failed,
    }
}

fn rank(stage: ShaderStage) -> u32 {
    match stage {
        ShaderStage::Loading => 0,
        ShaderStage::Startup => 1,
        ShaderStage::Update => 2,
    }
}

fn chain_rank(stage: ChainStage) -> u32 {
    match stage {
        ChainStage::Loading => 0,
        ChainStage::GenerateVoxels => 1,
        ChainStage::GenerateMeshVertices => 2,
        ChainStage::Update => 3,
    }
}

#[test]
fn generic_node_run_never_moves_back() {
    let mut seed = 7;
    let mut node = ComputeNode::new(entries());
    let mut ranks = vec![rank(node.state())];
    for _ in 0..200 {
        let mut state = pick(&mut seed);
        if node.state() == ShaderStage::Loading && state == Failed {
            state = Creating;
        }
        node.update(&vec![state]);
        ranks.push(rank(node.state()));
    }
    for w in ranks.windows(2) {
        assert!(w[0] <= w[1] && w[1] <= w[0] + 1);
    }
    assert_eq!(*ranks.last().unwrap(), 2);
}

#[test]
fn template_node_run_never_moves_back() {
    let dispatches = ShaderDispatches {
        on_startup: vec![ShaderDispatch { entry: Entries::Main, workgroup: (1, 1, 1) }],
        on_update: vec![ShaderDispatch { entry: Entries::Update, workgroup: (2, 2, 2) }],
    };
    let mut seed = 11;
    let mut node = TemplateNode(ShaderStage::Loading, dispatches);
    let mut ranks = vec![rank(node.0)];
    for _ in 0..200 {
        let mut startup = pick(&mut seed);
        if node.0 == ShaderStage::Loading && startup == Failed {
            startup = Queued;
        }
        node.update(&vec![startup], &vec![pick(&mut seed)]);
        ranks.push(rank(node.0));
    }
    for w in ranks.windows(2) {
        assert!(w[0] <= w[1] && w[1] <= w[0] + 1);
    }
    assert_eq!(*ranks.last().unwrap(), 2);
}

#[test]
fn chain_node_run_reports_each_event_once_in_order() {
    let mut seed = 3;
    let mut node = ChainNode::default();
    let mut starts = vec![];
    let mut completions = vec![];
    for frame in 0..300 {
        let before = node.stage;
        let mut sphere = pick(&mut seed);
        let mut vertices = pick(&mut seed);
        if before == ChainStage::Loading && sphere == Failed {
            sphere = Creating;
        }
        if before == ChainStage::GenerateVoxels && vertices == Failed {
            vertices = Queued;
        }
        let report = node.update(sphere, vertices, pick(&mut seed));
        let after = node.stage;
        assert!(chain_rank(before) <= chain_rank(after) && chain_rank(after) <= chain_rank(before) + 1);
        match report {
            Some(ComputeShaderStage::Starting) => {
                assert_eq!((before, after), (ChainStage::Loading, ChainStage::GenerateVoxels));
                starts.push(frame);
            }
            Some(ComputeShaderStage::StartupComplete) => {
                assert_eq!((before, after), (ChainStage::GenerateMeshVertices, ChainStage::Update));
                completions.push(frame);
            }
            None => {}
        }
    }
    assert_eq!(starts.len(), 1);
    assert_eq!(completions.len(), 1);
    assert!(starts[0] < completions[0]);
    assert_eq!(node.stage, ChainStage::Update);
}

#[test]
fn chained_shader_image_sizes() {
    assert_eq!(generate::slice_image_len(Some(4)), 32 * 32 * 4);
    assert_eq!(generate::voxel_image_len(Some(4)), 32 * 32 * 32 * 4);
    assert_eq!(generate::slice_image_len(None), 0);
    assert_eq!(generate::voxel_image_len(None), 0);
}
