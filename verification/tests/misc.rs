use bevy_playground::assets::progress_advanced;
use bevy_playground::camera::{movement_direction, player_step, uv_debug_texture_data};
use bevy_playground::compute::{
    decode_counter, decode_words, readback_buffer_size, slice_texture_len, voxel_texture_len,
    SphereComputeState, SpherePass,
};
use bevy_playground::debug::{
    max_layer, toggle_debug, toggle_wireframe, DebugResource, DebugState, WireframeAction, WireframeState,
};
use bevy_playground::gen_voxels::{slice_image_len, voxel_image_len, ComputeNode as VoxelNode, VoxelPass};
use bevy_playground::loading::{check_loading_status, LoadingResource, LoadingState};
use bevy_playground::shader::slib::{PipelineState, ShaderStage};

#[test]
fn words_are_decoded_four_bytes_at_a_time() {
    let words = decode_words(&[1, 0, 0, 0, 0, 0, 0, 2]);
    assert!(words == vec![1, 0x0200_0000] || words == vec![0x0100_0000, 2]);
    assert_eq!(decode_words(&[]), Vec::<u32>::new());
    let counter = decode_counter(&[7, 0, 0, 0, 9, 9]);
    assert!(counter == 7 || counter == 0x0700_0000);
    assert_eq!(readback_buffer_size(4), 64);
}

#[test]
fn sphere_node_stages() {
    let s = SphereComputeState::Loading;
    assert_eq!(s.pass(), None);
    let s = s.next(PipelineState::Creating, PipelineState::Ready);
    assert_eq!(s, SphereComputeState::Loading);
    let s = s.next(PipelineState::Ready, PipelineState::Queued);
    assert_eq!(s.pass(), Some(SpherePass::Init(32, 32, 32)));
    let s = s.next(PipelineState::Ready, PipelineState::Ready);
    assert_eq!(s.pass(), Some(SpherePass::Update(32, 32, 1)));
    assert_eq!(voxel_texture_len(), 131072);
    assert_eq!(slice_texture_len(), 4096);
}

#[test]
fn voxel_node_stages_and_sizes() {
    let mut node = VoxelNode::default();
    node.update(PipelineState::Queued, PipelineState::Ready);
    assert_eq!(node.stage, ShaderStage::Loading);
    node.update(PipelineState::Ready, PipelineState::Failed);
    assert_eq!(node.stage, ShaderStage::Startup);
    assert_eq!(node.pass(), Some(VoxelPass::Sphere(100, 100, 100)));
    node.update(PipelineState::Ready, PipelineState::Ready);
    assert_eq!(node.pass(), Some(VoxelPass::Slice(100, 100, 1)));
    assert_eq!(slice_image_len(Some(4)), 40_000);
    assert_eq!(voxel_image_len(Some(4)), 4_000_000);
    assert_eq!(slice_image_len(None), 0);
}

#[test]
fn debug_toggles() {
    assert_eq!(toggle_debug(false, DebugState::Closed), None);
    assert_eq!(toggle_debug(true, DebugState::Closed), Some(DebugState::Open));
    assert_eq!(toggle_debug(true, DebugState::Open), Some(DebugState::Closed));
    assert_eq!(DebugState::default(), DebugState::Closed);
    assert_eq!(toggle_wireframe(true, WireframeState::default()), Some((WireframeState::On, WireframeAction::Insert)));
    assert_eq!(toggle_wireframe(true, WireframeState::On), Some((WireframeState::Off, WireframeAction::Remove)));
    assert_eq!(toggle_wireframe(false, WireframeState::On), None);
    let mut r = DebugResource::default();
    r.update(DebugResource { value: 12 });
    assert_eq!(r.value, 12);
    assert_eq!(max_layer(), 31);
}

#[test]
fn movement_keys() {
    assert_eq!(movement_direction(true, false, false, false), (0, 1));
    assert_eq!(movement_direction(true, true, true, false), (1, 0));
    assert_eq!(movement_direction(false, true, false, true), (-1, -1));
    assert_eq!(player_step((-1, 1)), (-1, 5));
}

#[test]
fn debug_texture_rows_turn_right() {
    let data = uv_debug_texture_data();
    assert_eq!(data.len(), 256);
    assert_eq!(&data[0..8], &[255, 102, 159, 255, 255, 159, 102, 255]);
    let first: Vec<u8> = data[0..32].to_vec();
    let mut row = first.clone();
    for y in 1..8 {
        row.rotate_right(4);
        assert_eq!(&data[32 * y..32 * y + 32], &row[..]);
    }
}

#[test]
fn loading_completes_when_no_step_is_left() {
    let mut loading = LoadingResource::new();
    assert_eq!(check_loading_status(false, &loading), None);
    assert_eq!(check_loading_status(true, &loading), Some(LoadingState::LoadingComplete));
    let id = loading.begin_step();
    assert_eq!((id >> 76) & 0xf, 4);
    assert_eq!((id >> 62) & 0x3, 2);
    assert_eq!(check_loading_status(true, &loading), Some(LoadingState::AssetsLoading));
    loading.end_step(id);
    assert_eq!(check_loading_status(true, &loading), Some(LoadingState::LoadingComplete));
}

#[test]
fn progress_reports_only_growth() {
    let mut last = 0;
    assert!(!progress_advanced(&mut last, 0));
    assert!(progress_advanced(&mut last, 3));
    assert_eq!(last, 3);
    assert!(!progress_advanced(&mut last, 2));
    assert_eq!(last, 3);
}

fn next_state(seed: &mut u32) -> PipelineState {
    *seed = seed.wrapping_mul(1_103_515_245).wrapping_add(12_345);
    match (*seed >> 16) % 4 {
        0 => PipelineState::Queued,
        1 => PipelineState::Creating,
        2 => PipelineState::Ready,
        _ => PipelineState::Failed,
    }
}

#[test]
fn sphere_node_run_never_moves_back() {
    let rank = |s: SphereComputeState| match s {
        SphereComputeState::Loading => 0,
        SphereComputeState::Init => 1,
        SphereComputeState::Update => 2,
    };
    let mut seed = 5;
    let mut s = SphereComputeState::Loading;
    for _ in 0..200 {
        let mut init = next_state(&mut seed);
        if s == SphereComputeState::Loading && init == PipelineState::Failed {
            init = PipelineState::Queued;
        }
        let t = s.next(init, next_state(&mut seed));
        assert!(rank(s) <= rank(t) && rank(t) <= rank(s) + 1);
        s = t;
    }
    assert_eq!(s, SphereComputeState::Update);
}

#[test]
fn voxel_node_run_never_moves_back() {
    let rank = |s: ShaderStage| match s {
        ShaderStage::Loading => 0,
        ShaderStage::Startup => 1,
        ShaderStage::Update => 2,
    };
    let mut seed = 9;
    let mut node = VoxelNode::default();
    for _ in 0..200 {
        let before = node.stage;
        let mut sphere = next_state(&mut seed);
        if before == ShaderStage::Loading && sphere == PipelineState::Failed {
            sphere = PipelineState::Creating;
        }
        node.update(sphere, next_state(&mut seed));
        assert!(rank(before) <= rank(node.stage) && rank(node.stage) <= rank(before) + 1);
    }
    assert_eq!(node.stage, ShaderStage::Update);
}
