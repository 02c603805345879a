use bevy_playground::loading::LoadingResource;
use bevy_playground::terrain_gen::{
    chunks_around, initial_chunks, manage_chunks, setup_terrain, ChunkCoord, SpawnTerrain, TerrainStore,
};

fn c(x: i32, y: i32) -> ChunkCoord {
    ChunkCoord { x, y }
}

#[test]
fn generate_terrain() {
    let mut store: TerrainStore<u32> = TerrainStore::new();
    assert_eq!(store.len(), 0);
    let mut loading = LoadingResource::new();
    let spawns = setup_terrain(&mut loading);
    assert!(loading.loading_steps.is_empty());
    for (n, spawn) in spawns.into_iter().enumerate() {
        if spawn.needs_mesh(&store) {
            spawn.record(&mut store, n as u32);
        }
    }
    assert_eq!(store.len(), 9);
}

#[test]
fn spawning_twice_changes_nothing() {
    let mut store: TerrainStore<u32> = TerrainStore::new();
    let spawn = SpawnTerrain(c(4, -2));
    assert!(spawn.needs_mesh(&store));
    spawn.record(&mut store, 7);
    let again = SpawnTerrain(c(4, -2));
    assert!(!again.needs_mesh(&store));
    assert_eq!(store.len(), 1);
}

#[test]
fn neighbourhood_order() {
    assert_eq!(
        chunks_around(c(5, 7)),
        vec![c(4, 6), c(4, 7), c(4, 8), c(5, 6), c(5, 7), c(5, 8), c(6, 6), c(6, 7), c(6, 8)]
    );
    assert_eq!(initial_chunks(), chunks_around(c(0, 0)));
}

#[test]
fn moving_one_chunk_drops_the_far_row() {
    let mut store: TerrainStore<u32> = TerrainStore::new();
    for (n, chunk) in initial_chunks().into_iter().enumerate() {
        store.insert(chunk, n as u32);
    }
    let mut current = c(0, 0);
    assert!(manage_chunks(&mut current, c(0, 0), &mut store).is_none());
    assert_eq!(store.len(), 9);

    let update = manage_chunks(&mut current, c(1, 0), &mut store).unwrap();
    assert_eq!(current, c(1, 0));
    assert_eq!(update.despawn, vec![(c(-1, -1), 0), (c(-1, 0), 1), (c(-1, 1), 2)]);
    assert_eq!(update.spawn, chunks_around(c(1, 0)));
    assert_eq!(store.len(), 6);
    for (chunk, _) in &update.despawn {
        assert!(!store.contains(*chunk));
        assert_eq!(store.remove(*chunk), None);
    }
    assert!(store.contains(c(1, 1)));
}

#[test]
fn insert_replaces_and_remove_takes_out() {
    let mut store: TerrainStore<&str> = TerrainStore::new();
    assert_eq!(store.insert(c(1, 1), "a"), None);
    assert_eq!(store.insert(c(2, 1), "b"), None);
    assert_eq!(store.insert(c(1, 1), "c"), Some("a"));
    assert_eq!(store.len(), 2);
    assert_eq!(store.remove(c(1, 1)), Some("c"));
    assert_eq!(store.remove(c(1, 1)), None);
    assert_eq!(store.len(), 1);
    assert!(store.contains(c(2, 1)));
}

#[test]
fn staying_in_the_edge_chunk_changes_nothing() {
    let mut store: TerrainStore<u32> = TerrainStore::new();
    store.insert(c(i32::MAX, 0), 7);
    let mut current = c(i32::MAX, 0);
    assert!(manage_chunks(&mut current, c(i32::MAX, 0), &mut store).is_none());
    assert_eq!(current, c(i32::MAX, 0));
    assert_eq!(store.len(), 1);
    assert!(store.contains(c(i32::MAX, 0)));
}

#[test]
fn setup_terrain_leaves_earlier_steps_running() {
    let mut loading = LoadingResource::new();
    let earlier = loading.begin_step();
    let spawns = setup_terrain(&mut loading);
    assert_eq!(spawns.len(), 9);
    assert_eq!(loading.loading_steps.len(), 1);
    assert!(loading.loading_steps.contains(&earlier));
    assert_eq!((earlier >> 76) & 0xf, 4);
    assert_eq!((earlier >> 62) & 0x3, 2);
}
