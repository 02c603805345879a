//! Which terrain chunks exist around the player: the 3 x 3 neighbourhood of the chunk the
//! player stands in is kept, chunks that fall out of it are given up, and every chunk of
//! the neighbourhood that has no mesh yet gets one.
use vstd::prelude::*;
use crate::loading::LoadingResource;

verus! {

/// The coordinates of a terrain chunk on the ground plane, in whole chunks.
#[derive(Clone, Copy, Debug, PartialEq, Eq, Hash, Structural)]
pub struct ChunkCoord {
    pub x: i32,
    pub y: i32,
}

/// Whether a chunk's neighbours can be named without leaving the `i32` range.
pub open spec fn has_neighbours(c: ChunkCoord) -> bool {
    i32::MIN < c.x < i32::MAX && i32::MIN < c.y < i32::MAX
}

/// The 3 x 3 block of chunks centred on `center`, by rows of increasing `x` offset, each
/// row by increasing `y` offset.
pub open spec fn neighbourhood(center: ChunkCoord) -> Seq<ChunkCoord> {
    Seq::new(
        9,
        |i: int| ChunkCoord { x: (center.x + (i / 3 - 1)) as i32, y: (center.y + (i % 3 - 1)) as i32 },
    )
}

/// Whether `c` is at most one chunk away from `center` along each axis.
pub open spec fn within_one(center: ChunkCoord, c: ChunkCoord) -> bool {
    -1 <= c.x - center.x <= 1 && -1 <= c.y - center.y <= 1
}

/// Law: the neighbourhood of a chunk is nine distinct chunks, and a chunk belongs to it
/// exactly when it is at most one chunk away along each axis.
pub proof fn lemma_neighbourhood(center: ChunkCoord, c: ChunkCoord)
    requires
        has_neighbours(center),
    ensures
        neighbourhood(center).len() == 9,
        neighbourhood(center).no_duplicates(),
        neighbourhood(center).contains(c) <==> within_one(center, c),
        neighbourhood(center).contains(center),
{
    let n = neighbourhood(center);
    if within_one(center, c) {
        let i = (c.x - center.x + 1) * 3 + (c.y - center.y + 1);
        assert(n[i] == c);
    }
    assert(n[4] == center);
}

/// The chunks to render around `center`: its 3 x 3 neighbourhood.
pub fn chunks_around(center: ChunkCoord) -> (chunks: Vec<ChunkCoord>)
    requires
        has_neighbours(center),
    ensures
        chunks@ == neighbourhood(center),
{
    let mut chunks: Vec<ChunkCoord> = Vec::new();
    let mut dx: i32 = -1;
    while dx <= 1
        invariant
            has_neighbours(center),
            -1 <= dx <= 2,
            chunks@.len() == 3 * (dx + 1),
            forall|i: int| 0 <= i < chunks@.len() ==> #[trigger] chunks@[i] == neighbourhood(center)[i],
        decreases 2 - dx,
    {
        let mut dy: i32 = -1;
        while dy <= 1
            invariant
                has_neighbours(center),
                -1 <= dx <= 1,
                -1 <= dy <= 2,
                chunks@.len() == 3 * (dx + 1) + (dy + 1),
                forall|i: int|
                    0 <= i < chunks@.len() ==> #[trigger] chunks@[i] == neighbourhood(center)[i],
            decreases 2 - dy,
        {
            chunks.push(ChunkCoord { x: center.x + dx, y: center.y + dy });
            dy = dy + 1;
        }
        dx = dx + 1;
    }
    assert(chunks@ =~= neighbourhood(center));
    chunks
}

/// The chunks generated when the terrain is first set up: the neighbourhood of the
/// origin chunk.
pub fn initial_chunks() -> (chunks: Vec<ChunkCoord>)
    ensures
        chunks@ == neighbourhood(ChunkCoord { x: 0, y: 0 }),
{
    chunks_around(ChunkCoord { x: 0, y: 0 })
}

/// The chunks of a list of store entries.
pub open spec fn keys_of<H>(entries: Seq<(ChunkCoord, H)>) -> Seq<ChunkCoord> {
    entries.map_values(|e: (ChunkCoord, H)| e.0)
}

/// Whether the entry's chunk is one of `chunks`.
pub open spec fn entry_in<H>(chunks: Seq<ChunkCoord>) -> spec_fn((ChunkCoord, H)) -> bool {
    |e: (ChunkCoord, H)| chunks.contains(e.0)
}

/// Whether the entry's chunk is not one of `chunks`.
pub open spec fn entry_outside<H>(chunks: Seq<ChunkCoord>) -> spec_fn((ChunkCoord, H)) -> bool {
    |e: (ChunkCoord, H)| !chunks.contains(e.0)
}

/// The meshes of the chunks generated so far, one entry per chunk, in the order the
/// chunks were added.
pub struct TerrainStore<H> {
    entries: Vec<(ChunkCoord, H)>,
}

impl<H> View for TerrainStore<H> {
    type V = Seq<(ChunkCoord, H)>;

    closed spec fn view(&self) -> Seq<(ChunkCoord, H)> {
        self.entries@
    }
}

impl<H> TerrainStore<H> {
    /// No chunk has two entries.
    pub open spec fn wf(&self) -> bool {
        keys_of(self@).no_duplicates()
    }

    /// An empty store.
    pub fn new() -> (store: Self)
        ensures
            store@ == Seq::<(ChunkCoord, H)>::empty(),
            store.wf(),
    {
        TerrainStore { entries: Vec::new() }
    }

    /// The number of chunks stored.
    pub fn len(&self) -> (n: usize)
        ensures
            n == self@.len(),
    {
        self.entries.len()
    }

    /// Where the entry of `chunk` is, if there is one.
    fn position(&self, chunk: ChunkCoord) -> (found: Option<usize>)
        ensures
            match found {
                Some(i) => i < self@.len() && self@[i as int].0 == chunk,
                None => !keys_of(self@).contains(chunk),
            },
    {
        let mut i: usize = 0;
        while i < self.entries.len()
            invariant
                i <= self@.len(),
                forall|j: int| 0 <= j < i ==> (#[trigger] self@[j]).0 != chunk,
            decreases self@.len() - i,
        {
            if self.entries[i].0 == chunk {
                return Some(i);
            }
            i = i + 1;
        }
        assert(!keys_of(self@).contains(chunk)) by {
            if keys_of(self@).contains(chunk) {
                let j = choose|j: int| 0 <= j < keys_of(self@).len() && keys_of(self@)[j] == chunk;
                assert(self@[j].0 == chunk);
            }
        }
        None
    }

    /// Whether `chunk` has an entry.
    pub fn contains(&self, chunk: ChunkCoord) -> (b: bool)
        ensures
            b == keys_of(self@).contains(chunk),
    {
        match self.position(chunk) {
            Some(i) => {
                assert(keys_of(self@)[i as int] == chunk);
                true
            },
            None => false,
        }
    }

    /// Stores `handle` for `chunk`, replacing and returning the handle it had, if any.
    pub fn insert(&mut self, chunk: ChunkCoord, handle: H) -> (previous: Option<H>)
        requires
            old(self).wf(),
        ensures
            final(self).wf(),
            keys_of(old(self)@).contains(chunk) ==> exists|i: int|
                0 <= i < old(self)@.len() && old(self)@[i].0 == chunk && final(self)@ == old(
                    self,
                )@.update(i, (chunk, handle)) && previous == Some(old(self)@[i].1),
            !keys_of(old(self)@).contains(chunk) ==> final(self)@ == old(self)@.push(
                (chunk, handle),
            ) && previous is None,
    {
        let ghost before = self@;
        match self.position(chunk) {
            Some(i) => {
                let old_entry = self.entries.remove(i);
                self.entries.insert(i, (chunk, handle));
                assert(self@ =~= before.update(i as int, (chunk, handle)));
                assert(keys_of(self@) =~= keys_of(before));
                assert(keys_of(before)[i as int] == chunk);
                Some(old_entry.1)
            },
            None => {
                self.entries.push((chunk, handle));
                assert(keys_of(self@) =~= keys_of(before).push(chunk));
                None
            },
        }
    }

    /// Removes the entry of `chunk` and returns its handle, if it has one.
    pub fn remove(&mut self, chunk: ChunkCoord) -> (removed: Option<H>)
        requires
            old(self).wf(),
        ensures
            final(self).wf(),
            keys_of(old(self)@).contains(chunk) ==> exists|i: int|
                0 <= i < old(self)@.len() && old(self)@[i].0 == chunk && final(self)@ == old(
                    self,
                )@.remove(i) && removed == Some(old(self)@[i].1),
            !keys_of(old(self)@).contains(chunk) ==> final(self)@ == old(self)@ && removed is None,
    {
        let ghost before = self@;
        match self.position(chunk) {
            Some(i) => {
                let entry = self.entries.remove(i);
                assert(keys_of(self@) =~= keys_of(before).remove(i as int));
                assert(keys_of(before)[i as int] == chunk);
                Some(entry.1)
            },
            None => None,
        }
    }

    /// Takes out every entry whose chunk is not one of `keep`, in store order, and
    /// returns them; the others stay, in their order.
    pub fn extract_outside(&mut self, keep: &Vec<ChunkCoord>) -> (extracted: Vec<(ChunkCoord, H)>)
        requires
            old(self).wf(),
        ensures
            final(self).wf(),
            final(self)@ == old(self)@.filter(entry_in(keep@)),
            extracted@ == old(self)@.filter(entry_outside(keep@)),
    {
        let ghost before = self@;
        let mut rest: Vec<(ChunkCoord, H)> = Vec::new();
        std::mem::swap(&mut rest, &mut self.entries);
        let mut kept: Vec<(ChunkCoord, H)> = Vec::new();
        let mut extracted: Vec<(ChunkCoord, H)> = Vec::new();
        let ghost mut done: int = 0;
        while rest.len() > 0
            invariant
                0 <= done <= before.len(),
                rest@ == before.subrange(done, before.len() as int),
                kept@ == before.take(done).filter(entry_in(keep@)),
                extracted@ == before.take(done).filter(entry_outside(keep@)),
            decreases rest@.len(),
        {
            let entry = rest.remove(0);
            let ghost e = before[done];
            assert(before.take(done + 1).drop_last() =~= before.take(done));
            assert(before.take(done + 1).last() == e);
            proof {
                reveal_with_fuel(Seq::filter, 1);
            }
            if contains_chunk(keep, &entry.0) {
                kept.push(entry);
            } else {
                extracted.push(entry);
            }
            proof {
                done = done + 1;
            }
            assert(rest@ =~= before.subrange(done, before.len() as int));
        }
        assert(before.take(done) =~= before);
        self.entries = kept;
        proof {
            lemma_filter_keeps_distinct_keys(before, entry_in(keep@));
        }
        extracted
    }
}

/// Whether `chunk` is one of `chunks`.
pub fn contains_chunk(chunks: &Vec<ChunkCoord>, chunk: &ChunkCoord) -> (b: bool)
    ensures
        b == chunks@.contains(*chunk),
{
    let mut i: usize = 0;
    while i < chunks.len()
        invariant
            i <= chunks@.len(),
            forall|j: int| 0 <= j < i ==> chunks@[j] != *chunk,
        decreases chunks@.len() - i,
    {
        if chunks[i] == *chunk {
            assert(chunks@[i as int] == *chunk);
            return true;
        }
        i = i + 1;
    }
    false
}

proof fn lemma_filter_keeps_distinct_keys<H>(
    s: Seq<(ChunkCoord, H)>,
    pred: spec_fn((ChunkCoord, H)) -> bool,
)
    requires
        keys_of(s).no_duplicates(),
    ensures
        keys_of(s.filter(pred)).no_duplicates(),
    decreases s.len(),
{
    reveal_with_fuel(Seq::filter, 1);
    if s.len() > 0 {
        let init = s.drop_last();
        assert(keys_of(init) =~= keys_of(s).drop_last());
        lemma_filter_keeps_distinct_keys(init, pred);
        if pred(s.last()) {
            let f = init.filter(pred);
            assert(keys_of(f.push(s.last())) =~= keys_of(f).push(s.last().0));
            assert(!keys_of(f).contains(s.last().0)) by {
                if keys_of(f).contains(s.last().0) {
                    let j = choose|j: int| 0 <= j < keys_of(f).len() && keys_of(f)[j] == s.last().0;
                    lemma_filter_subset(init, pred, j);
                    let k = choose|k: int| 0 <= k < keys_of(init).len() && keys_of(init)[k] == f[j].0;
                    assert(keys_of(s)[k] == keys_of(s)[s.len() - 1]);
                }
            }
        }
    }
}

proof fn lemma_filter_subset<H>(s: Seq<(ChunkCoord, H)>, pred: spec_fn((ChunkCoord, H)) -> bool, j: int)
    requires
        0 <= j < s.filter(pred).len(),
    ensures
        keys_of(s).contains(s.filter(pred)[j].0),
    decreases s.len(),
{
    reveal_with_fuel(Seq::filter, 1);
    if s.len() > 0 {
        let init = s.drop_last();
        let f = init.filter(pred);
        if pred(s.last()) && j == f.len() {
            assert(keys_of(s)[s.len() - 1] == s.last().0);
        } else {
            lemma_filter_subset(init, pred, j);
            let k = choose|k: int| 0 <= k < keys_of(init).len() && keys_of(init)[k] == f[j].0;
            assert(keys_of(s)[k] == f[j].0);
        }
    }
}

/// What a change of the player's chunk asks for: the store entries given up, whose
/// entities are to be despawned, and the chunks to spawn, each of which is skipped when
/// it already has a mesh.
pub struct ChunkUpdate<H> {
    pub despawn: Vec<(ChunkCoord, H)>,
    pub spawn: Vec<ChunkCoord>,
}

/// Reacts to the player standing in `player_chunk`. When that is the chunk recorded in
/// `current`, nothing changes. Otherwise it becomes the current chunk, the store keeps only
/// the entries of the new neighbourhood, and the update lists the entries given up and the
/// neighbourhood to spawn.
pub fn manage_chunks<H>(
    current: &mut ChunkCoord,
    player_chunk: ChunkCoord,
    store: &mut TerrainStore<H>,
) -> (update: Option<ChunkUpdate<H>>)
    requires
        old(store).wf(),
        *old(current) != player_chunk ==> has_neighbours(player_chunk),
    ensures
        final(store).wf(),
        *old(current) == player_chunk ==> update is None && *final(current) == *old(current)
            && final(store)@ == old(store)@,
        *old(current) != player_chunk ==> {
            &&& *final(current) == player_chunk
            &&& update is Some
            &&& update->0.spawn@ == neighbourhood(player_chunk)
            &&& update->0.despawn@ == old(store)@.filter(entry_outside(neighbourhood(player_chunk)))
            &&& final(store)@ == old(store)@.filter(entry_in(neighbourhood(player_chunk)))
            &&& forall|i: int|
                0 <= i < final(store)@.len() ==> within_one(player_chunk, #[trigger] final(store)@[i].0)
        },
{
    if *current == player_chunk {
        return None;
    }
    *current = player_chunk;
    let spawn = chunks_around(player_chunk);
    let despawn = store.extract_outside(&spawn);
    proof {
        lemma_update_partitions(old(store)@, spawn@);
        assert forall|i: int| 0 <= i < store@.len() implies within_one(player_chunk, #[trigger] store@[i].0) by {
            lemma_neighbourhood(player_chunk, store@[i].0);
        }
    }
    Some(ChunkUpdate { despawn, spawn })
}

/// Law: a chunk update splits the store in two. Every entry either stays, when its chunk
/// is in the new neighbourhood, or is given up, when it is not; none is lost and none is
/// counted twice.
pub proof fn lemma_update_partitions<H>(entries: Seq<(ChunkCoord, H)>, keep: Seq<ChunkCoord>)
    ensures
        forall|i: int|
            0 <= i < entries.filter(entry_in(keep)).len() ==> keep.contains(
                #[trigger] entries.filter(entry_in(keep))[i].0,
            ),
        forall|i: int|
            0 <= i < entries.filter(entry_outside(keep)).len() ==> !keep.contains(
                #[trigger] entries.filter(entry_outside(keep))[i].0,
            ),
        entries.filter(entry_in(keep)).len() + entries.filter(entry_outside(keep)).len()
            == entries.len(),
    decreases entries.len(),
{
    broadcast use vstd::seq_lib::group_filter_ensures;
    reveal_with_fuel(Seq::filter, 1);
    if entries.len() > 0 {
        lemma_update_partitions(entries.drop_last(), keep);
    }
}

/// The command that gives chunk `self.0` a mesh, unless it already has one.
pub struct SpawnTerrain(pub ChunkCoord);

impl SpawnTerrain {
    /// Whether the chunk still needs a mesh: the store has none for it.
    pub fn needs_mesh<H>(&self, store: &TerrainStore<H>) -> (b: bool)
        ensures
            b == !keys_of(store@).contains(self.0),
    {
        !store.contains(self.0)
    }

    /// Records the mesh made for the chunk.
    pub fn record<H>(self, store: &mut TerrainStore<H>, handle: H)
        requires
            old(store).wf(),
            !keys_of(old(store)@).contains(self.0),
        ensures
            final(store).wf(),
            final(store)@ == old(store)@.push((self.0, handle)),
    {
        store.insert(self.0, handle);
    }
}

/// Law: once a chunk's mesh is recorded, spawning the chunk again asks for nothing more.
pub proof fn lemma_spawn_idempotent<H>(entries: Seq<(ChunkCoord, H)>, chunk: ChunkCoord, handle: H)
    ensures
        keys_of(entries.push((chunk, handle))).contains(chunk),
{
    let pushed = entries.push((chunk, handle));
    assert(keys_of(pushed)[entries.len() as int] == chunk);
}

/// Sets the terrain up: registers a loading step under a fresh version-4 id, asks for the
/// neighbourhood of the origin chunk, and marks that step done, so the steps end as they
/// were less that id. The spawn commands are returned in the order they are
/// queued.
pub fn setup_terrain(loading: &mut LoadingResource) -> (spawns: Vec<SpawnTerrain>)
    ensures
        spawns@.len() == 9,
        forall|i: int|
            0 <= i < 9 ==> (#[trigger] spawns@[i]).0 == neighbourhood(ChunkCoord { x: 0, y: 0 })[i],
        exists|id: u128|
            (id >> 76u128) & 0xf == 4 && (id >> 62u128) & 0x3 == 2
                && final(loading).loading_steps@ == old(loading).loading_steps@.remove(id),
{
    let id = loading.begin_step();
    let chunks = initial_chunks();
    let mut spawns: Vec<SpawnTerrain> = Vec::new();
    let mut i: usize = 0;
    while i < chunks.len()
        invariant
            chunks@ == neighbourhood(ChunkCoord { x: 0, y: 0 }),
            i <= chunks@.len(),
            spawns@.len() == i,
            forall|j: int| 0 <= j < i ==> (#[trigger] spawns@[j]).0 == chunks@[j],
        decreases chunks@.len() - i,
    {
        spawns.push(SpawnTerrain(chunks[i]));
        i = i + 1;
    }
    let ghost before = loading.loading_steps@;
    loading.end_step(id);
    assert(loading.loading_steps@ =~= old(loading).loading_steps@.insert(id).remove(id));
    assert(old(loading).loading_steps@.insert(id).remove(id) =~= old(loading).loading_steps@.remove(id));
    spawns
}

} // verus!
