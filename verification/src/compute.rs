//! The compute shader examples: decoding the words read back from the GPU, the size of the
//! readback buffer, and the stages of the sphere shader's render node.
use vstd::prelude::*;
use vstd::endian::{Endian, endianness};
use crate::shader::slib::{PipelineState, steps_up_by_one, lemma_ranks_monotone};

verus! {

/// Number of elements in each readback buffer.
pub const BUFFER_LEN: usize = 16;

/// Side length of the voxel chunk of the sphere shader, in voxels.
pub const CHUNK_SIZE: u32 = 32;

/// The little-endian value of four bytes.
pub open spec fn u32_from_le(b: Seq<u8>) -> u32 {
    (b[0] + 0x100 * b[1] + 0x1_0000 * b[2] + 0x100_0000 * b[3]) as u32
}

/// The big-endian value of four bytes.
pub open spec fn u32_from_be(b: Seq<u8>) -> u32 {
    (b[3] + 0x100 * b[2] + 0x1_0000 * b[1] + 0x100_0000 * b[0]) as u32
}

/// The value of four bytes in the byte order of the machine the code runs on, which vstd
/// names `endianness()`.
pub open spec fn u32_from_native(b: Seq<u8>) -> u32 {
    match endianness() {
        Endian::Little => u32_from_le(b),
        Endian::Big => u32_from_be(b),
    }
}

/// Calls `zerocopy::FromBytes::read_from_bytes` for `u32`, keeping the value and dropping
/// the error. As its documentation says, it fails exactly when `bytes` is not four bytes
/// long, and otherwise reads a copy of the bytes as a `u32`, that is, in the byte order of
/// the machine it runs on: vstd's `endianness()`, little- or big-endian.
#[verifier::external_body]
fn read_u32(bytes: &[u8]) -> (value: Option<u32>)
    ensures
        value is Some <==> bytes@.len() == 4,
        value matches Some(v) ==> v == u32_from_le(bytes@) || v == u32_from_be(bytes@),
        value matches Some(v) ==> v == u32_from_native(bytes@),
{
    <u32 as zerocopy::FromBytes>::read_from_bytes(bytes).ok()
}

/// Whether `v` is the value of the four bytes `b`, in one byte order or the other.
pub open spec fn decodes(v: u32, b: Seq<u8>) -> bool {
    v == u32_from_le(b) || v == u32_from_be(b)
}

/// The words of a buffer: each four bytes in turn, read in the machine's byte order.
pub open spec fn decoded_words(bytes: Seq<u8>) -> Seq<u32> {
    Seq::new(bytes.len() / 4, |i: int| u32_from_native(bytes.subrange(4 * i, 4 * i + 4)))
}

/// Law: every word of a buffer is read in the one byte order of the machine: on a
/// little-endian machine word `i` is `b[4i] + 2^8 b[4i+1] + 2^16 b[4i+2] + 2^24 b[4i+3]`,
/// on a big-endian one `b[4i+3] + 2^8 b[4i+2] + 2^16 b[4i+1] + 2^24 b[4i]`, and the counter
/// is the first word.
pub proof fn lemma_words_in_machine_order(bytes: Seq<u8>)
    requires
        bytes.len() % 4 == 0,
    ensures
        decoded_words(bytes).len() == bytes.len() / 4,
        endianness() == Endian::Little ==> forall|i: int|
            0 <= i < bytes.len() / 4 ==> #[trigger] decoded_words(bytes)[i] == bytes[4 * i] + 0x100
                * bytes[4 * i + 1] + 0x1_0000 * bytes[4 * i + 2] + 0x100_0000 * bytes[4 * i + 3],
        endianness() == Endian::Big ==> forall|i: int|
            0 <= i < bytes.len() / 4 ==> #[trigger] decoded_words(bytes)[i] == bytes[4 * i + 3]
                + 0x100 * bytes[4 * i + 2] + 0x1_0000 * bytes[4 * i + 1] + 0x100_0000 * bytes[4 * i],
        bytes.len() >= 4 ==> decoded_words(bytes)[0] == u32_from_native(bytes.subrange(0, 4)),
{
    assert forall|i: int| 0 <= i < bytes.len() / 4 implies {
        &&& endianness() == Endian::Little ==> #[trigger] decoded_words(bytes)[i] == bytes[4 * i] + 0x100
            * bytes[4 * i + 1] + 0x1_0000 * bytes[4 * i + 2] + 0x100_0000 * bytes[4 * i + 3]
        &&& endianness() == Endian::Big ==> decoded_words(bytes)[i] == bytes[4 * i + 3] + 0x100 * bytes[4
            * i + 2] + 0x1_0000 * bytes[4 * i + 1] + 0x100_0000 * bytes[4 * i]
    } by {
        lemma_word_value(bytes, i);
    }
}

proof fn lemma_word_value(bytes: Seq<u8>, i: int)
    requires
        bytes.len() % 4 == 0,
        0 <= i < bytes.len() / 4,
    ensures
        u32_from_le(bytes.subrange(4 * i, 4 * i + 4)) == bytes[4 * i] + 0x100 * bytes[4 * i + 1]
            + 0x1_0000 * bytes[4 * i + 2] + 0x100_0000 * bytes[4 * i + 3],
        u32_from_be(bytes.subrange(4 * i, 4 * i + 4)) == bytes[4 * i + 3] + 0x100 * bytes[4 * i + 2]
            + 0x1_0000 * bytes[4 * i + 1] + 0x100_0000 * bytes[4 * i],
{
    let b = bytes.subrange(4 * i, 4 * i + 4);
    assert(b[0] == bytes[4 * i] && b[1] == bytes[4 * i + 1] && b[2] == bytes[4 * i + 2] && b[3]
        == bytes[4 * i + 3]);
    let (b0, b1, b2, b3) = (b[0], b[1], b[2], b[3]);
    assert(b0 + 0x100 * b1 + 0x1_0000 * b2 + 0x100_0000 * b3 <= 0xffff_ffff);
    assert(b3 + 0x100 * b2 + 0x1_0000 * b1 + 0x100_0000 * b0 <= 0xffff_ffff);
}

/// Decodes a mapped readback buffer into its `u32` words, four bytes each. A buffer whose
/// length is not a multiple of four ends in a short chunk, which cannot be read.
pub fn decode_words(bytes: &[u8]) -> (words: Vec<u32>)
    requires
        bytes@.len() % 4 == 0,
    ensures
        words@.len() == bytes@.len() / 4,
        forall|i: int|
            0 <= i < words@.len() ==> decodes(
                #[trigger] words@[i],
                bytes@.subrange(4 * i, 4 * i + 4),
            ),
        words@ == decoded_words(bytes@),
{
    let mut words: Vec<u32> = Vec::new();
    let mut start: usize = 0;
    while start < bytes.len()
        invariant
            bytes@.len() % 4 == 0,
            start % 4 == 0,
            start <= bytes@.len(),
            words@.len() == start / 4,
            forall|i: int|
                0 <= i < words@.len() ==> decodes(
                    #[trigger] words@[i],
                    bytes@.subrange(4 * i, 4 * i + 4),
                ),
            forall|i: int|
                0 <= i < words@.len() ==> #[trigger] words@[i] == u32_from_native(
                    bytes@.subrange(4 * i, 4 * i + 4),
                ),
        decreases bytes@.len() - start,
    {
        let chunk = &bytes[start..start + 4];
        let word = read_u32(chunk).unwrap();
        words.push(word);
        start = start + 4;
    }
    assert(words@ =~= decoded_words(bytes@));
    words
}

/// Decodes the counter at the start of the atomic buffer's readback: its first four bytes.
pub fn decode_counter(bytes: &[u8]) -> (value: u32)
    requires
        bytes@.len() >= 4,
    ensures
        decodes(value, bytes@.subrange(0, 4)),
        value == u32_from_native(bytes@.subrange(0, 4)),
{
    read_u32(&bytes[0..4]).unwrap()
}

/// Size in bytes of a readback buffer of `BUFFER_LEN` elements of `element_size` bytes.
pub fn readback_buffer_size(element_size: usize) -> (size: u64)
    requires
        BUFFER_LEN * element_size <= usize::MAX,
    ensures
        size == BUFFER_LEN * element_size,
{
    (BUFFER_LEN * element_size) as u64
}

/// The stages of the sphere shader's render node.
#[derive(Clone, Copy, Debug, PartialEq, Eq, Hash, Structural)]
pub enum SphereComputeState {
    Loading,
    Init,
    Update,
}

/// Which pipeline a frame of the sphere shader runs, with its workgroup counts.
#[derive(Clone, Copy, Debug, PartialEq, Eq, Structural)]
pub enum SpherePass {
    /// Fill the voxel chunk.
    Init(u32, u32, u32),
    /// Take a slice of the chunk, then copy the atomic counter back.
    Update(u32, u32, u32),
}

/// The rank of a stage of the sphere shader's node: stages only ever move to the next rank.
pub open spec fn sphere_rank(state: SphereComputeState) -> int {
    match state {
        SphereComputeState::Loading => 0,
        SphereComputeState::Init => 1,
        SphereComputeState::Update => 2,
    }
}

/// The stage the sphere shader's node moves to, given the states of its init and update
/// pipelines: loading turns to init once the init pipeline is ready, init turns to update
/// once the update pipeline is.
pub open spec fn sphere_next(
    state: SphereComputeState,
    init: PipelineState,
    update: PipelineState,
) -> SphereComputeState {
    match state {
        SphereComputeState::Loading => if init == PipelineState::Ready {
            SphereComputeState::Init
        } else {
            SphereComputeState::Loading
        },
        SphereComputeState::Init => if update == PipelineState::Ready {
            SphereComputeState::Update
        } else {
            SphereComputeState::Init
        },
        SphereComputeState::Update => SphereComputeState::Update,
    }
}

/// Law: each stage of the sphere shader's node waits on one pipeline and on no other:
/// loading on the init pipeline, init on the update pipeline. A stage moves on exactly
/// when its own pipeline is ready, whatever the state of the other, and the update stage
/// never moves.
pub proof fn lemma_sphere_waits_on_its_pipeline(
    init: PipelineState,
    update: PipelineState,
    other_init: PipelineState,
    other_update: PipelineState,
)
    ensures
        sphere_next(SphereComputeState::Loading, init, update) == sphere_next(
            SphereComputeState::Loading,
            init,
            other_update,
        ),
        (sphere_next(SphereComputeState::Loading, init, update) == SphereComputeState::Init)
            <==> init == PipelineState::Ready,
        sphere_next(SphereComputeState::Init, init, update) == sphere_next(
            SphereComputeState::Init,
            other_init,
            update,
        ),
        (sphere_next(SphereComputeState::Init, init, update) == SphereComputeState::Update)
            <==> update == PipelineState::Ready,
        sphere_next(SphereComputeState::Update, init, update) == SphereComputeState::Update,
{
}

/// Whether `states` is what the sphere shader's node goes through when it is fed the init
/// and update pipeline states `inputs`, one pair per frame.
pub open spec fn is_sphere_run(
    states: Seq<SphereComputeState>,
    inputs: Seq<(PipelineState, PipelineState)>,
) -> bool {
    &&& states.len() == inputs.len() + 1
    &&& forall|k: int|
        0 <= k < inputs.len() ==> states[k + 1] == sphere_next(
            states[k],
            (#[trigger] inputs[k]).0,
            inputs[k].1,
        )
}

/// Law: over any run of the sphere shader's node, whatever the pipeline states, the stage
/// never moves back, moves on by at most one stage per frame, and once in the update stage
/// stays there.
pub proof fn lemma_sphere_run(
    states: Seq<SphereComputeState>,
    inputs: Seq<(PipelineState, PipelineState)>,
)
    requires
        is_sphere_run(states, inputs),
    ensures
        forall|i: int, j: int|
            #![trigger states[i], states[j]]
            0 <= i <= j < states.len() ==> sphere_rank(states[i]) <= sphere_rank(states[j]),
        forall|k: int|
            0 <= k < inputs.len() ==> sphere_rank(states[k + 1]) <= sphere_rank(#[trigger] states[k]) + 1,
        forall|i: int, j: int|
            #![trigger states[i], states[j]]
            0 <= i <= j < states.len() && states[i] == SphereComputeState::Update ==> states[j]
                == SphereComputeState::Update,
{
    let ranks = Seq::new(states.len(), |k: int| sphere_rank(states[k]));
    assert forall|i: int, j: int| #![trigger ranks[i], ranks[j]] 0 <= i && j == i + 1 && j < ranks.len()
        implies ranks[i] <= ranks[j] <= ranks[i] + 1 by {
        assert(states[j] == sphere_next(states[i], inputs[i].0, inputs[i].1));
    }
    assert(steps_up_by_one(ranks));
    lemma_ranks_monotone(ranks);
    assert forall|i: int, j: int| #![trigger states[i], states[j]] 0 <= i <= j < states.len() implies sphere_rank(
        states[i],
    ) <= sphere_rank(states[j]) by {
        assert(ranks[i] <= ranks[j]);
    }
    assert forall|k: int| 0 <= k < inputs.len() implies sphere_rank(states[k + 1]) <= sphere_rank(
        #[trigger] states[k],
    ) + 1 by {
        assert(ranks[k] <= ranks[k + 1] <= ranks[k] + 1);
    }
}

impl SphereComputeState {
    /// The next stage: loading turns to init once the init pipeline is ready, init turns to
    /// update once the update pipeline is ready. A failed init pipeline while loading is
    /// fatal.
    pub fn next(self, init: PipelineState, update: PipelineState) -> (next: Self)
        requires
            self == SphereComputeState::Loading ==> init != PipelineState::Failed,
        ensures
            next == sphere_next(self, init, update),
            sphere_rank(next) == sphere_rank(self) || sphere_rank(next) == sphere_rank(self) + 1,
    {
        match self {
            SphereComputeState::Loading => match init {
                PipelineState::Ready => SphereComputeState::Init,
                _ => SphereComputeState::Loading,
            },
            SphereComputeState::Init => match update {
                PipelineState::Ready => SphereComputeState::Update,
                _ => SphereComputeState::Init,
            },
            SphereComputeState::Update => SphereComputeState::Update,
        }
    }

    /// What a frame runs in this stage: nothing while loading, the init pipeline over the
    /// whole chunk, or the update pipeline over one layer of it.
    pub fn pass(self) -> (pass: Option<SpherePass>)
        ensures
            self == SphereComputeState::Loading ==> pass is None,
            self == SphereComputeState::Init ==> pass == Some(
                SpherePass::Init(CHUNK_SIZE, CHUNK_SIZE, CHUNK_SIZE),
            ),
            self == SphereComputeState::Update ==> pass == Some(
                SpherePass::Update(CHUNK_SIZE, CHUNK_SIZE, 1),
            ),
    {
        match self {
            SphereComputeState::Loading => None,
            SphereComputeState::Init => Some(SpherePass::Init(CHUNK_SIZE, CHUNK_SIZE, CHUNK_SIZE)),
            SphereComputeState::Update => Some(SpherePass::Update(CHUNK_SIZE, CHUNK_SIZE, 1)),
        }
    }
}

/// Bytes of the voxel texture: `CHUNK_SIZE^3` texels of four bytes.
pub fn voxel_texture_len() -> (len: usize)
    ensures
        len == CHUNK_SIZE * CHUNK_SIZE * CHUNK_SIZE * 4,
{
    let side = CHUNK_SIZE as usize;
    side * side * side * 4
}

/// Bytes of the debug slice texture: `CHUNK_SIZE^2` texels of four bytes.
pub fn slice_texture_len() -> (len: usize)
    ensures
        len == CHUNK_SIZE * CHUNK_SIZE * 4,
{
    let side = CHUNK_SIZE as usize;
    side * side * 4
}

} // verus!
