//! Debug controls: the debug window and the wireframe view, each toggled by a key, and the
//! debug value shared with the render world.
use vstd::prelude::*;

verus! {

/// Side length of the voxel chunk the debug layer slider runs over.
pub const CHUNK_SIZE: u32 = 32;

/// Whether the debug window is shown.
#[derive(Clone, Copy, Debug, PartialEq, Eq, Hash, Structural)]
pub enum DebugState {
    Open,
    Closed,
}

/// Whether meshes are drawn as wireframes.
#[derive(Clone, Copy, Debug, PartialEq, Eq, Hash, Structural)]
pub enum WireframeState {
    On,
    Off,
}

/// What a wireframe toggle does to the objects that can be drawn as wireframes.
#[derive(Clone, Copy, Debug, PartialEq, Eq, Hash, Structural)]
pub enum WireframeAction {
    /// Add the wireframe marker to every such object.
    Insert,
    /// Take the wireframe marker off every such object.
    Remove,
}

impl DebugState {
    /// The debug window starts closed.
    pub fn default() -> (s: Self)
        ensures
            s == DebugState::Closed,
    {
        DebugState::Closed
    }

    /// The other state.
    pub open spec fn flipped(self) -> Self {
        match self {
            DebugState::Open => DebugState::Closed,
            DebugState::Closed => DebugState::Open,
        }
    }
}

impl WireframeState {
    /// Wireframes start off.
    pub fn default() -> (s: Self)
        ensures
            s == WireframeState::Off,
    {
        WireframeState::Off
    }

    /// The other state.
    pub open spec fn flipped(self) -> Self {
        match self {
            WireframeState::On => WireframeState::Off,
            WireframeState::Off => WireframeState::On,
        }
    }
}

/// The state to set when the debug key has been pressed this frame: the other one. When
/// it has not, there is nothing to set.
pub fn toggle_debug(just_pressed: bool, state: DebugState) -> (next: Option<DebugState>)
    ensures
        just_pressed ==> next == Some(state.flipped()),
        !just_pressed ==> next is None,
{
    if just_pressed {
        match state {
            DebugState::Open => Some(DebugState::Closed),
            DebugState::Closed => Some(DebugState::Open),
        }
    } else {
        None
    }
}

/// When the wireframe key has been pressed this frame: the state to set, the other one,
/// and what to do to the objects, so that they are drawn as wireframes exactly when the
/// new state is on. When it has not, nothing happens.
pub fn toggle_wireframe(just_pressed: bool, state: WireframeState) -> (next: Option<
    (WireframeState, WireframeAction),
>)
    ensures
        !just_pressed ==> next is None,
        just_pressed ==> next is Some && (next->0).0 == state.flipped(),
        just_pressed ==> ((next->0).1 == WireframeAction::Insert <==> (next->0).0 == WireframeState::On),
{
    if just_pressed {
        match state {
            WireframeState::On => Some((WireframeState::Off, WireframeAction::Remove)),
            WireframeState::Off => Some((WireframeState::On, WireframeAction::Insert)),
        }
    } else {
        None
    }
}

/// Law: toggling twice gives back the state one started from.
pub proof fn lemma_toggle_twice(d: DebugState, w: WireframeState)
    ensures
        d.flipped().flipped() == d,
        w.flipped().flipped() == w,
        d.flipped() != d,
        w.flipped() != w,
{
}

/// The debug value sent to the render world: the voxel layer to show.
#[derive(Clone, Copy, Debug)]
pub struct DebugResource {
    pub value: u32,
}

impl DebugResource {
    /// Layer zero.
    pub fn default() -> (r: Self)
        ensures
            r.value == 0,
    {
        DebugResource { value: 0 }
    }

    /// Takes over the value received from the main world.
    pub fn update(&mut self, other: Self)
        ensures
            final(self).value == other.value,
    {
        self.value = other.value;
    }
}

/// The highest layer the debug slider offers: the last layer of the chunk.
pub fn max_layer() -> (layer: u32)
    ensures
        layer == CHUNK_SIZE - 1,
{
    CHUNK_SIZE - 1
}

} // verus!
