//! Loading progress: startup tasks register a step while they run, and loading is
//! complete when no step is left.
use vstd::prelude::*;
use std::collections::HashSet;

verus! {

broadcast use vstd::std_specs::hash::group_hash_axioms;

/// Whether the application is still loading.
#[derive(Clone, Copy, Debug, PartialEq, Eq, Hash, Structural)]
pub enum LoadingState {
    AssetsLoading,
    LoadingComplete,
}

/// The loading steps still running, each by its id.
pub struct LoadingResource {
    pub loading_steps: HashSet<u128>,
}

/// Calls `uuid::Uuid::new_v4` and returns the id as a number, by `Uuid::as_u128`. The
/// id is random; what holds of every outcome, as `new_v4` builds it, is that its
/// version field (bits 76 to 79) is 4 and its variant field (bits 62 and 63) is `10`.
/// Which id comes back is not stated.
#[verifier::external_body]
fn new_step_id() -> (id: u128)
    ensures
        (id >> 76u128) & 0xf == 4,
        (id >> 62u128) & 0x3 == 2,
{
    uuid::Uuid::new_v4().as_u128()
}

impl LoadingResource {
    /// No step running.
    pub fn new() -> (r: Self)
        ensures
            r.loading_steps@ == Set::<u128>::empty(),
    {
        LoadingResource { loading_steps: HashSet::new() }
    }

    /// Registers a new step under a fresh random id, and returns the id.
    pub fn begin_step(&mut self) -> (id: u128)
        ensures
            final(self).loading_steps@ == old(self).loading_steps@.insert(id),
            (id >> 76u128) & 0xf == 4,
            (id >> 62u128) & 0x3 == 2,
    {
        let id = new_step_id();
        self.loading_steps.insert(id);
        id
    }

    /// Marks the step `id` as done.
    pub fn end_step(&mut self, id: u128)
        ensures
            final(self).loading_steps@ == old(self).loading_steps@.remove(id),
    {
        self.loading_steps.remove(&id);
    }
}

/// The state to move to when the steps have changed: complete when no step is left,
/// loading otherwise. When they have not changed, there is nothing to do.
pub fn check_loading_status(changed: bool, loading: &LoadingResource) -> (next: Option<LoadingState>)
    ensures
        !changed ==> next is None,
        changed && loading.loading_steps@.is_empty() ==> next == Some(LoadingState::LoadingComplete),
        changed && !loading.loading_steps@.is_empty() ==> next == Some(LoadingState::AssetsLoading),
{
    if changed {
        if loading.loading_steps.is_empty() {
            Some(LoadingState::LoadingComplete)
        } else {
            Some(LoadingState::AssetsLoading)
        }
    } else {
        None
    }
}

} // verus!
