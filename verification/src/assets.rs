//! Asset loading progress reports.
use vstd::prelude::*;

verus! {

/// Whether the number of finished loading tasks has grown since the last report; if so it
/// becomes the new last count, and the progress is reported.
pub fn progress_advanced(last_done: &mut u32, done: u32) -> (advanced: bool)
    ensures
        advanced == (done > *old(last_done)),
        advanced ==> *final(last_done) == done,
        !advanced ==> *final(last_done) == *old(last_done),
{
    if done > *last_done {
        *last_done = done;
        true
    } else {
        false
    }
}

} // verus!
