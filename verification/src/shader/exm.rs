//! The example shader's entry points.
use vstd::prelude::*;
use crate::shader::slib::HelperEntry;

verus! {

/// The example shader's entry points.
#[derive(Clone, Copy, Debug, PartialEq, Eq, Hash, Structural)]
pub enum HelloEntries {
    Main,
    Update,
}

/// The position of an entry point's pipeline in the shader's pipeline list.
pub open spec fn hello_key(entry: HelloEntries) -> usize {
    match entry {
        HelloEntries::Main => 0,
        HelloEntries::Update => 1,
    }
}

impl HelperEntry for HelloEntries {
    fn as_key(&self) -> (key: usize)
        ensures
            key == hello_key(*self),
    {
        match self {
            HelloEntries::Main => 0,
            HelloEntries::Update => 1,
        }
    }
}

} // verus!
