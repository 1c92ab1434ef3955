use vstd::prelude::*;

verus! {

/// The sound effects the daemon plays.
#[derive(Debug, Clone, Copy, PartialEq, Eq, Structural)]
pub enum Effect {
    Start,
    Stop,
    Paste,
    Cancel,
}

} // verus!
