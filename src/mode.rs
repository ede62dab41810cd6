use vstd::prelude::*;

verus! {

/// The editor's input context; each mode has its own chord table.
#[derive(Debug, Clone, Copy, PartialEq, Eq, Hash, Structural)]
pub enum Mode {
    Normal,
    Insert,
    Command,
}

} // verus!
