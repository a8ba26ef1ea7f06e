use vstd::prelude::*;

verus! {

/// What the program was started with.
#[derive(Debug, Clone, Copy, PartialEq, Eq, Default)]
pub struct Arg {
    /// Whether the handlers that exist for testing only are offered.
    pub debug: bool,
}

} // verus!
