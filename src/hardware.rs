use vstd::prelude::*;

verus! {

/// Handle to the hardware side of the client SDK; it carries no state.
#[derive(Debug, Clone, Copy, PartialEq, Eq, Structural)]
pub struct Hardware {}

impl Hardware {
    pub fn new() -> (r: Self)
        ensures
            r == (Hardware {}),
    {
        Self {}
    }
}

} // verus!
