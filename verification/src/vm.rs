use vstd::prelude::*;

verus! {

/// The switch that an embedding program keeps for a run: whether to report
/// what the machine does.
#[derive(Clone, Copy, Debug, PartialEq, Eq, Structural)]
pub struct Vm {
    pub debug: bool,
}

impl Vm {
    /// A switch in the given position.
    pub fn new(debug: bool) -> (r: Self)
        ensures
            r == (Vm { debug }),
    {
        Vm { debug: debug }
    }
}

} // verus!
