use vstd::prelude::*;

verus! {

/// How much diagnostic output a component wants to see. Levels are ordered
/// from the most talkative (`Verbose`) to the most quiet (`Error`).
#[derive(Clone, Copy, Debug, PartialEq, Eq, Structural)]
pub enum DebugLevel {
    Verbose,
    Info,
    Warning,
    Error,
}

impl DebugLevel {
    /// Position of the level in the order `Verbose < Info < Warning < Error`.
    pub open spec fn rank(self) -> nat {
        match self {
            DebugLevel::Verbose => 0,
            DebugLevel::Info => 1,
            DebugLevel::Warning => 2,
            DebugLevel::Error => 3,
        }
    }

    /// Executable form of [`DebugLevel::rank`].
    pub fn level(&self) -> (r: u8)
        ensures
            r as nat == self.rank(),
    {
        match self {
            DebugLevel::Verbose => 0,
            DebugLevel::Info => 1,
            DebugLevel::Warning => 2,
            DebugLevel::Error => 3,
        }
    }

    /// Whether a message tagged with `filter_level` is shown by a component
    /// whose configured level is `self`: it is shown exactly when the
    /// configured level is not below the message's level.
    pub fn admits(&self, filter_level: DebugLevel) -> (r: bool)
        ensures
            r == (self.rank() >= filter_level.rank()),
    {
        self.level() >= filter_level.level()
    }
}

} // verus!
