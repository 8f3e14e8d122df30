//! Plain values that stand for what the hardware layer hands out.

use vstd::prelude::*;

verus! {

/// One of the sample rates the mixer can run at.
#[derive(Clone, Copy, Debug, PartialEq, Eq, Structural)]
pub enum Frequency {
    Hz10512,
    Hz18157,
    Hz32768,
}

/// A mixer made from the mixer controller.
#[derive(Clone, Copy, Debug, PartialEq, Eq, Structural)]
pub struct Mixer {
    /// The sample rate it was made with.
    pub frequency: Frequency,
    /// Whether it has been switched on.
    pub enabled: bool,
}

/// The sound chip's controller, as the setup holds it.
#[derive(Clone, Copy, Debug, PartialEq, Eq, Structural)]
pub enum Chip {
    /// None was taken.
    Absent,
    /// Taken from the table and not switched on yet.
    Raw,
    /// Switched on.
    Enabled,
}

/// The mixer's controller, as the setup holds it.
#[derive(Clone, Copy, Debug, PartialEq, Eq, Structural)]
pub enum Controller {
    /// None was taken.
    Absent,
    /// Taken from the table, owned by the setup.
    Owned,
    /// Promoted to an allocation that lives as long as the process.
    Leaked,
    /// Borrowed for good by the mixer that was made from it.
    Lent,
}

} // verus!
