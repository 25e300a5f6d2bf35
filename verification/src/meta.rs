//! Meta is the information that "flows backward" in the graph, against the
//! direction of normal data.

use vstd::prelude::*;

verus! {

/// A quality norm used to find a trade-off between quality and performance.
///
/// This is an informative demand to nodes, which may comply with it, define
/// their own level of quality, or ignore it completely; the graph does not
/// enforce compliance.
#[derive(Debug, Clone, Copy, PartialEq, Eq, Structural)]
pub enum Quality {
    /// The highest reasonable quality setting, used for rendering.
    Highest,
    /// A balanced quality, made to be used the most; should run in real
    /// time.
    Balanced,
    /// A performance setting; must run in real time on most computers.
    Performance,
    /// The lowest quality, used for placeholders, e.g. an input that is
    /// executed only for temporal consistency but never rendered.
    Lowest,
}

impl Quality {
    /// The position of this level in the quality order: `Highest` ranks
    /// highest, `Lowest` ranks lowest.
    pub fn rank(&self) -> (r: u8)
        ensures
            r == self.rank_spec(),
    {
        match self {
            Quality::Highest => 3,
            Quality::Balanced => 2,
            Quality::Performance => 1,
            Quality::Lowest => 0,
        }
    }

    /// Spec view of [`Quality::rank`].
    pub open spec fn rank_spec(self) -> u8 {
        match self {
            Quality::Highest => 3u8,
            Quality::Balanced => 2u8,
            Quality::Performance => 1u8,
            Quality::Lowest => 0u8,
        }
    }
}

/// Meta is the information given to each node to describe the context of
/// its execution; it flows backward through every fold call.
#[derive(Debug, Clone, Copy, PartialEq, Eq, Structural)]
pub struct Meta {
    /// A tick incrementing on each frame of execution.
    pub tick: u64,
    /// A quality norm used to find a trade-off between quality and
    /// performance.
    pub quality: Quality,
}

} // verus!
