//! The criterion by which the instance list is ordered.

use vstd::prelude::*;

verus! {

/// The three orderings of the instance list. They are visited in a fixed
/// cycle: `Name`, `LastPlayed`, `Playtime`, and back to `Name`.
#[derive(Debug, Clone, Copy, PartialEq, Eq, Structural)]
pub enum SortMode {
    Name,
    LastPlayed,
    Playtime,
}

impl SortMode {
    /// The mode that follows `self` in the cycle.
    pub open spec fn successor(self) -> SortMode {
        match self {
            SortMode::Name => SortMode::LastPlayed,
            SortMode::LastPlayed => SortMode::Playtime,
            SortMode::Playtime => SortMode::Name,
        }
    }

    /// The label under which the mode is shown.
    pub open spec fn label(self) -> Seq<char> {
        match self {
            SortMode::Name => "Name"@,
            SortMode::LastPlayed => "Last Played"@,
            SortMode::Playtime => "Playtime"@,
        }
    }

    /// Advances to the next mode of the cycle.
    pub fn next(&self) -> (r: SortMode)
        ensures
            r == self.successor(),
    {
        match self {
            SortMode::Name => SortMode::LastPlayed,
            SortMode::LastPlayed => SortMode::Playtime,
            SortMode::Playtime => SortMode::Name,
        }
    }

    /// The label under which the mode is shown.
    pub fn display(&self) -> (r: &'static str)
        ensures
            r@ == self.label(),
    {
        match self {
            SortMode::Name => "Name",
            SortMode::LastPlayed => "Last Played",
            SortMode::Playtime => "Playtime",
        }
    }
}

/// Three steps through the cycle lead back to the starting mode, and no
/// shorter walk does.
pub proof fn lemma_cycle_has_period_three(mode: SortMode)
    ensures
        mode.successor().successor().successor() == mode,
        mode.successor() != mode,
        mode.successor().successor() != mode,
{
}

} // verus!
