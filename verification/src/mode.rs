//! The direction in which a filter transforms content.

use vstd::prelude::*;

verus! {

/// Engine code for the direction object database → working copy.
pub const FILTER_TO_WORKTREE: u32 = 0;

/// Engine code for the direction working copy → object database.
pub const FILTER_TO_ODB: u32 = 1;

/// Direction of a content transformation.
#[derive(Clone, Copy, PartialEq, Eq, Debug, Structural)]
pub enum FilterMode {
    /// Towards the working copy.
    Smudge,
    /// Towards the object database.
    Clean,
}

/// Whether `raw` is one of the two direction codes the engine uses.
pub open spec fn is_mode_code(raw: u32) -> bool {
    raw == FILTER_TO_WORKTREE || raw == FILTER_TO_ODB
}

/// The engine code that stands for a direction.
pub open spec fn mode_code(mode: FilterMode) -> u32 {
    match mode {
        FilterMode::Smudge => FILTER_TO_WORKTREE,
        FilterMode::Clean => FILTER_TO_ODB,
    }
}

/// The direction that an engine code stands for.
pub open spec fn mode_of_code(raw: u32) -> FilterMode
    recommends
        is_mode_code(raw),
{
    if raw == FILTER_TO_WORKTREE {
        FilterMode::Smudge
    } else {
        FilterMode::Clean
    }
}

impl FilterMode {
    /// Reads a direction from the engine's code. Any other code is a breach
    /// of the engine's contract and is not accepted.
    pub fn from_raw(raw: u32) -> (mode: FilterMode)
        requires
            is_mode_code(raw),
        ensures
            mode == mode_of_code(raw),
            mode_code(mode) == raw,
    {
        if raw == FILTER_TO_WORKTREE {
            FilterMode::Smudge
        } else {
            FilterMode::Clean
        }
    }

    /// Reads a direction from an integer that may or may not be a direction
    /// code; `None` exactly when it is not.
    pub fn try_from_raw(raw: u32) -> (mode: Option<FilterMode>)
        ensures
            is_mode_code(raw) ==> mode == Some(mode_of_code(raw)),
            !is_mode_code(raw) ==> mode.is_none(),
    {
        if raw == FILTER_TO_WORKTREE || raw == FILTER_TO_ODB {
            Some(FilterMode::from_raw(raw))
        } else {
            None
        }
    }

    /// The engine's code for this direction.
    pub fn raw(&self) -> (raw: u32)
        ensures
            raw == mode_code(*self),
            is_mode_code(raw),
            mode_of_code(raw) == *self,
    {
        match self {
            FilterMode::Smudge => FILTER_TO_WORKTREE,
            FilterMode::Clean => FILTER_TO_ODB,
        }
    }
}

/// A direction survives the trip to the engine's code and back, and the two
/// directions have different codes.
pub proof fn lemma_mode_round_trip(m: FilterMode)
    ensures
        is_mode_code(mode_code(m)),
        mode_of_code(mode_code(m)) == m,
        forall|n: FilterMode| mode_code(n) == mode_code(m) ==> n == m,
{
}

} // verus!
