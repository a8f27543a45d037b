//! The synchronisation flag and its string tokens.

use vstd::prelude::*;
use crate::text::str_equal;

verus! {

/// Whether background synchronisation is running or paused.
#[derive(Clone, Copy, Debug, PartialEq, Eq, Structural)]
pub enum SyncState {
    Running,
    Paused,
}

/// The token that selects `Paused`.
pub const PAUSED_TOKEN: &'static str = "paused";

/// The token that reports `Running`.
pub const RUNNING_TOKEN: &'static str = "running";

impl SyncState {
    /// The other state.
    pub open spec fn toggled_spec(self) -> SyncState {
        match self {
            SyncState::Running => SyncState::Paused,
            SyncState::Paused => SyncState::Running,
        }
    }

    /// The state that a token stands for: `"paused"` is `Paused`, every other
    /// text is `Running`.
    pub open spec fn from_token_spec(token: Seq<char>) -> SyncState {
        if token == PAUSED_TOKEN@ {
            SyncState::Paused
        } else {
            SyncState::Running
        }
    }

    /// The token that reports a state.
    pub open spec fn token_spec(self) -> Seq<char> {
        match self {
            SyncState::Running => RUNNING_TOKEN@,
            SyncState::Paused => PAUSED_TOKEN@,
        }
    }

    pub fn toggled(self) -> (next: SyncState)
        ensures
            next == self.toggled_spec(),
    {
        match self {
            SyncState::Running => SyncState::Paused,
            SyncState::Paused => SyncState::Running,
        }
    }

    pub fn from_token(token: &str) -> (state: SyncState)
        ensures
            state == Self::from_token_spec(token@),
    {
        if str_equal(token, PAUSED_TOKEN) {
            SyncState::Paused
        } else {
            SyncState::Running
        }
    }

    pub fn token(self) -> (text: String)
        ensures
            text@ == self.token_spec(),
    {
        match self {
            SyncState::Running => RUNNING_TOKEN.to_owned(),
            SyncState::Paused => PAUSED_TOKEN.to_owned(),
        }
    }
}

/// Toggling twice gives back the state that was there.
pub proof fn lemma_toggle_involution(state: SyncState)
    ensures
        state.toggled_spec().toggled_spec() == state,
        state.toggled_spec() != state,
{
}

/// The token of a state stands for that state.
pub proof fn lemma_token_round_trip(state: SyncState)
    ensures
        SyncState::from_token_spec(state.token_spec()) == state,
{
    reveal_strlit("paused");
    reveal_strlit("running");
    assert(RUNNING_TOKEN@.len() == 7);
    assert(PAUSED_TOKEN@.len() == 6);
}

} // verus!
