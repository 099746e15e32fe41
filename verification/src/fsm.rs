//! The player's finite state machine: a star topology centred on `Idle`.
//!
//! Any state may fall back to `Idle`, and `Idle` may move to any state; every
//! other direct transition is silently rejected.

use vstd::prelude::*;

verus! {

#[derive(Debug, Copy, Clone, PartialOrd, Ord, Eq, PartialEq, Structural)]
pub enum PlayerState {
    Idle,
    Walking,
    /// Movement and look are frozen while the player uses the terminal.
    Interacting,
    Holding,
}

impl Default for PlayerState {
    fn default() -> (r: Self)
        ensures
            r == PlayerState::Idle,
    {
        PlayerState::Idle
    }
}

/// The state a `change_state` call moves the machine to: the requested state
/// where the transition is allowed, the current state otherwise.
pub open spec fn next_state(cur: PlayerState, new: PlayerState) -> PlayerState {
    if cur == PlayerState::Idle || new == PlayerState::Idle {
        new
    } else {
        cur
    }
}

#[derive(Debug, Copy, Clone, PartialOrd, Ord, Eq, PartialEq, Structural)]
pub struct PlayerStateMachine {
    state: PlayerState,
}

impl Default for PlayerStateMachine {
    fn default() -> (r: Self)
        ensures
            r.state() == PlayerState::Idle,
    {
        PlayerStateMachine { state: PlayerState::Idle }
    }
}

impl PlayerStateMachine {
    pub closed spec fn spec_state(&self) -> PlayerState {
        self.state
    }

    #[verifier::when_used_as_spec(spec_state)]
    pub fn state(&self) -> (r: PlayerState)
        ensures
            r == self.spec_state(),
    {
        self.state
    }

    /// Move to `new_state` if the star topology allows it; otherwise leave the
    /// machine unchanged. Callers must not assume the transition succeeded.
    pub fn change_state(&mut self, new_state: PlayerState)
        ensures
            final(self).state() == next_state(old(self).state(), new_state),
    {
        if self.state.is_change_allowed(new_state) {
            self.state = new_state;
        }
    }
}

impl PlayerState {
    /// A transition is allowed exactly when it leaves from or arrives at `Idle`.
    pub fn is_change_allowed(&self, new: Self) -> (r: bool)
        ensures
            r == (*self == PlayerState::Idle || new == PlayerState::Idle),
    {
        match (*self, new) {
            (PlayerState::Idle, _) => true,
            (_, PlayerState::Idle) => true,
            (_, _) => false,
        }
    }
}

/// The transition rule is a star centred on `Idle`: a change between two
/// non-`Idle` states is a no-op, while every transition leaving from or
/// arriving at `Idle` takes effect.
pub proof fn lemma_transitions_form_a_star(cur: PlayerState, new: PlayerState)
    ensures
        cur != PlayerState::Idle && new != PlayerState::Idle ==> next_state(cur, new) == cur,
        cur == PlayerState::Idle ==> next_state(cur, new) == new,
        new == PlayerState::Idle ==> next_state(cur, new) == PlayerState::Idle,
{
}

} // verus!
