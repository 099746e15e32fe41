//! The player entity's tags and the decisions its movement and terminal-exit
//! systems make.

use vstd::prelude::*;

verus! {

use crate::audio::{InteractSoundEvent, InteractSoundType};
use crate::fsm::{PlayerState, PlayerStateMachine};
use crate::terminal::{spec_contains_cmd, TerminalCommand};

/// Marker for the player's physics body.
pub struct Player;

/// Marker for the first-person camera.
pub struct PlayerCamera;

/// Marker for the player's physics configuration.
pub struct PlayerPhysics;

/// The number of times `c` occurs in the drained command queue.
pub open spec fn spec_count_cmd(cmds: Seq<TerminalCommand>, c: TerminalCommand) -> nat {
    cmds.filter(|x: TerminalCommand| x == c).len()
}

impl Player {
    /// Leave the terminal: every exit command entered this step frees the
    /// player back to `Idle` and cues the terminal-leave sound once.
    pub fn escape(cmds: &Vec<TerminalCommand>, state: &mut PlayerStateMachine) -> (sounds: Vec<
        InteractSoundEvent,
    >)
        ensures
            sounds@.len() == spec_count_cmd(cmds@, TerminalCommand::Exit),
            forall|k: int|
                0 <= k < sounds@.len() ==> sounds@[k].int_type
                    == InteractSoundType::TerminalLeave,
            spec_contains_cmd(cmds@, TerminalCommand::Exit) ==> final(state).state()
                == PlayerState::Idle,
            !spec_contains_cmd(cmds@, TerminalCommand::Exit) ==> *final(state) == *old(state),
    {
        let mut sounds: Vec<InteractSoundEvent> = Vec::new();
        let mut i: usize = 0;
        proof {
            reveal(Seq::filter);
            assert(cmds@.subrange(0, 0) =~= Seq::<TerminalCommand>::empty());
        }
        while i < cmds.len()
            invariant
                0 <= i <= cmds@.len(),
                sounds@.len() == spec_count_cmd(cmds@.subrange(0, i as int), TerminalCommand::Exit),
                forall|k: int|
                    0 <= k < sounds@.len() ==> sounds@[k].int_type
                        == InteractSoundType::TerminalLeave,
                spec_contains_cmd(cmds@.subrange(0, i as int), TerminalCommand::Exit) ==> state.state()
                    == PlayerState::Idle,
                !spec_contains_cmd(cmds@.subrange(0, i as int), TerminalCommand::Exit) ==> *state
                    == *old(state),
            decreases cmds@.len() - i,
        {
            proof {
                reveal(Seq::filter);
                assert(cmds@.subrange(0, i + 1).drop_last() =~= cmds@.subrange(0, i as int));
                assert(cmds@.subrange(0, i + 1).last() == cmds@[i as int]);
            }
            if cmds[i] == TerminalCommand::Exit {
                sounds.push(InteractSoundEvent { int_type: InteractSoundType::TerminalLeave });
                state.change_state(PlayerState::Idle);
                proof {
                    assert(cmds@.subrange(0, i + 1)[i as int] == cmds@[i as int]);
                }
            } else {
                proof {
                    assert forall|k: int|
                        0 <= k < i + 1 && #[trigger] cmds@.subrange(0, i + 1)[k]
                            == TerminalCommand::Exit implies spec_contains_cmd(
                        cmds@.subrange(0, i as int),
                        TerminalCommand::Exit,
                    ) by {
                        if k < i {
                            assert(cmds@.subrange(0, i as int)[k] == TerminalCommand::Exit);
                        }
                    }
                }
            }
            i = i + 1;
        }
        proof {
            assert(cmds@.subrange(0, cmds@.len() as int) =~= cmds@);
        }
        sounds
    }

    /// The movement-speed scale, in thousandths: carrying something slows the
    /// player down.
    pub fn movement_speed_multi_milli(state: &PlayerStateMachine) -> (r: u64)
        ensures
            r == if state.state() == PlayerState::Holding {
                750u64
            } else {
                1000u64
            },
    {
        match state.state() {
            PlayerState::Holding => 750,
            _ => 1000,
        }
    }
}

} // verus!
