//! The overlay: its marker tags, the menu transitions, and the interaction
//! prompt shown at the crosshair.

use vstd::prelude::*;

verus! {

use crate::fsm::{PlayerState, PlayerStateMachine};
use crate::interactable::InteractableType;
use crate::state::GameState;
use crate::viewmodel::ViewModelHold;

/// Marker for the root node of the overlay.
pub struct UIRoot;

/// Marker for the interaction prompt text.
pub struct InteractText;

/// Marker for the prompt's shadow box.
pub struct ITextShadow;

/// Marker for the countdown text.
pub struct TimerText;

/// Marker for the crosshair.
pub struct Crosshair;

/// Marker for the camera that renders only the overlay.
pub struct UiOnlyCamera;

/// On the main menu, the enter key starts the game.
pub fn load_main_game(enter_pressed: bool) -> (r: Option<GameState>)
    ensures
        r == if enter_pressed {
            Some(GameState::InOffice)
        } else {
            None::<GameState>
        },
{
    if enter_pressed {
        Some(GameState::InOffice)
    } else {
        None
    }
}

/// On the game-over screen, the enter key rewinds into a fresh game.
pub fn restart_main_game(enter_pressed: bool) -> (r: Option<GameState>)
    ensures
        r == if enter_pressed {
            Some(GameState::InOffice)
        } else {
            None::<GameState>
        },
{
    if enter_pressed {
        Some(GameState::InOffice)
    } else {
        None
    }
}

/// How the prompt's shadow box is drawn: visible behind a prompt, fully
/// transparent behind none.
#[derive(Debug, Copy, Clone, PartialEq, Eq, Structural)]
pub enum PromptShade {
    Shadow,
    Transparent,
}

/// The prompt and shade after one update, given what is held, what the view
/// ray rests on (`target` is its interactable tag, if it still has one), and
/// how far away it is, in thousandths of a unit. Arms that prompt nothing
/// leave text and shade as they were, except that using the terminal blanks
/// the text first.
pub open spec fn spec_prompt(
    state: PlayerState,
    holding: ViewModelHold,
    looking: bool,
    target: Option<InteractableType>,
    dist: u64,
    text0: Seq<char>,
    shade0: PromptShade,
) -> (Seq<char>, PromptShade) {
    let t1 = if state == PlayerState::Interacting {
        Seq::<char>::empty()
    } else {
        text0
    };
    if looking {
        if target == Some(InteractableType::Terminal) {
            if dist < 1500 {
                ("[MOUSE1] Interact"@, PromptShade::Shadow)
            } else {
                (t1, shade0)
            }
        } else if holding == ViewModelHold::Empty && target is None {
            (Seq::<char>::empty(), PromptShade::Transparent)
        } else if holding == ViewModelHold::Empty {
            ("[MOUSE1] Pickup"@, PromptShade::Shadow)
        } else if holding == ViewModelHold::Hammer && target is None {
            ("[MOUSE1] Swing"@, PromptShade::Shadow)
        } else if holding == ViewModelHold::Hammer && (target == Some(
            InteractableType::LineOfCodeGlobule,
        ) || target == Some(InteractableType::LineOfCode)) {
            ("[MOUSE1] Swing\n[MOUSE2] Swap"@, PromptShade::Shadow)
        } else if (holding == ViewModelHold::LoC || holding == ViewModelHold::LoCBundle) && (
        target == Some(InteractableType::LineOfCode) || target == Some(
            InteractableType::LineOfCodeGlobule,
        )) {
            ("[MOUSE1] Attach\n[MOUSE2] Swap"@, PromptShade::Shadow)
        } else {
            (t1, shade0)
        }
    } else {
        match holding {
            ViewModelHold::Hammer => ("[MOUSE1] Swing\n[MOUSE2] Throw"@, PromptShade::Shadow),
            ViewModelHold::LoCBundle => ("[MOUSE2] Throw"@, PromptShade::Shadow),
            ViewModelHold::LoC => ("[MOUSE2] Throw"@, PromptShade::Shadow),
            ViewModelHold::Empty => (Seq::<char>::empty(), PromptShade::Transparent),
        }
    }
}

/// Refresh the crosshair prompt from the player's state and what the view
/// ray rests on.
pub fn update_interact_text(
    player_state: &PlayerStateMachine,
    holding: ViewModelHold,
    looking: bool,
    target: Option<InteractableType>,
    dist: u64,
    text: &mut String,
    shade: &mut PromptShade,
)
    ensures
        ({
            let (t, c) = spec_prompt(
                player_state.state(),
                holding,
                looking,
                target,
                dist,
                old(text)@,
                *old(shade),
            );
            final(text)@ == t && *final(shade) == c
        }),
{
    if player_state.state() == PlayerState::Interacting {
        *text = String::new();
    }
    if looking {
        if target == Some(InteractableType::Terminal) {
            if dist < 1500 {
                *text = String::from_str("[MOUSE1] Interact");
                *shade = PromptShade::Shadow;
            }
        } else if holding == ViewModelHold::Empty && target.is_none() {
            *text = String::new();
            *shade = PromptShade::Transparent;
        } else if holding == ViewModelHold::Empty {
            *text = String::from_str("[MOUSE1] Pickup");
            *shade = PromptShade::Shadow;
        } else if holding == ViewModelHold::Hammer && target.is_none() {
            *text = String::from_str("[MOUSE1] Swing");
            *shade = PromptShade::Shadow;
        } else if holding == ViewModelHold::Hammer && (target == Some(
            InteractableType::LineOfCodeGlobule,
        ) || target == Some(InteractableType::LineOfCode)) {
            *text = String::from_str("[MOUSE1] Swing\n[MOUSE2] Swap");
            *shade = PromptShade::Shadow;
        } else if (holding == ViewModelHold::LoC || holding == ViewModelHold::LoCBundle) && (
        target == Some(InteractableType::LineOfCode) || target == Some(
            InteractableType::LineOfCodeGlobule,
        )) {
            *text = String::from_str("[MOUSE1] Attach\n[MOUSE2] Swap");
            *shade = PromptShade::Shadow;
        }
    } else {
        match holding {
            ViewModelHold::Hammer => {
                *text = String::from_str("[MOUSE1] Swing\n[MOUSE2] Throw");
                *shade = PromptShade::Shadow;
            },
            ViewModelHold::LoCBundle => {
                *text = String::from_str("[MOUSE2] Throw");
                *shade = PromptShade::Shadow;
            },
            ViewModelHold::LoC => {
                *text = String::from_str("[MOUSE2] Throw");
                *shade = PromptShade::Shadow;
            },
            ViewModelHold::Empty => {
                *text = String::new();
                *shade = PromptShade::Transparent;
            },
        }
    }
}

} // verus!
