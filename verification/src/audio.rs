//! The sound intents the game logic emits, and the mixer channels they play
//! on. Every interaction rule that fires reports exactly one of these; the
//! embedding application routes them to actual playback.

use vstd::prelude::*;

verus! {

/// Channel for the fluorescent-light hum soundscape.
pub struct BGFlorescence;

/// Channel for the ceiling-fan hum soundscape.
pub struct BGFanHum;

/// Channel for the office background music.
pub struct BGMusic;

/// Channel for tool sounds: painting and deleting.
pub struct ToolsSFX;

/// Channel for hammer swings and hits.
pub struct HammerSFX;

/// Channel for physics collision noises.
pub struct PhysicsColliderSFX;

/// Channel for pick-up, throw, attach and terminal sounds.
pub struct InteractionsSFX;

/// Channel for the scanner's verdict cues.
pub struct ScannerSFX;

/// Channel for menu and game-over music.
pub struct Music;

/// Two physics bodies collided audibly.
pub struct CollisionSoundEvent;

/// A hammer swing: `hit` tells a strike from a miss.
#[derive(Debug, Copy, Clone, PartialEq, Eq, Structural)]
pub struct HammerSoundEvent {
    pub hit: bool,
}

/// Which interaction sound to play.
#[derive(Debug, Copy, Clone, Ord, PartialOrd, Eq, PartialEq, Structural)]
pub enum InteractSoundType {
    Pickup,
    Throw,
    Attach,
    TerminalEnter,
    TerminalType,
    TerminalCommandError,
    TerminalLeave,
}

/// An interaction happened and asks for its sound.
#[derive(Debug, Copy, Clone, Ord, PartialOrd, Eq, PartialEq, Structural)]
pub struct InteractSoundEvent {
    pub int_type: InteractSoundType,
}

/// The scanner graded a submission: a pass or fail cue.
#[derive(Debug, Copy, Clone, PartialEq, Eq, Structural)]
pub struct ScannerSoundEvent {
    pub success: bool,
}

} // verus!
