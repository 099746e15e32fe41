//! The held-item slot: the single first-person "hands" resource. At most one
//! item is carried at a time, and only the interaction resolver writes it.

use vstd::prelude::*;

verus! {

/// What the player's hands carry.
#[derive(Debug, Copy, Clone, Ord, PartialOrd, Eq, PartialEq, Structural)]
pub enum ViewModelHold {
    Empty,
    Hammer,
    LoC,
    LoCBundle,
}

/// The first-person viewmodel: the slot naming what is carried. The carried
/// entity itself hangs under the viewmodel in the scene graph.
#[derive(Debug, Copy, Clone, PartialEq, Eq, Structural)]
pub struct ViewModel {
    pub holding: ViewModelHold,
}

impl ViewModel {
    pub fn holding(&self) -> (r: ViewModelHold)
        ensures
            r == self.holding,
    {
        self.holding
    }

    pub fn change_holding(&mut self, new_hold: ViewModelHold)
        ensures
            final(self).holding == new_hold,
    {
        self.holding = new_hold;
    }
}

/// Marker for the entity currently carried in the viewmodel.
pub struct ViewModelCurrentlyHeld;

/// Marker for the camera that renders the viewmodel layer.
pub struct ViewMdlCamera;

} // verus!
