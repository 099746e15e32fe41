//! The tags that make a spatial entity interactable, and what category of
//! thing it is.

use vstd::prelude::*;

verus! {

use crate::strings::{spec_starts_with, starts_with, str_eq};

/// The category an interactable entity belongs to.
#[derive(Debug, Copy, Clone, Ord, PartialOrd, Eq, PartialEq, Structural)]
pub enum InteractableType {
    Hammer,
    LineOfCode,
    LineOfCodeGlobule,
    Terminal,
}

/// The interactable tag itself: what the detector's ray can land on.
#[derive(Debug, Copy, Clone, PartialEq, Eq, Structural)]
pub struct Interactable {
    pub itype: InteractableType,
}

impl Interactable {
    pub fn itype(&self) -> (r: InteractableType)
        ensures
            r == self.itype,
    {
        self.itype
    }

    /// Build the tag from a scene name of the form `interactable_<kind>`. The
    /// terminal is the only interactable authored in scene data; any other
    /// name is a fatal load-time error and is excluded here, so callers test
    /// the name first.
    pub fn from_name(name: &str) -> (r: Self)
        requires
            name@ == "interactable_terminal"@,
        ensures
            r.itype == InteractableType::Terminal,
    {
        proof {
            reveal_strlit("interactable_terminal");
            reveal_strlit("interactable_");
            reveal_strlit("terminal");
        }
        let rest = if starts_with(name, "interactable_") {
            let n = name.unicode_len();
            name.substring_char(13, n)
        } else {
            proof {
                assert(spec_starts_with(name@, "interactable_"@)) by {
                    assert(name@.subrange(0, 13) =~= "interactable_"@);
                }
                assert(false);
            }
            name
        };
        if str_eq(rest, "terminal") {
            Interactable { itype: InteractableType::Terminal }
        } else {
            proof {
                assert(rest@ =~= "terminal"@);
                assert(false);
            }
            Interactable { itype: InteractableType::Terminal }
        }
    }
}

/// Marker for a bundle entity: an ordered group of merged lines sharing one
/// collider.
pub struct LineOfCodeGlobule;

} // verus!
