//! Floor tools: the painting, deleting and scanning sensor volumes, and what
//! each does to the line-of-code blocks that touch them.

use vstd::prelude::*;

verus! {

use crate::code::{LoCBlock, LoCBlockView, LocType};
use crate::interactable::InteractableType;
use crate::strings::str_eq;

/// The kind of sensor a collision involved.
#[derive(Debug, Copy, Clone, PartialEq, Eq, Structural)]
pub enum SType {
    Painter,
    Deleter,
    Scanner,
}

/// A sensor firing: which kind it was and, for the scanner, the blocks read
/// off the scanned entity in placement order.
#[derive(Debug)]
pub struct SensorEvent {
    pub stype: SType,
    pub loc: Option<Vec<LoCBlock>>,
}

/// What a named sensor volume does to an interactable that touches it.
#[derive(Debug, Copy, Clone, PartialEq, Eq, Structural)]
pub enum SensorAction {
    Paint(LocType),
    Delete,
    Scan,
    Ignore,
}

/// The action a sensor's name selects: the three painters recolour a block,
/// the deleter despawns it, and the scan desk captures a submission.
pub open spec fn spec_sensor_action(id: Seq<char>) -> SensorAction {
    if id == "sensor_pp"@ {
        SensorAction::Paint(LocType::Green)
    } else if id == "sensor_nn"@ {
        SensorAction::Paint(LocType::Red)
    } else if id == "sensor_ee"@ {
        SensorAction::Paint(LocType::Neutral)
    } else if id == "sensor_deleter"@ {
        SensorAction::Delete
    } else if id == "sensor_scandesk"@ {
        SensorAction::Scan
    } else {
        SensorAction::Ignore
    }
}

/// Select a sensor's behaviour by its scene name.
pub fn classify_sensor(id: &str) -> (r: SensorAction)
    ensures
        r == spec_sensor_action(id@),
{
    if str_eq(id, "sensor_pp") {
        SensorAction::Paint(LocType::Green)
    } else if str_eq(id, "sensor_nn") {
        SensorAction::Paint(LocType::Red)
    } else if str_eq(id, "sensor_ee") {
        SensorAction::Paint(LocType::Neutral)
    } else if str_eq(id, "sensor_deleter") {
        SensorAction::Delete
    } else if str_eq(id, "sensor_scandesk") {
        SensorAction::Scan
    } else {
        SensorAction::Ignore
    }
}

/// Repaint a block: only its colour class changes, the text is kept.
pub fn apply_paint(block: &mut LoCBlock, t: LocType)
    ensures
        final(block)@.loc_type == t,
        final(block)@.line_of_code == old(block)@.line_of_code,
{
    block.loc_type = t;
}

/// The deleter consumes lines and bundles; tools and the terminal pass
/// through it untouched.
pub fn deleter_applies(kind: InteractableType) -> (r: bool)
    ensures
        r == (kind == InteractableType::LineOfCode || kind
            == InteractableType::LineOfCodeGlobule),
{
    match kind {
        InteractableType::LineOfCode => true,
        InteractableType::LineOfCodeGlobule => true,
        _ => false,
    }
}

/// The order a scan reports blocks in: as collected, except that a pair is
/// reported swapped.
pub open spec fn spec_scan_order(blocks: Seq<LoCBlockView>) -> Seq<LoCBlockView> {
    if blocks.len() == 2 {
        blocks.reverse()
    } else {
        blocks
    }
}

/// Capture a scan of the given blocks: nothing fires when no block was read;
/// otherwise a scanner event carries them, a pair in swapped order.
pub fn scan_blocks(blocks: Vec<LoCBlock>) -> (r: Option<SensorEvent>)
    ensures
        blocks@.len() == 0 ==> r is None,
        blocks@.len() != 0 ==> (r matches Some(ev) && ev.stype == SType::Scanner
            && (ev.loc matches Some(v) && v.deep_view() == spec_scan_order(blocks.deep_view()))),
{
    if blocks.len() == 0 {
        None
    } else if blocks.len() == 2 {
        let mut swapped: Vec<LoCBlock> = Vec::new();
        let b1 = blocks[1].clone();
        let b0 = blocks[0].clone();
        swapped.push(b1);
        swapped.push(b0);
        proof {
            assert(swapped.deep_view() =~= blocks.deep_view().reverse());
        }
        Some(SensorEvent { stype: SType::Scanner, loc: Some(swapped) })
    } else {
        Some(SensorEvent { stype: SType::Scanner, loc: Some(blocks) })
    }
}

} // verus!
