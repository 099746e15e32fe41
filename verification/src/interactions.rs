//! The interaction detector and resolver: what a click does, given what is
//! held and what was clicked.
//!
//! The resolver is a prioritized rule chain; exactly the first matching rule
//! fires for a click, claims the per-step lock, moves the held-item slot and
//! the player state machine, and returns one effect for the embedding to
//! perform. Lengths and distances are integers in thousandths of a scene
//! unit; impulses are in millionths.

use vstd::prelude::*;

verus! {

use crate::fsm::{next_state, PlayerState, PlayerStateMachine};
use crate::interactable::InteractableType;
use crate::rng::rng_unit_milli;
use crate::viewmodel::{ViewModel, ViewModelHold};

/// An integer 3-vector: ray directions in thousandths of a unit, impulses in
/// millionths.
#[derive(Debug, Copy, Clone, PartialEq, Eq, Structural)]
pub struct IVec3 {
    pub x: i64,
    pub y: i64,
    pub z: i64,
}

/// A mouse button the resolver distinguishes.
#[derive(Debug, Copy, Clone, PartialEq, Eq, Structural)]
pub enum MouseButton {
    Left,
    Right,
}

/// What the clicked entity is, as the resolver sees it: its interactable
/// category, its id, and for a bundle its ordered member lines.
#[derive(Debug, Clone, PartialEq, Eq)]
pub enum Target {
    Hammer { entity: u64 },
    Line { entity: u64 },
    Bundle { entity: u64, children: Vec<u64> },
    Terminal { entity: u64 },
}

/// A click intent the detector emits: the button, the entity hit, the ray
/// direction, and the time of impact (the hit's distance).
#[derive(Debug, Clone, PartialEq, Eq)]
pub struct MouseInteraction {
    pub button: MouseButton,
    pub with: u64,
    pub direction: IVec3,
    pub toi: u64,
}

/// What the player's view ray currently rests on.
#[derive(Debug, Clone, PartialEq, Eq)]
pub struct PlayerLookingAt {
    pub entity: Option<u64>,
    pub dist: u64,
}

/// The per-step lock: set once the first matching rule has acted, so no
/// second rule acts on the same intent.
#[derive(Debug, Copy, Clone, PartialEq, Eq, Structural)]
pub struct InteractSingleSystemLock {
    pub ran: bool,
}

impl InteractSingleSystemLock {
    /// Claim the lock: a rule has acted this step.
    pub fn i_ran_dawddy(&mut self)
        ensures
            final(self).ran,
    {
        self.ran = true;
    }
}

/// The ordered member lines of a bundle, left to right.
#[derive(Debug, Clone, PartialEq, Eq)]
pub struct OrderedChildren(pub Vec<u64>);

impl MouseInteraction {
    /// The detector's step: record what the view ray rests on, and on a fresh
    /// button press within reach emit one intent and release the resolver
    /// lock. A miss only clears the looked-at entity; a hit at or past the
    /// reach limit changes nothing.
    pub fn detect(
        looking_at: &mut PlayerLookingAt,
        lock: &mut InteractSingleSystemLock,
        hit: Option<(u64, u64)>,
        max_toi: u64,
        pressed: Option<MouseButton>,
        direction: IVec3,
    ) -> (intent: Option<MouseInteraction>)
        ensures
            hit is None ==> final(looking_at).entity is None && final(looking_at).dist == old(
                looking_at,
            ).dist && *final(lock) == *old(lock) && intent is None,
            hit matches Some((e, toi)) ==> {
                if toi < max_toi {
                    &&& final(looking_at).entity == Some(e)
                    &&& final(looking_at).dist == toi
                    &&& (pressed matches Some(b) ==> !final(lock).ran && intent == Some(
                        MouseInteraction { button: b, with: e, direction, toi },
                    ))
                    &&& (pressed is None ==> *final(lock) == *old(lock) && intent is None)
                } else {
                    &&& *final(looking_at) == *old(looking_at)
                    &&& *final(lock) == *old(lock)
                    &&& intent is None
                }
            },
    {
        match hit {
            Some((entity, toi)) => {
                if toi < max_toi {
                    looking_at.entity = Some(entity);
                    looking_at.dist = toi;
                    match pressed {
                        Some(button) => {
                            lock.ran = false;
                            Some(MouseInteraction { button, with: entity, direction, toi })
                        },
                        None => None,
                    }
                } else {
                    None
                }
            },
            None => {
                looking_at.entity = None;
                None
            },
        }
    }
}

/// The cleanup step at the end of the rule chain: whatever rule fired, the
/// intent queue is drained so nothing acts on a stale click.
pub fn clear_reader_because_fuck_you(reader: &mut Vec<MouseInteraction>)
    ensures
        final(reader)@.len() == 0,
{
    reader.clear();
}

/// The widest bundle the model handles; merges past it are refused by
/// contract so collider sizes stay within machine range.
pub const MAX_BUNDLE_LEN: usize = 100000;

/// Where the `i`-th of a bundle's lines sits on the bundle's axis: evenly
/// spaced a line-width apart around the pivot index, counting right to left,
/// in thousandths of a unit. The attach path pivots on half the count before
/// the attach, the merge path on half the full count; the very first pair is
/// laid out at fifty thousandths either side instead.
pub fn bundle_child_offsets(n: usize, pivot: usize) -> (r: Vec<i64>)
    requires
        n <= MAX_BUNDLE_LEN,
        pivot <= n,
    ensures
        r@.len() == n,
        forall|i: int| 0 <= i < n ==> #[trigger] r@[i] == -100 * (i - pivot),
{
    let mut r: Vec<i64> = Vec::new();
    let mut i: usize = 0;
    while i < n
        invariant
            0 <= i <= n,
            n <= MAX_BUNDLE_LEN,
            pivot <= n,
            r@.len() == i,
            forall|k: int| 0 <= k < i ==> #[trigger] r@[k] == -100 * (k - pivot),
        decreases n - i,
    {
        let offset: i64 = -100 * ((i as i64) - (pivot as i64));
        r.push(offset);
        i = i + 1;
    }
    r
}

/// Collider half-width of a bundle of `n` lines built by attaching a single
/// line: half a line-width per line, with a quarter-width pad on an odd
/// count.
pub open spec fn spec_half_extent_attach(n: int) -> int {
    if n % 2 == 0 {
        50 * n
    } else {
        50 * (n - 1) + 25
    }
}

/// Collider half-width of a bundle of `n` lines built by merging a held
/// bundle in: half a line-width per line, with a half-width pad on an odd
/// count.
pub open spec fn spec_half_extent_merge(n: int) -> int {
    if n % 2 == 0 {
        50 * n
    } else {
        50 * (n - 1) + 50
    }
}

/// Size the collider of a bundle of `n` lines after a single-line attach.
pub fn bundle_half_extent_attach(n: usize) -> (hx: u64)
    requires
        n <= 1000000,
    ensures
        hx == spec_half_extent_attach(n as int),
{
    if n % 2 == 0 {
        50 * (n as u64)
    } else {
        50 * ((n - 1) as u64) + 25
    }
}

/// Size the collider of a bundle of `n` lines after a bundle merge.
pub fn bundle_half_extent_merge(n: usize) -> (hx: u64)
    requires
        n <= 1000000,
    ensures
        hx == spec_half_extent_merge(n as int),
{
    if n % 2 == 0 {
        50 * (n as u64)
    } else {
        50 * ((n - 1) as u64) + 50
    }
}

/// The two construction paths size a bundle of `n` lines the same way when
/// `n` is even, and pad an odd count differently: a quarter line-width after
/// a single attach, a half line-width after a merge.
pub proof fn lemma_half_extent_paths(n: int)
    requires
        n >= 0,
    ensures
        n % 2 == 0 ==> spec_half_extent_attach(n) == 50 * n && spec_half_extent_merge(n) == 50
            * n,
        n % 2 == 1 ==> spec_half_extent_attach(n) + 25 == spec_half_extent_merge(n),
{
}

/// The rule a click fires, in priority order; at most one per step.
#[derive(Debug, Copy, Clone, PartialEq, Eq, Structural)]
pub enum Rule {
    AttachLineToLine,
    AttachLineToBundle,
    MergeBundle,
    Strike,
    Shatter,
    Miss,
    EnterTerminal,
    PickUp,
    Throw,
    Swap,
    NoRule,
}

/// A click as the resolver consumes it: the button, what it landed on (with
/// bundle membership read off the scene), the ray direction and the hit
/// distance.
#[derive(Debug, Clone, PartialEq, Eq)]
pub struct Click {
    pub button: MouseButton,
    pub target: Option<Target>,
    pub direction: IVec3,
    pub toi: u64,
}

/// A well-formed click: the ray direction is a unit vector in thousandths,
/// and a clicked bundle carries its members, at least two and within range.
pub open spec fn click_wf(c: Click) -> bool {
    &&& -1000 <= c.direction.x <= 1000
    &&& -1000 <= c.direction.y <= 1000
    &&& -1000 <= c.direction.z <= 1000
    &&& (c.target matches Some(Target::Bundle { children, .. }) ==> 2 <= children@.len()
        < MAX_BUNDLE_LEN)
}

/// Which rule fires: the first match in priority order. A claimed lock means
/// no rule acts this step.
pub open spec fn spec_rule(lock_ran: bool, holding: ViewModelHold, c: Click) -> Rule {
    if lock_ran {
        Rule::NoRule
    } else if c.button == MouseButton::Left {
        if holding == ViewModelHold::LoC && (c.target matches Some(Target::Line { .. })) {
            Rule::AttachLineToLine
        } else if holding == ViewModelHold::LoC && (c.target matches Some(
            Target::Bundle { .. },
        )) {
            Rule::AttachLineToBundle
        } else if holding == ViewModelHold::LoCBundle && ((c.target matches Some(
            Target::Line { .. },
        )) || (c.target matches Some(Target::Bundle { .. }))) {
            Rule::MergeBundle
        } else if holding == ViewModelHold::Hammer && (c.target matches Some(
            Target::Line { .. },
        )) {
            Rule::Strike
        } else if holding == ViewModelHold::Hammer && (c.target matches Some(
            Target::Bundle { .. },
        )) && c.toi <= 1500 {
            Rule::Shatter
        } else if holding == ViewModelHold::Hammer && c.target is None {
            Rule::Miss
        } else if c.target matches Some(Target::Terminal { .. }) {
            Rule::EnterTerminal
        } else if holding == ViewModelHold::Empty && c.target is Some {
            Rule::PickUp
        } else {
            Rule::NoRule
        }
    } else {
        if holding != ViewModelHold::Empty && c.target is None {
            Rule::Throw
        } else if holding != ViewModelHold::Empty && c.target is Some && !(c.target matches Some(
            Target::Terminal { .. },
        )) {
            Rule::Swap
        } else {
            Rule::NoRule
        }
    }
}

/// The held-slot kind a picked-up target becomes.
pub open spec fn spec_hold_of_target(t: Target) -> ViewModelHold {
    match t {
        Target::Hammer { .. } => ViewModelHold::Hammer,
        Target::Line { .. } => ViewModelHold::LoC,
        Target::Bundle { .. } => ViewModelHold::LoCBundle,
        Target::Terminal { .. } => ViewModelHold::Empty,
    }
}

/// The entity id of a target.
pub open spec fn spec_target_entity(t: Target) -> u64 {
    match t {
        Target::Hammer { entity } => entity,
        Target::Line { entity } => entity,
        Target::Bundle { entity, .. } => entity,
        Target::Terminal { entity } => entity,
    }
}

/// The interactable tag a released held item gets back.
pub open spec fn spec_itype_of_hold(h: ViewModelHold) -> InteractableType {
    match h {
        ViewModelHold::Hammer => InteractableType::Hammer,
        ViewModelHold::LoC => InteractableType::LineOfCode,
        ViewModelHold::LoCBundle => InteractableType::LineOfCodeGlobule,
        ViewModelHold::Empty => InteractableType::Terminal,
    }
}

/// The extra throw power a held item gets: a hammer flies hardest, a bundle
/// by its line count.
pub open spec fn spec_throw_multi(h: ViewModelHold, children: Seq<u64>) -> int {
    match h {
        ViewModelHold::Hammer => 4,
        ViewModelHold::LoC => 1,
        ViewModelHold::LoCBundle => if children.len() > 0 {
            children.len() as int
        } else {
            1
        },
        ViewModelHold::Empty => 0,
    }
}

/// One line freed by shattering a bundle: where it reappears above the
/// bundle's place, and the kick it gets.
#[derive(Debug, Clone, PartialEq, Eq)]
pub struct ShatterPiece {
    pub entity: u64,
    pub rise_milli: u64,
    pub impulse: IVec3,
}

/// What the embedding must do after a rule fired.
#[derive(Debug, Clone, PartialEq, Eq)]
pub enum InteractionEffect {
    /// Spawn a fresh bundle entity owning `children` in order, with the given
    /// collider half-width; `consumed_bundle` is the clicked bundle that was
    /// absorbed whole and is despawned.
    SpawnBundle { children: Vec<u64>, half_extent: u64, consumed_bundle: Option<u64> },
    /// The clicked bundle keeps its entity and now owns `children` in order,
    /// with a resized collider.
    ExtendBundle { bundle: u64, children: Vec<u64>, half_extent: u64 },
    /// Knock the struck line with the hammer.
    Strike { entity: u64, impulse: IVec3 },
    /// Despawn the bundle and free each member as a standalone line.
    Shatter { bundle: u64, pieces: Vec<ShatterPiece> },
    /// A swing that hit nothing: only the miss sound plays.
    MissSwing,
    /// Freeze the player at the terminal.
    EnterTerminal,
    /// Hang the clicked entity under the viewmodel.
    PickUp { entity: u64 },
    /// Release the held entity flying along the view ray.
    Throw { entity: u64, impulse: IVec3 },
    /// Put the held entity down where the clicked one was, and take that one.
    Swap { taken: u64, released: u64, released_as: InteractableType },
    /// No rule fired.
    NoEffect,
}

/// The player's interaction state: the held slot, the carried entity and its
/// bundle members, the state machine, and the per-step lock.
#[derive(Debug)]
pub struct PlayerInteraction {
    pub viewmodel: ViewModel,
    pub held_entity: Option<u64>,
    pub held_children: OrderedChildren,
    pub fsm: PlayerStateMachine,
    pub lock: InteractSingleSystemLock,
}

impl PlayerInteraction {
    /// The held slot is consistent: empty hands carry no entity, a carried
    /// bundle knows its members (at least two, within range), and nothing
    /// else has members.
    pub open spec fn wf(&self) -> bool {
        &&& (self.viewmodel.holding == ViewModelHold::Empty <==> self.held_entity is None)
        &&& (self.viewmodel.holding == ViewModelHold::LoCBundle ==> 2 <= self.held_children.0@.len()
            < MAX_BUNDLE_LEN)
        &&& (self.viewmodel.holding != ViewModelHold::LoCBundle ==> self.held_children.0@.len()
            == 0)
    }

    /// Start with empty hands.
    pub fn new() -> (r: Self)
        ensures
            r.wf(),
            r.viewmodel.holding == ViewModelHold::Empty,
            r.fsm.state() == PlayerState::Idle,
            !r.lock.ran,
    {
        PlayerInteraction {
            viewmodel: ViewModel { holding: ViewModelHold::Empty },
            held_entity: None,
            held_children: OrderedChildren(Vec::new()),
            fsm: PlayerStateMachine::default(),
            lock: InteractSingleSystemLock { ran: false },
        }
    }

    /// Resolve one click: exactly the rule `spec_rule` names fires. It claims
    /// the lock, moves the held slot and the state machine as that rule says,
    /// and returns the one effect the embedding performs; the shatter rule
    /// draws its kick directions from `rng`, and every other promise here
    /// holds whatever values were drawn.
    pub fn step(&mut self, click: &Click, rng: &mut rand::rngs::SmallRng) -> (e:
        InteractionEffect)
        requires
            old(self).wf(),
            click_wf(*click),
        ensures
            final(self).wf(),
            ({
                let r = spec_rule(old(self).lock.ran, old(self).viewmodel.holding, *click);
                &&& (r == Rule::NoRule ==> *final(self) == *old(self) && e
                    == InteractionEffect::NoEffect)
                &&& (r != Rule::NoRule ==> final(self).lock.ran)
                &&& (r == Rule::AttachLineToLine ==> {
                    &&& (click.target matches Some(Target::Line { entity }) && (e matches
                        InteractionEffect::SpawnBundle { children, half_extent, consumed_bundle }
                        && children@ == seq![entity, old(self).held_entity.unwrap()]
                        && half_extent == 100 && consumed_bundle is None))
                    &&& final(self).viewmodel.holding == ViewModelHold::Empty
                    &&& final(self).held_entity is None
                    &&& final(self).fsm.state() == PlayerState::Idle
                })
                &&& (r == Rule::AttachLineToBundle ==> {
                    &&& (click.target matches Some(Target::Bundle { entity, children: c }) && (e
                        matches InteractionEffect::ExtendBundle { bundle, children, half_extent }
                        && bundle == entity && children@ == c@.push(
                        old(self).held_entity.unwrap(),
                    ) && half_extent == spec_half_extent_attach(c@.len() as int + 1)))
                    &&& final(self).viewmodel.holding == ViewModelHold::Empty
                    &&& final(self).held_entity is None
                    &&& final(self).fsm.state() == PlayerState::Idle
                })
                &&& (r == Rule::MergeBundle ==> ({
                    let t = click.target.unwrap();
                    let total = spec_merge_base(t) + old(self).held_children.0@;
                    &&& (e matches InteractionEffect::SpawnBundle {
                        children,
                        half_extent,
                        consumed_bundle,
                    } && children@ == total && half_extent == spec_half_extent_merge(
                        total.len() as int,
                    ) && consumed_bundle == spec_consumed_bundle(t))
                    &&& final(self).viewmodel.holding == ViewModelHold::Empty
                    &&& final(self).held_entity is None
                    &&& final(self).fsm.state() == PlayerState::Idle
                }))
                &&& (r == Rule::Strike ==> {
                    &&& (click.target matches Some(Target::Line { entity }) && (e matches
                        InteractionEffect::Strike { entity: struck, impulse } && struck == entity
                        && impulse.x == click.direction.x * 50 && impulse.y == -click.direction.y
                        * 50 && impulse.z == click.direction.z * 50))
                    &&& final(self).viewmodel == old(self).viewmodel
                    &&& final(self).held_entity == old(self).held_entity
                    &&& final(self).held_children.0@ == old(self).held_children.0@
                    &&& final(self).fsm == old(self).fsm
                })
                &&& (r == Rule::Shatter ==> {
                    &&& (click.target matches Some(Target::Bundle { entity, children: c }) && (e
                        matches InteractionEffect::Shatter { bundle, pieces } && bundle == entity
                        && pieces@.len() == c@.len() && (forall|k: int|
                        0 <= k < pieces@.len() ==> {
                            &&& (#[trigger] pieces@[k]).entity == c@[k]
                            &&& pieces@[k].rise_milli == 20 * k
                            &&& pieces@[k].impulse.y == 15000
                            &&& -15000 <= pieces@[k].impulse.x <= 15000
                            &&& -15000 <= pieces@[k].impulse.z <= 15000
                        })))
                    &&& final(self).viewmodel == old(self).viewmodel
                    &&& final(self).held_entity == old(self).held_entity
                    &&& final(self).held_children.0@ == old(self).held_children.0@
                    &&& final(self).fsm == old(self).fsm
                })
                &&& (r == Rule::Miss ==> e == InteractionEffect::MissSwing && final(self).viewmodel == old(self).viewmodel && final(self).held_entity == old(self).held_entity && final(self).held_children.0@ == old(self).held_children.0@
                    && final(self).fsm == old(self).fsm)
                &&& (r == Rule::EnterTerminal ==> e == InteractionEffect::EnterTerminal && final(self).viewmodel == old(self).viewmodel && final(self).held_entity == old(self).held_entity && final(self).held_children.0@ == old(self).held_children.0@
                    && final(self).fsm.state() == next_state(
                    old(self).fsm.state(),
                    PlayerState::Interacting,
                ))
                &&& (r == Rule::PickUp ==> ({
                    let t = click.target.unwrap();
                    &&& (e matches InteractionEffect::PickUp { entity } && entity
                        == spec_target_entity(t))
                    &&& final(self).viewmodel.holding == spec_hold_of_target(t)
                    &&& final(self).held_entity == Some(spec_target_entity(t))
                    &&& (t matches Target::Bundle { children, .. } ==> final(self).held_children.0@ == children@)
                    &&& (!(t matches Target::Bundle { .. }) ==> final(self).held_children.0@.len() == 0)
                    &&& final(self).fsm.state() == next_state(
                        old(self).fsm.state(),
                        PlayerState::Holding,
                    )
                }))
                &&& (r == Rule::Throw ==> ({
                    let multi = spec_throw_multi(
                        old(self).viewmodel.holding,
                        old(self).held_children.0@,
                    );
                    &&& (e matches InteractionEffect::Throw { entity, impulse } && Some(entity)
                        == old(self).held_entity && impulse.x == click.direction.x * 50 * multi
                        && impulse.y == click.direction.y * 50 * multi && impulse.z
                        == click.direction.z * 50 * multi)
                    &&& final(self).viewmodel.holding == ViewModelHold::Empty
                    &&& final(self).held_entity is None
                    &&& final(self).fsm.state() == PlayerState::Idle
                }))
                &&& (r == Rule::Swap ==> ({
                    let t = click.target.unwrap();
                    &&& (e matches InteractionEffect::Swap { taken, released, released_as }
                        && taken == spec_target_entity(t) && Some(released) == old(self).held_entity && released_as == spec_itype_of_hold(
                        old(self).viewmodel.holding,
                    ))
                    &&& final(self).viewmodel.holding == spec_hold_of_target(t)
                    &&& final(self).held_entity == Some(spec_target_entity(t))
                    &&& (t matches Target::Bundle { children, .. } ==> final(self).held_children.0@ == children@)
                    &&& (!(t matches Target::Bundle { .. }) ==> final(self).held_children.0@.len() == 0)
                    &&& final(self).fsm == old(self).fsm
                }))
            }),
    {
        if self.lock.ran {
            return InteractionEffect::NoEffect;
        }
        let holding = self.viewmodel.holding();
        if click.button == MouseButton::Left {
            if holding == ViewModelHold::LoC {
                match &click.target {
                    Some(Target::Line { entity }) => {
                        let held = match self.held_entity {
                            Some(h) => h,
                            None => {
                                proof {
                                    assert(false);
                                }
                                0
                            },
                        };
                        let mut children: Vec<u64> = Vec::new();
                        children.push(*entity);
                        children.push(held);
                        proof {
                            assert(children@ =~= seq![*entity, held]);
                        }
                        self.viewmodel.change_holding(ViewModelHold::Empty);
                        self.held_entity = None;
                        self.fsm.change_state(PlayerState::Idle);
                        self.lock.i_ran_dawddy();
                        return InteractionEffect::SpawnBundle {
                            children,
                            half_extent: 100,
                            consumed_bundle: None,
                        };
                    },
                    Some(Target::Bundle { entity, children: existing }) => {
                        let held = match self.held_entity {
                            Some(h) => h,
                            None => {
                                proof {
                                    assert(false);
                                }
                                0
                            },
                        };
                        let mut children = clone_ids(existing);
                        children.push(held);
                        let hx = bundle_half_extent_attach(children.len());
                        self.viewmodel.change_holding(ViewModelHold::Empty);
                        self.held_entity = None;
                        self.fsm.change_state(PlayerState::Idle);
                        self.lock.i_ran_dawddy();
                        return InteractionEffect::ExtendBundle {
                            bundle: *entity,
                            children,
                            half_extent: hx,
                        };
                    },
                    _ => {},
                }
            }
            if holding == ViewModelHold::LoCBundle {
                let base_and_consumed: Option<(Vec<u64>, Option<u64>)> = match &click.target {
                    Some(Target::Line { entity }) => {
                        let mut base: Vec<u64> = Vec::new();
                        base.push(*entity);
                        Some((base, None))
                    },
                    Some(Target::Bundle { entity, children: existing }) => {
                        Some((clone_ids(existing), Some(*entity)))
                    },
                    _ => None,
                };
                match base_and_consumed {
                    Some((mut total, consumed_bundle)) => {
                        proof {
                            let t = click.target.unwrap();
                            assert(total@ == spec_merge_base(t));
                            assert(consumed_bundle == spec_consumed_bundle(t));
                        }
                        let ghost base0 = total@;
                        let held_ids = &self.held_children.0;
                        let mut k: usize = 0;
                        while k < held_ids.len()
                            invariant
                                0 <= k <= held_ids@.len(),
                                total@ == base0 + held_ids@.subrange(0, k as int),
                            decreases held_ids@.len() - k,
                        {
                            total.push(held_ids[k]);
                            k = k + 1;
                            proof {
                                assert(total@ =~= base0 + held_ids@.subrange(0, k as int));
                            }
                        }
                        proof {
                            assert(held_ids@.subrange(0, held_ids@.len() as int) =~= held_ids@);
                        }
                        let hx = bundle_half_extent_merge(total.len());
                        self.viewmodel.change_holding(ViewModelHold::Empty);
                        self.held_entity = None;
                        self.held_children.0 = Vec::new();
                        self.fsm.change_state(PlayerState::Idle);
                        self.lock.i_ran_dawddy();
                        return InteractionEffect::SpawnBundle {
                            children: total,
                            half_extent: hx,
                            consumed_bundle,
                        };
                    },
                    None => {},
                }
            }
            if holding == ViewModelHold::Hammer {
                match &click.target {
                    Some(Target::Line { entity }) => {
                        self.lock.i_ran_dawddy();
                        return InteractionEffect::Strike {
                            entity: *entity,
                            impulse: IVec3 {
                                x: click.direction.x * 50,
                                y: -click.direction.y * 50,
                                z: click.direction.z * 50,
                            },
                        };
                    },
                    Some(Target::Bundle { entity, children }) => {
                        if click.toi <= 1500 {
                            let mut pieces: Vec<ShatterPiece> = Vec::new();
                            let mut k: usize = 0;
                            while k < children.len()
                                invariant
                                    0 <= k <= children@.len(),
                                    children@.len() < MAX_BUNDLE_LEN,
                                    pieces@.len() == k,
                                    forall|j: int|
                                        0 <= j < k ==> {
                                            &&& (#[trigger] pieces@[j]).entity == children@[j]
                                            &&& pieces@[j].rise_milli == 20 * j
                                            &&& pieces@[j].impulse.y == 15000
                                            &&& -15000 <= pieces@[j].impulse.x <= 15000
                                            &&& -15000 <= pieces@[j].impulse.z <= 15000
                                        },
                                decreases children@.len() - k,
                            {
                                let rx = rng_unit_milli(rng);
                                let rz = rng_unit_milli(rng);
                                let piece = ShatterPiece {
                                    entity: children[k],
                                    rise_milli: 20 * (k as u64),
                                    impulse: IVec3 { x: rx * 15, y: 15000, z: rz * 15 },
                                };
                                pieces.push(piece);
                                k = k + 1;
                            }
                            self.lock.i_ran_dawddy();
                            return InteractionEffect::Shatter { bundle: *entity, pieces };
                        }
                    },
                    Some(_) => {},
                    None => {
                        self.lock.i_ran_dawddy();
                        return InteractionEffect::MissSwing;
                    },
                }
            }
            match &click.target {
                Some(Target::Terminal { .. }) => {
                    self.fsm.change_state(PlayerState::Interacting);
                    self.lock.i_ran_dawddy();
                    return InteractionEffect::EnterTerminal;
                },
                _ => {},
            }
            if holding == ViewModelHold::Empty {
                match &click.target {
                    Some(t) => {
                        let (entity, new_hold) = match t {
                            Target::Hammer { entity } => (*entity, ViewModelHold::Hammer),
                            Target::Line { entity } => (*entity, ViewModelHold::LoC),
                            Target::Bundle { entity, .. } => (*entity, ViewModelHold::LoCBundle),
                            Target::Terminal { entity } => {
                                proof {
                                    assert(false);
                                }
                                (*entity, ViewModelHold::Empty)
                            },
                        };
                        let new_children: Vec<u64> = match t {
                            Target::Bundle { children, .. } => clone_ids(children),
                            _ => Vec::new(),
                        };
                        self.viewmodel.change_holding(new_hold);
                        self.held_entity = Some(entity);
                        self.held_children.0 = new_children;
                        self.fsm.change_state(PlayerState::Holding);
                        self.lock.i_ran_dawddy();
                        return InteractionEffect::PickUp { entity };
                    },
                    None => {},
                }
            }
            InteractionEffect::NoEffect
        } else {
            if holding != ViewModelHold::Empty {
                match &click.target {
                    None => {
                        let released = match self.held_entity {
                            Some(h) => h,
                            None => {
                                proof {
                                    assert(false);
                                }
                                0
                            },
                        };
                        let multi: u64 = match holding {
                            ViewModelHold::Hammer => 4,
                            ViewModelHold::LoC => 1,
                            ViewModelHold::LoCBundle => {
                                let n = self.held_children.0.len();
                                if n > 0 {
                                    n as u64
                                } else {
                                    1
                                }
                            },
                            ViewModelHold::Empty => {
                                proof {
                                    assert(false);
                                }
                                0
                            },
                        };
                        proof {
                            assert(multi == spec_throw_multi(
                                self.viewmodel.holding,
                                self.held_children.0@,
                            ));
                            assert(1 <= multi <= 100000);
                        }
                        let m = multi as i64;
                        proof {
                            assert(-50000000000 <= click.direction.x * 50 * m
                                <= 50000000000) by (nonlinear_arith)
                                requires
                                    -1000 <= click.direction.x <= 1000,
                                    1 <= m <= 100000,
                            ;
                            assert(-50000000000 <= click.direction.y * 50 * m
                                <= 50000000000) by (nonlinear_arith)
                                requires
                                    -1000 <= click.direction.y <= 1000,
                                    1 <= m <= 100000,
                            ;
                            assert(-50000000000 <= click.direction.z * 50 * m
                                <= 50000000000) by (nonlinear_arith)
                                requires
                                    -1000 <= click.direction.z <= 1000,
                                    1 <= m <= 100000,
                            ;
                        }
                        let impulse = IVec3 {
                            x: click.direction.x * 50 * m,
                            y: click.direction.y * 50 * m,
                            z: click.direction.z * 50 * m,
                        };
                        self.viewmodel.change_holding(ViewModelHold::Empty);
                        self.held_entity = None;
                        self.held_children.0 = Vec::new();
                        self.fsm.change_state(PlayerState::Idle);
                        self.lock.i_ran_dawddy();
                        return InteractionEffect::Throw { entity: released, impulse };
                    },
                    Some(Target::Terminal { .. }) => {},
                    Some(t) => {
                        let released = match self.held_entity {
                            Some(h) => h,
                            None => {
                                proof {
                                    assert(false);
                                }
                                0
                            },
                        };
                        let released_as = match holding {
                            ViewModelHold::Hammer => InteractableType::Hammer,
                            ViewModelHold::LoC => InteractableType::LineOfCode,
                            ViewModelHold::LoCBundle => InteractableType::LineOfCodeGlobule,
                            ViewModelHold::Empty => {
                                proof {
                                    assert(false);
                                }
                                InteractableType::Terminal
                            },
                        };
                        let (taken, new_hold) = match t {
                            Target::Hammer { entity } => (*entity, ViewModelHold::Hammer),
                            Target::Line { entity } => (*entity, ViewModelHold::LoC),
                            Target::Bundle { entity, .. } => (*entity, ViewModelHold::LoCBundle),
                            Target::Terminal { entity } => {
                                proof {
                                    assert(false);
                                }
                                (*entity, ViewModelHold::Empty)
                            },
                        };
                        let new_children: Vec<u64> = match t {
                            Target::Bundle { children, .. } => clone_ids(children),
                            _ => Vec::new(),
                        };
                        self.viewmodel.change_holding(new_hold);
                        self.held_entity = Some(taken);
                        self.held_children.0 = new_children;
                        self.lock.i_ran_dawddy();
                        return InteractionEffect::Swap { taken, released, released_as };
                    },
                }
            }
            InteractionEffect::NoEffect
        }
    }
}

/// The part of a merge the clicked entity contributes: the line itself, or
/// the clicked bundle's members.
pub open spec fn spec_merge_base(t: Target) -> Seq<u64> {
    match t {
        Target::Line { entity } => seq![entity],
        Target::Bundle { children, .. } => children@,
        _ => Seq::empty(),
    }
}

/// The bundle a merge absorbs whole, if the click landed on one.
pub open spec fn spec_consumed_bundle(t: Target) -> Option<u64> {
    match t {
        Target::Bundle { entity, .. } => Some(entity),
        _ => None,
    }
}

fn clone_ids(v: &Vec<u64>) -> (r: Vec<u64>)
    ensures
        r@ == v@,
{
    let mut r: Vec<u64> = Vec::new();
    let mut i: usize = 0;
    while i < v.len()
        invariant
            0 <= i <= v@.len(),
            r@ == v@.subrange(0, i as int),
        decreases v@.len() - i,
    {
        r.push(v[i]);
        i = i + 1;
        proof {
            assert(r@ =~= v@.subrange(0, i as int));
        }
    }
    proof {
        assert(v@.subrange(0, v@.len() as int) =~= v@);
    }
    r
}

} // verus!
