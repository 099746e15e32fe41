use oi_git::fsm::PlayerState;
use oi_git::interactable::InteractableType;
use oi_git::interactions::{
    bundle_half_extent_attach, bundle_half_extent_merge, Click, InteractSingleSystemLock,
    InteractionEffect, IVec3, MouseButton, MouseInteraction, PlayerInteraction, PlayerLookingAt,
    Target,
};
use oi_git::viewmodel::ViewModelHold;

fn rng_from_seed(seed: u64) -> rand::rngs::SmallRng {
    rand::SeedableRng::seed_from_u64(seed)
}

fn forward() -> IVec3 {
    IVec3 { x: 0, y: 0, z: -1000 }
}

fn left_click(target: Option<Target>) -> Click {
    Click { button: MouseButton::Left, target, direction: forward(), toi: 1000 }
}

fn right_click(target: Option<Target>) -> Click {
    Click { button: MouseButton::Right, target, direction: forward(), toi: 1000 }
}

fn holding_line(entity: u64) -> PlayerInteraction {
    let mut p = PlayerInteraction::new();
    let rng = &mut rng_from_seed(7);
    let e = p.step(&left_click(Some(Target::Line { entity })), rng);
    assert!(matches!(e, InteractionEffect::PickUp { .. }));
    p.lock.ran = false;
    p
}

fn holding_hammer(entity: u64) -> PlayerInteraction {
    let mut p = PlayerInteraction::new();
    let rng = &mut rng_from_seed(7);
    let e = p.step(&left_click(Some(Target::Hammer { entity })), rng);
    assert!(matches!(e, InteractionEffect::PickUp { .. }));
    p.lock.ran = false;
    p
}

fn holding_bundle(entity: u64, children: Vec<u64>) -> PlayerInteraction {
    let mut p = PlayerInteraction::new();
    let rng = &mut rng_from_seed(7);
    let e = p.step(&left_click(Some(Target::Bundle { entity, children })), rng);
    assert!(matches!(e, InteractionEffect::PickUp { .. }));
    p.lock.ran = false;
    p
}

#[test]
fn empty_hands_pick_up_what_is_clicked() {
    let mut p = PlayerInteraction::new();
    let rng = &mut rng_from_seed(1);
    let e = p.step(&left_click(Some(Target::Line { entity: 5 })), rng);
    assert_eq!(e, InteractionEffect::PickUp { entity: 5 });
    assert_eq!(p.viewmodel.holding, ViewModelHold::LoC);
    assert_eq!(p.held_entity, Some(5));
    assert_eq!(p.fsm.state(), PlayerState::Holding);
    assert!(p.lock.ran);
}

#[test]
fn attach_held_line_to_a_floor_line_builds_a_pair() {
    let mut p = holding_line(5);
    let rng = &mut rng_from_seed(2);
    let e = p.step(&left_click(Some(Target::Line { entity: 9 })), rng);
    match e {
        InteractionEffect::SpawnBundle { children, half_extent, consumed_bundle } => {
            // the clicked line leads, the held line lands after it
            assert_eq!(children, vec![9, 5]);
            assert_eq!(half_extent, 100);
            assert!(consumed_bundle.is_none());
        },
        other => panic!("expected a spawned bundle, got {:?}", other),
    }
    assert_eq!(p.viewmodel.holding, ViewModelHold::Empty);
    assert_eq!(p.fsm.state(), PlayerState::Idle);
}

#[test]
fn attach_held_line_to_a_bundle_appends_it() {
    let mut p = holding_line(5);
    let rng = &mut rng_from_seed(3);
    let e = p.step(&left_click(Some(Target::Bundle { entity: 30, children: vec![1, 2] })), rng);
    match e {
        InteractionEffect::ExtendBundle { bundle, children, half_extent } => {
            assert_eq!(bundle, 30);
            assert_eq!(children, vec![1, 2, 5]);
            // three lines via a single attach: 0.05 * 2 + 0.025, in thousandths
            assert_eq!(half_extent, 125);
        },
        other => panic!("expected an extended bundle, got {:?}", other),
    }
}

#[test]
fn merge_held_bundle_into_a_line() {
    let mut p = holding_bundle(40, vec![7, 8]);
    let rng = &mut rng_from_seed(4);
    let e = p.step(&left_click(Some(Target::Line { entity: 9 })), rng);
    match e {
        InteractionEffect::SpawnBundle { children, half_extent, consumed_bundle } => {
            assert_eq!(children, vec![9, 7, 8]);
            // three lines via a bundle merge: 0.05 * 2 + 0.05, in thousandths
            assert_eq!(half_extent, 150);
            assert!(consumed_bundle.is_none());
        },
        other => panic!("expected a spawned bundle, got {:?}", other),
    }
    assert_eq!(p.viewmodel.holding, ViewModelHold::Empty);
    assert!(p.held_children.0.is_empty());
}

#[test]
fn merge_held_bundle_into_a_bundle_absorbs_it() {
    let mut p = holding_bundle(40, vec![7, 8]);
    let rng = &mut rng_from_seed(5);
    let e = p.step(&left_click(Some(Target::Bundle { entity: 50, children: vec![1, 2] })), rng);
    match e {
        InteractionEffect::SpawnBundle { children, half_extent, consumed_bundle } => {
            // clicked bundle first, held bundle's lines appended in order
            assert_eq!(children, vec![1, 2, 7, 8]);
            assert_eq!(half_extent, 200);
            assert_eq!(consumed_bundle, Some(50));
        },
        other => panic!("expected a spawned bundle, got {:?}", other),
    }
}

#[test]
fn hammer_strikes_a_line_along_the_mirrored_ray() {
    let mut p = holding_hammer(3);
    let rng = &mut rng_from_seed(6);
    let click = Click {
        button: MouseButton::Left,
        target: Some(Target::Line { entity: 9 }),
        direction: IVec3 { x: 200, y: -300, z: -900 },
        toi: 1000,
    };
    let e = p.step(&click, rng);
    assert_eq!(
        e,
        InteractionEffect::Strike {
            entity: 9,
            impulse: IVec3 { x: 10000, y: 15000, z: -45000 },
        },
    );
    // the hammer stays in hand
    assert_eq!(p.viewmodel.holding, ViewModelHold::Hammer);
}

#[test]
fn hammer_shatters_a_close_bundle_into_staggered_lines() {
    let mut p = holding_hammer(3);
    let rng = &mut rng_from_seed(11);
    let e = p.step(&left_click(Some(Target::Bundle { entity: 60, children: vec![4, 5, 6] })), rng);
    match e {
        InteractionEffect::Shatter { bundle, pieces } => {
            assert_eq!(bundle, 60);
            assert_eq!(pieces.len(), 3);
            for (i, piece) in pieces.iter().enumerate() {
                assert_eq!(piece.entity, [4u64, 5, 6][i]);
                assert_eq!(piece.rise_milli, 20 * i as u64);
                assert_eq!(piece.impulse.y, 15000);
                assert!(piece.impulse.x >= -15000 && piece.impulse.x <= 15000);
                assert!(piece.impulse.z >= -15000 && piece.impulse.z <= 15000);
            }
        },
        other => panic!("expected a shatter, got {:?}", other),
    }
}

#[test]
fn hammer_ignores_a_bundle_out_of_swing_reach() {
    let mut p = holding_hammer(3);
    let rng = &mut rng_from_seed(12);
    let click = Click {
        button: MouseButton::Left,
        target: Some(Target::Bundle { entity: 60, children: vec![4, 5] }),
        direction: forward(),
        toi: 2000,
    };
    let e = p.step(&click, rng);
    assert_eq!(e, InteractionEffect::NoEffect);
    assert!(!p.lock.ran);
}

#[test]
fn hammer_swing_at_nothing_only_misses() {
    let mut p = holding_hammer(3);
    let rng = &mut rng_from_seed(13);
    let e = p.step(&left_click(None), rng);
    assert_eq!(e, InteractionEffect::MissSwing);
    assert_eq!(p.viewmodel.holding, ViewModelHold::Hammer);
}

#[test]
fn clicking_the_terminal_freezes_the_player() {
    let mut p = PlayerInteraction::new();
    let rng = &mut rng_from_seed(14);
    let e = p.step(&left_click(Some(Target::Terminal { entity: 77 })), rng);
    assert_eq!(e, InteractionEffect::EnterTerminal);
    assert_eq!(p.fsm.state(), PlayerState::Interacting);
    assert_eq!(p.viewmodel.holding, ViewModelHold::Empty);
}

#[test]
fn terminal_entry_while_holding_keeps_the_item() {
    let mut p = holding_line(5);
    let rng = &mut rng_from_seed(15);
    let e = p.step(&left_click(Some(Target::Terminal { entity: 77 })), rng);
    assert_eq!(e, InteractionEffect::EnterTerminal);
    assert_eq!(p.viewmodel.holding, ViewModelHold::LoC);
    // Holding cannot hop straight to Interacting: the star rule rejects it
    assert_eq!(p.fsm.state(), PlayerState::Holding);
}

#[test]
fn right_click_at_nothing_throws_the_held_item() {
    let mut p = holding_line(5);
    let rng = &mut rng_from_seed(16);
    let e = p.step(&right_click(None), rng);
    assert_eq!(
        e,
        InteractionEffect::Throw { entity: 5, impulse: IVec3 { x: 0, y: 0, z: -50000 } },
    );
    assert_eq!(p.viewmodel.holding, ViewModelHold::Empty);
    assert_eq!(p.fsm.state(), PlayerState::Idle);
}

#[test]
fn thrown_hammer_flies_four_times_harder() {
    let mut p = holding_hammer(3);
    let rng = &mut rng_from_seed(17);
    let e = p.step(&right_click(None), rng);
    assert_eq!(
        e,
        InteractionEffect::Throw { entity: 3, impulse: IVec3 { x: 0, y: 0, z: -200000 } },
    );
}

#[test]
fn thrown_bundle_scales_with_its_line_count() {
    let mut p = holding_bundle(40, vec![7, 8, 9]);
    let rng = &mut rng_from_seed(18);
    let e = p.step(&right_click(None), rng);
    assert_eq!(
        e,
        InteractionEffect::Throw { entity: 40, impulse: IVec3 { x: 0, y: 0, z: -150000 } },
    );
}

#[test]
fn right_click_on_an_item_swaps_it_with_the_held_one() {
    let mut p = holding_line(5);
    let rng = &mut rng_from_seed(19);
    let e = p.step(&right_click(Some(Target::Hammer { entity: 3 })), rng);
    assert_eq!(
        e,
        InteractionEffect::Swap {
            taken: 3,
            released: 5,
            released_as: InteractableType::LineOfCode,
        },
    );
    assert_eq!(p.viewmodel.holding, ViewModelHold::Hammer);
    assert_eq!(p.held_entity, Some(3));
}

#[test]
fn swap_refuses_the_terminal() {
    let mut p = holding_line(5);
    let rng = &mut rng_from_seed(20);
    let e = p.step(&right_click(Some(Target::Terminal { entity: 77 })), rng);
    assert_eq!(e, InteractionEffect::NoEffect);
    assert_eq!(p.held_entity, Some(5));
}

#[test]
fn empty_right_click_does_nothing() {
    let mut p = PlayerInteraction::new();
    let rng = &mut rng_from_seed(21);
    assert_eq!(p.step(&right_click(None), rng), InteractionEffect::NoEffect);
    assert_eq!(p.step(&right_click(Some(Target::Line { entity: 4 })), rng), InteractionEffect::NoEffect);
}

#[test]
fn claimed_lock_blocks_every_rule() {
    let mut p = PlayerInteraction::new();
    p.lock.i_ran_dawddy();
    let rng = &mut rng_from_seed(22);
    let e = p.step(&left_click(Some(Target::Line { entity: 5 })), rng);
    assert_eq!(e, InteractionEffect::NoEffect);
    assert_eq!(p.viewmodel.holding, ViewModelHold::Empty);
}

#[test]
fn one_rule_per_intent() {
    // after the first rule claims the lock, the same click resolves to nothing
    let mut p = PlayerInteraction::new();
    let rng = &mut rng_from_seed(23);
    let click = left_click(Some(Target::Line { entity: 5 }));
    let first = p.step(&click, rng);
    assert!(matches!(first, InteractionEffect::PickUp { .. }));
    let second = p.step(&click, rng);
    assert_eq!(second, InteractionEffect::NoEffect);
}

#[test]
fn half_extent_formulas_at_both_call_sites() {
    // single-attach path: even counts are 0.05 * n, odd counts pad by 0.025
    assert_eq!(bundle_half_extent_attach(2), 100);
    assert_eq!(bundle_half_extent_attach(3), 125);
    assert_eq!(bundle_half_extent_attach(4), 200);
    assert_eq!(bundle_half_extent_attach(5), 225);
    // merge path: even counts agree, odd counts pad by 0.05
    assert_eq!(bundle_half_extent_merge(2), 100);
    assert_eq!(bundle_half_extent_merge(3), 150);
    assert_eq!(bundle_half_extent_merge(4), 200);
    assert_eq!(bundle_half_extent_merge(5), 250);
}

#[test]
fn detector_tracks_what_is_looked_at() {
    let mut looking = PlayerLookingAt { entity: None, dist: 0 };
    let mut lock = InteractSingleSystemLock { ran: true };
    // a hit within reach with no click: only the looked-at cache moves
    let intent = MouseInteraction::detect(&mut looking, &mut lock, Some((9, 1200)), 2500, None, forward());
    assert!(intent.is_none());
    assert_eq!(looking.entity, Some(9));
    assert_eq!(looking.dist, 1200);
    assert!(lock.ran);
    // a click on the same hit emits an intent and frees the lock
    let intent = MouseInteraction::detect(
        &mut looking,
        &mut lock,
        Some((9, 1200)),
        2500,
        Some(MouseButton::Left),
        forward(),
    );
    let intent = intent.unwrap();
    assert_eq!(intent.with, 9);
    assert_eq!(intent.toi, 1200);
    assert_eq!(intent.button, MouseButton::Left);
    assert!(!lock.ran);
    // a miss clears the looked-at entity
    let intent = MouseInteraction::detect(&mut looking, &mut lock, None, 2500, None, forward());
    assert!(intent.is_none());
    assert!(looking.entity.is_none());
}

#[test]
fn detector_ignores_hits_at_the_reach_limit() {
    let mut looking = PlayerLookingAt { entity: Some(1), dist: 100 };
    let mut lock = InteractSingleSystemLock { ran: true };
    let intent = MouseInteraction::detect(
        &mut looking,
        &mut lock,
        Some((9, 2500)),
        2500,
        Some(MouseButton::Left),
        forward(),
    );
    assert!(intent.is_none());
    assert_eq!(looking.entity, Some(1));
    assert!(lock.ran);
}

#[test]
fn bundle_lines_space_out_around_the_pivot() {
    // merge layout of three lines pivoting on the middle one
    assert_eq!(
        oi_git::interactions::bundle_child_offsets(3, 1),
        vec![100, 0, -100],
    );
    // attach layout pivots on half the pre-attach count
    assert_eq!(
        oi_git::interactions::bundle_child_offsets(3, 2 / 2),
        vec![100, 0, -100],
    );
    assert_eq!(oi_git::interactions::bundle_child_offsets(0, 0), Vec::<i64>::new());
}

#[test]
fn cleanup_drains_the_intent_queue() {
    let mut queue = vec![MouseInteraction {
        button: MouseButton::Left,
        with: 4,
        direction: IVec3 { x: 0, y: 0, z: -1000 },
        toi: 900,
    }];
    oi_git::interactions::clear_reader_because_fuck_you(&mut queue);
    assert!(queue.is_empty());
}

#[test]
fn cursor_grab_follows_clicks_and_escape() {
    assert!(oi_git::grab_cursor::cursor_grab(true, false, false));
    assert!(!oi_git::grab_cursor::cursor_grab(false, true, true));
    assert!(!oi_git::grab_cursor::cursor_grab(true, true, true));
    assert!(oi_git::grab_cursor::cursor_grab(false, false, true));
    assert_eq!(oi_git::grab_cursor::set_cursor_grabbed(true), (true, false));
}
