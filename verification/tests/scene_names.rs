use oi_git::code::{LoCBlock, LocType};
use oi_git::fsm::{PlayerState, PlayerStateMachine};
use oi_git::interactable::{Interactable, InteractableType};
use oi_git::office::OfficeAssetKind;
use oi_git::text_sprite::{char_of, index_of, iter_row_col, TextSprite};
use oi_git::tools::{classify_sensor, deleter_applies, apply_paint, scan_blocks, SensorAction, SType};
use oi_git::ui::{update_interact_text, PromptShade};
use oi_git::viewmodel::ViewModelHold;

#[test]
fn scene_name_prefixes_select_kinds() {
    assert!(matches!(OfficeAssetKind::from_str_prefix("collider_desk"), OfficeAssetKind::Collider));
    assert!(matches!(OfficeAssetKind::from_str_prefix("sensor_pp"), OfficeAssetKind::Sensor));
    assert!(matches!(OfficeAssetKind::from_str_prefix("dynamic_0.7_0.3_box"), OfficeAssetKind::Dynamic));
    assert!(matches!(OfficeAssetKind::from_str_prefix("point3d_spawn"), OfficeAssetKind::Point3D));
    assert!(matches!(OfficeAssetKind::from_str_prefix("render_target_screen"), OfficeAssetKind::RenderTarget));
    assert!(matches!(OfficeAssetKind::from_str_prefix("emissive_lamp"), OfficeAssetKind::EmissiveNormal));
    assert!(matches!(OfficeAssetKind::from_str_prefix("interactable_terminal"), OfficeAssetKind::Interactable));
    assert!(matches!(OfficeAssetKind::from_str_prefix("plain_mesh"), OfficeAssetKind::Normal));
    assert!(matches!(OfficeAssetKind::from_str_prefix(""), OfficeAssetKind::Normal));
}

#[test]
fn prefix_of_round_trips() {
    for k in [
        OfficeAssetKind::Collider,
        OfficeAssetKind::Sensor,
        OfficeAssetKind::Dynamic,
        OfficeAssetKind::Interactable,
        OfficeAssetKind::Point3D,
        OfficeAssetKind::RenderTarget,
        OfficeAssetKind::EmissiveNormal,
    ] {
        let name = format!("{}thing", k.prefix_of());
        assert_eq!(OfficeAssetKind::from_str_prefix(&name), k);
    }
}

#[test]
fn interactable_from_scene_name() {
    let tag = Interactable::from_name("interactable_terminal");
    assert_eq!(tag.itype(), InteractableType::Terminal);
}

#[test]
fn sensors_dispatch_by_name() {
    assert_eq!(classify_sensor("sensor_pp"), SensorAction::Paint(LocType::Green));
    assert_eq!(classify_sensor("sensor_nn"), SensorAction::Paint(LocType::Red));
    assert_eq!(classify_sensor("sensor_ee"), SensorAction::Paint(LocType::Neutral));
    assert_eq!(classify_sensor("sensor_deleter"), SensorAction::Delete);
    assert_eq!(classify_sensor("sensor_scandesk"), SensorAction::Scan);
    assert_eq!(classify_sensor("sensor_unknown"), SensorAction::Ignore);
}

#[test]
fn painting_keeps_the_text() {
    let mut block = LoCBlock { line_of_code: String::from("x"), loc_type: LocType::Neutral };
    apply_paint(&mut block, LocType::Red);
    assert_eq!(block.loc_type, LocType::Red);
    assert_eq!(block.line_of_code, "x");
}

#[test]
fn deleter_consumes_lines_and_bundles_only() {
    assert!(deleter_applies(InteractableType::LineOfCode));
    assert!(deleter_applies(InteractableType::LineOfCodeGlobule));
    assert!(!deleter_applies(InteractableType::Hammer));
    assert!(!deleter_applies(InteractableType::Terminal));
}

#[test]
fn scanning_two_blocks_reports_them_swapped() {
    let blocks = vec![
        LoCBlock { line_of_code: String::from("a"), loc_type: LocType::Neutral },
        LoCBlock { line_of_code: String::from("b"), loc_type: LocType::Green },
    ];
    let ev = scan_blocks(blocks).unwrap();
    assert_eq!(ev.stype, SType::Scanner);
    let lines = ev.loc.unwrap();
    assert_eq!(lines[0].line_of_code, "b");
    assert_eq!(lines[1].line_of_code, "a");
}

#[test]
fn scanning_other_counts_keeps_the_order() {
    let blocks = vec![
        LoCBlock { line_of_code: String::from("a"), loc_type: LocType::Neutral },
        LoCBlock { line_of_code: String::from("b"), loc_type: LocType::Neutral },
        LoCBlock { line_of_code: String::from("c"), loc_type: LocType::Neutral },
    ];
    let lines = scan_blocks(blocks).unwrap().loc.unwrap();
    assert_eq!(lines[0].line_of_code, "a");
    assert_eq!(lines[2].line_of_code, "c");
}

#[test]
fn scanning_nothing_fires_no_event() {
    assert!(scan_blocks(Vec::new()).is_none());
}

#[test]
fn glyph_atlas_covers_printable_ascii() {
    assert_eq!(index_of('A'), Some(0x41));
    assert_eq!(index_of(' '), Some(0x20));
    assert_eq!(index_of('~'), Some(0x7e));
    assert_eq!(index_of('\n'), None);
    assert_eq!(index_of('\u{7f}'), None);
    assert_eq!(char_of(0x41), Some('A'));
    assert_eq!(char_of(0x1f), None);
    assert_eq!(char_of(0x7f), None);
}

#[test]
fn glyphs_lay_out_by_row_and_column() {
    let cells = iter_row_col("ab\nc");
    assert_eq!(cells, vec![(0, 0, 'a'), (0, 1, 'b'), (1, 0, 'c')]);
}

#[test]
fn sprite_length_skips_line_breaks() {
    let sprite = TextSprite::new(String::from("ab\ncd\n"));
    assert_eq!(sprite.len(), 4);
}

#[test]
fn sprite_pop_takes_the_last_character() {
    let mut sprite = TextSprite::new(String::from("a\n"));
    assert_eq!(sprite.pop(), Some('\n'));
    assert_eq!(sprite.pop(), Some('a'));
    assert_eq!(sprite.pop(), None);
}

#[test]
fn prompt_offers_interact_at_a_close_terminal() {
    let state = PlayerStateMachine::default();
    let mut text = String::new();
    let mut shade = PromptShade::Transparent;
    update_interact_text(
        &state,
        ViewModelHold::Empty,
        true,
        Some(InteractableType::Terminal),
        1200,
        &mut text,
        &mut shade,
    );
    assert_eq!(text, "[MOUSE1] Interact");
    assert_eq!(shade, PromptShade::Shadow);
}

#[test]
fn prompt_far_terminal_changes_nothing() {
    let state = PlayerStateMachine::default();
    let mut text = String::from("stale");
    let mut shade = PromptShade::Shadow;
    update_interact_text(
        &state,
        ViewModelHold::Empty,
        true,
        Some(InteractableType::Terminal),
        1800,
        &mut text,
        &mut shade,
    );
    assert_eq!(text, "stale");
}

#[test]
fn prompt_offers_pickup_and_throw() {
    let state = PlayerStateMachine::default();
    let mut text = String::new();
    let mut shade = PromptShade::Transparent;
    update_interact_text(
        &state,
        ViewModelHold::Empty,
        true,
        Some(InteractableType::Hammer),
        900,
        &mut text,
        &mut shade,
    );
    assert_eq!(text, "[MOUSE1] Pickup");
    update_interact_text(&state, ViewModelHold::LoC, false, None, 0, &mut text, &mut shade);
    assert_eq!(text, "[MOUSE2] Throw");
    update_interact_text(&state, ViewModelHold::Hammer, false, None, 0, &mut text, &mut shade);
    assert_eq!(text, "[MOUSE1] Swing\n[MOUSE2] Throw");
}

#[test]
fn prompt_offers_attach_and_swap() {
    let state = PlayerStateMachine::default();
    let mut text = String::new();
    let mut shade = PromptShade::Transparent;
    update_interact_text(
        &state,
        ViewModelHold::LoC,
        true,
        Some(InteractableType::LineOfCode),
        900,
        &mut text,
        &mut shade,
    );
    assert_eq!(text, "[MOUSE1] Attach\n[MOUSE2] Swap");
    update_interact_text(
        &state,
        ViewModelHold::Hammer,
        true,
        Some(InteractableType::LineOfCodeGlobule),
        900,
        &mut text,
        &mut shade,
    );
    assert_eq!(text, "[MOUSE1] Swing\n[MOUSE2] Swap");
}

#[test]
fn prompt_blanks_while_interacting() {
    let mut state = PlayerStateMachine::default();
    state.change_state(PlayerState::Interacting);
    let mut text = String::from("stale");
    let mut shade = PromptShade::Shadow;
    // nothing looked at with empty hands: the prompt clears
    update_interact_text(&state, ViewModelHold::Empty, false, None, 0, &mut text, &mut shade);
    assert_eq!(text, "");
    assert_eq!(shade, PromptShade::Transparent);
}
