use oi_git::code::{locblk_to_loc, CodeColor, Diff, LoCBlock, LocType};
use oi_git::level::CodeBlock;

#[test]
fn from_line_recognises_every_prefix() {
    assert_eq!(Diff::from_line("++ added line"), Diff::Pos);
    assert_eq!(Diff::from_line("-- removed line"), Diff::Neg);
    assert_eq!(Diff::from_line("== kept line"), Diff::Eq);
    assert_eq!(Diff::from_line("!! dropped line"), Diff::Rem);
}

#[test]
fn from_line_uses_only_the_prefix() {
    assert_eq!(Diff::from_line("++"), Diff::Pos);
    assert_eq!(Diff::from_line("--x ++"), Diff::Neg);
}

#[test]
fn prefix_round_trip() {
    for d in [Diff::Pos, Diff::Neg, Diff::Eq, Diff::Rem] {
        let line = format!("{} body", d.prefix());
        assert_eq!(Diff::from_line(&line), d);
    }
}

#[test]
fn missing_prefix_is_rejected_at_parse() {
    // a line with no diff prefix is fatal for level data: parsing reports it
    assert!(CodeBlock::from_str("no prefix here").is_none());
    assert!(CodeBlock::from_str("++ good\nbad").is_none());
    assert!(CodeBlock::from_str("").is_some());
}

#[test]
fn prefix_without_space_is_rejected() {
    assert!(CodeBlock::from_str("++tight").is_none());
}

#[test]
fn to_color_maps_every_variant() {
    assert_eq!(Diff::Pos.to_color(), CodeColor::Green);
    assert_eq!(Diff::Neg.to_color(), CodeColor::Red);
    assert_eq!(Diff::Eq.to_color(), CodeColor::Normal);
    assert_eq!(Diff::Rem.to_color(), CodeColor::NoColor);
}

#[test]
fn block_parse_strips_prefix_and_space() {
    let block = CodeBlock::from_str("++ let x = 1;\n== done\n").unwrap();
    assert_eq!(block.code.len(), 2);
    assert_eq!(block.code[0].code, "let x = 1;");
    assert_eq!(block.code[0].diff, Diff::Pos);
    assert_eq!(block.code[0].color, CodeColor::Green);
    assert_eq!(block.code[1].code, "done");
    assert_eq!(block.code[1].diff, Diff::Eq);
}

#[test]
fn scanned_block_grades_by_painted_colour() {
    let green = locblk_to_loc(LoCBlock {
        line_of_code: String::from("let x = 1;"),
        loc_type: LocType::Green,
    });
    assert_eq!(green.diff, Diff::Pos);
    assert_eq!(green.color, CodeColor::Green);
    assert_eq!(green.code, "let x = 1;");

    let red = locblk_to_loc(LoCBlock { line_of_code: String::from("a"), loc_type: LocType::Red });
    assert_eq!(red.diff, Diff::Neg);
    assert_eq!(red.color, CodeColor::Red);

    let neutral = locblk_to_loc(LoCBlock {
        line_of_code: String::from("b"),
        loc_type: LocType::Neutral,
    });
    assert_eq!(neutral.diff, Diff::Eq);
    assert_eq!(neutral.color, CodeColor::Normal);
}
