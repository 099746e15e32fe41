use oi_git::code::{CodeColor, Diff, LineOfCode};
use oi_git::score::score;

fn line(code: &str) -> LineOfCode {
    LineOfCode { diff: Diff::Eq, color: CodeColor::Normal, code: String::from(code) }
}

fn lines(codes: &[&str]) -> Vec<LineOfCode> {
    codes.iter().map(|c| line(c)).collect()
}

#[test]
fn submitting_the_reference_scores_full_marks() {
    let cor = lines(&["a", "b", "c"]);
    let sub = lines(&["a", "b", "c"]);
    let s = score(&cor, &sub);
    assert_eq!(s.correct, 3);
    assert_eq!(s.out_of, 3);
}

#[test]
fn empty_submission_scores_zero() {
    let cor = lines(&["a", "b", "c"]);
    let sub: Vec<LineOfCode> = Vec::new();
    let s = score(&cor, &sub);
    assert_eq!(s.correct, 0);
    assert_eq!(s.out_of, 3);
}

#[test]
fn unmatched_element_at_front_is_skipped_over() {
    // the forward scan consumes the stray element while seeking the first
    // reference line, so everything still matches
    let cor = lines(&["a", "b", "c"]);
    let sub = lines(&["x", "a", "b", "c"]);
    let s = score(&cor, &sub);
    assert_eq!(s.correct, 3);
    assert_eq!(s.out_of, 3);
}

#[test]
fn greedy_scan_undercounts_a_shuffle() {
    // seeking "a" consumes the leading "b"; when "b" is sought the
    // submission is exhausted, so only one line counts
    let cor = lines(&["a", "b"]);
    let sub = lines(&["b", "a"]);
    let s = score(&cor, &sub);
    assert_eq!(s.correct, 1);
    assert_eq!(s.out_of, 2);
}

#[test]
fn colour_must_match_too() {
    let cor = vec![LineOfCode { diff: Diff::Pos, color: CodeColor::Green, code: String::from("a") }];
    let sub = vec![LineOfCode { diff: Diff::Pos, color: CodeColor::Red, code: String::from("a") }];
    let s = score(&cor, &sub);
    assert_eq!(s.correct, 0);
    assert_eq!(s.out_of, 1);
}

#[test]
fn scan_stops_when_submission_runs_out() {
    let cor = lines(&["a", "b", "c", "d"]);
    let sub = lines(&["a", "x"]);
    let s = score(&cor, &sub);
    assert_eq!(s.correct, 1);
    assert_eq!(s.out_of, 4);
}
