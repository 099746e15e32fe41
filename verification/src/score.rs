//! Grading a submission against the level's reference lines.
//!
//! The algorithm is a one-pass greedy forward alignment: for each reference
//! line in order, the remaining submission is consumed element by element
//! until an equal line (same text, same colour) is found; if the submission
//! runs out, the remaining reference lines are misses and scoring stops. It
//! never backtracks, so consumed elements are lost even when a later
//! reference line would have matched them.

use vstd::prelude::*;

verus! {

use crate::code::{LineOfCode, LineOfCodeView};

/// Two lines grade as equal when their text and their colour agree.
pub open spec fn line_matches(a: LineOfCodeView, b: LineOfCodeView) -> bool {
    a.code == b.code && a.color == b.color
}

/// The number of reference lines of `cor` the greedy forward scan matches in
/// `sub`.
pub open spec fn spec_match_count(cor: Seq<LineOfCodeView>, sub: Seq<LineOfCodeView>) -> nat
    decreases cor.len(), sub.len(),
{
    if cor.len() == 0 || sub.len() == 0 {
        0
    } else if line_matches(cor[0], sub[0]) {
        1 + spec_match_count(cor.drop_first(), sub.drop_first())
    } else {
        spec_match_count(cor, sub.drop_first())
    }
}

/// A grade as the exact fraction `correct / out_of`, where `out_of` is the
/// number of reference lines.
#[derive(Debug, Copy, Clone, PartialEq, Eq, Structural)]
pub struct Score {
    pub correct: usize,
    pub out_of: usize,
}

fn line_eq(a: &LineOfCode, b: &LineOfCode) -> (r: bool)
    ensures
        r == line_matches(a@, b@),
{
    a.code == b.code && a.color == b.color
}

/// Grade the submission `sub` against the reference `cor`: the fraction of
/// reference lines matched by the greedy forward scan.
pub fn score(cor: &Vec<LineOfCode>, sub: &Vec<LineOfCode>) -> (r: Score)
    ensures
        r.correct == spec_match_count(cor.deep_view(), sub.deep_view()),
        r.out_of == cor@.len(),
        r.correct <= r.out_of,
{
    let ghost corv = cor.deep_view();
    let ghost subv = sub.deep_view();
    let mut correct: usize = 0;
    let mut i: usize = 0;
    let mut j: usize = 0;
    proof {
        assert(corv.skip(0) =~= corv);
        assert(subv.skip(0) =~= subv);
    }
    while i < cor.len() && j < sub.len()
        invariant
            corv == cor.deep_view(),
            subv == sub.deep_view(),
            corv.len() == cor@.len(),
            subv.len() == sub@.len(),
            0 <= i <= corv.len(),
            0 <= j <= subv.len(),
            correct <= i,
            correct + spec_match_count(corv.skip(i as int), subv.skip(j as int))
                == spec_match_count(corv, subv),
        decreases corv.len() - i + subv.len() - j,
    {
        proof {
            assert(corv.skip(i as int)[0] == corv[i as int]);
            assert(subv.skip(j as int)[0] == subv[j as int]);
            assert(corv[i as int] == cor@[i as int]@);
            assert(subv[j as int] == sub@[j as int]@);
        }
        if line_eq(&cor[i], &sub[j]) {
            proof {
                assert(corv.skip(i as int).drop_first() =~= corv.skip(i + 1));
                assert(subv.skip(j as int).drop_first() =~= subv.skip(j + 1));
            }
            correct = correct + 1;
            i = i + 1;
            j = j + 1;
        } else {
            proof {
                assert(subv.skip(j as int).drop_first() =~= subv.skip(j + 1));
            }
            j = j + 1;
        }
    }
    proof {
        lemma_match_count_le(corv, subv);
    }
    Score { correct, out_of: cor.len() }
}

/// The match count never exceeds the number of reference lines.
pub proof fn lemma_match_count_le(cor: Seq<LineOfCodeView>, sub: Seq<LineOfCodeView>)
    ensures
        spec_match_count(cor, sub) <= cor.len(),
    decreases cor.len(), sub.len(),
{
    if cor.len() == 0 || sub.len() == 0 {
    } else if line_matches(cor[0], sub[0]) {
        lemma_match_count_le(cor.drop_first(), sub.drop_first());
    } else {
        lemma_match_count_le(cor, sub.drop_first());
    }
}

/// Submitting the reference itself matches every line: the grade of
/// `score(cor, cor)` is the full fraction `cor.len() / cor.len()`.
pub proof fn lemma_score_identity(cor: Seq<LineOfCodeView>)
    ensures
        spec_match_count(cor, cor) == cor.len(),
    decreases cor.len(),
{
    if cor.len() > 0 {
        lemma_score_identity(cor.drop_first());
    }
}

/// An empty submission matches nothing: the grade of `score(cor, [])` is the
/// zero fraction.
pub proof fn lemma_score_empty_submission(cor: Seq<LineOfCodeView>)
    ensures
        spec_match_count(cor, Seq::<LineOfCodeView>::empty()) == 0,
{
}

/// The scan never backtracks: a submitted line that fails to match the
/// reference line currently sought is consumed and plays no further part.
pub proof fn lemma_scan_consumes_mismatch(cor: Seq<LineOfCodeView>, sub: Seq<LineOfCodeView>)
    requires
        cor.len() > 0,
        sub.len() > 0,
        !line_matches(cor[0], sub[0]),
    ensures
        spec_match_count(cor, sub) == spec_match_count(cor, sub.drop_first()),
{
}

/// An extra element inserted at the front of the submission does not block
/// the scan when it matches no first reference line: the rest grades as it
/// would have without it.
pub proof fn lemma_leading_extra_is_skipped(
    cor: Seq<LineOfCodeView>,
    sub: Seq<LineOfCodeView>,
    x: LineOfCodeView,
)
    requires
        cor.len() > 0,
        !line_matches(cor[0], x),
    ensures
        spec_match_count(cor, seq![x] + sub) == spec_match_count(cor, sub),
{
    assert((seq![x] + sub)[0] == x);
    assert((seq![x] + sub).drop_first() =~= sub);
}

} // verus!
