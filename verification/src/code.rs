//! Lines of code: the diff classification parsed from level text, the colour
//! derived from it, and the placed-block data the scanner collects.

use vstd::prelude::*;

verus! {

use crate::strings::spec_starts_with;

/// Marker for every entity that belongs to the current level's code set and is
/// despawned when the level ends or restarts.
pub struct LoCEntity;

/// The diff classification of a line, given by its two-character prefix.
#[derive(Debug, Copy, Clone, PartialEq, Eq, Structural)]
pub enum Diff {
    Pos,
    Neg,
    Eq,
    Rem,
}

/// The colour a line is rendered in. Placed blocks start from the colour
/// derived from their diff but can be repainted by the sensors.
#[derive(Debug, Copy, Clone, PartialEq, Eq, Structural)]
pub enum CodeColor {
    Green,
    Red,
    Normal,
    NoColor,
}

/// The diff a line carries: the first of the four prefixes that matches, or
/// nothing when none does.
pub open spec fn diff_of_line(s: Seq<char>) -> Option<Diff> {
    if spec_starts_with(s, "++"@) {
        Some(Diff::Pos)
    } else if spec_starts_with(s, "--"@) {
        Some(Diff::Neg)
    } else if spec_starts_with(s, "=="@) {
        Some(Diff::Eq)
    } else if spec_starts_with(s, "!!"@) {
        Some(Diff::Rem)
    } else {
        None
    }
}

impl Diff {
    pub open spec fn spec_prefix(&self) -> Seq<char> {
        match *self {
            Diff::Pos => "++"@,
            Diff::Neg => "--"@,
            Diff::Eq => "=="@,
            Diff::Rem => "!!"@,
        }
    }

    /// The two-character prefix that marks this diff in level text.
    pub fn prefix(&self) -> (r: &'static str)
        ensures
            r@ == self.spec_prefix(),
    {
        match *self {
            Diff::Pos => "++",
            Diff::Neg => "--",
            Diff::Eq => "==",
            Diff::Rem => "!!",
        }
    }

    /// Classify a line by its prefix. Level text is required to be well
    /// formed: a line matching none of the four prefixes is a fatal load-time
    /// error, so such lines are excluded here and rejected by the callers
    /// that parse whole blocks.
    pub fn from_line(s: &str) -> (r: Self)
        requires
            diff_of_line(s@) is Some,
        ensures
            diff_of_line(s@) == Some(r),
    {
        match classify_line(s) {
            Some(d) => d,
            None => {
                proof {
                    assert(false);
                }
                Diff::Pos
            },
        }
    }

    /// The colour canonically derived from a diff.
    pub fn to_color(&self) -> (r: CodeColor)
        ensures
            r == spec_diff_color(*self),
    {
        match *self {
            Diff::Rem => CodeColor::NoColor,
            Diff::Neg => CodeColor::Red,
            Diff::Pos => CodeColor::Green,
            Diff::Eq => CodeColor::Normal,
        }
    }
}

/// Classify a line by its two-character prefix, with no claim that one is
/// there.
pub(crate) fn classify_line(s: &str) -> (r: Option<Diff>)
    ensures
        r == diff_of_line(s@),
{
    proof {
        reveal_strlit("++");
        reveal_strlit("--");
        reveal_strlit("==");
        reveal_strlit("!!");
    }
    let n = s.unicode_len();
    if n >= 2 {
        let c0 = s.get_char(0);
        let c1 = s.get_char(1);
        proof {
            assert(forall|p: Seq<char>|
                p.len() == 2 && spec_starts_with(s@, p) ==> p[0] == s@[0] && p[1] == s@[1]);
        }
        if c0 == '+' && c1 == '+' {
            proof {
                assert(spec_starts_with(s@, "++"@)) by {
                    assert(s@.subrange(0, 2) =~= "++"@);
                }
            }
            Some(Diff::Pos)
        } else if c0 == '-' && c1 == '-' {
            proof {
                assert(spec_starts_with(s@, "--"@)) by {
                    assert(s@.subrange(0, 2) =~= "--"@);
                }
            }
            Some(Diff::Neg)
        } else if c0 == '=' && c1 == '=' {
            proof {
                assert(spec_starts_with(s@, "=="@)) by {
                    assert(s@.subrange(0, 2) =~= "=="@);
                }
            }
            Some(Diff::Eq)
        } else if c0 == '!' && c1 == '!' {
            proof {
                assert(spec_starts_with(s@, "!!"@)) by {
                    assert(s@.subrange(0, 2) =~= "!!"@);
                }
            }
            Some(Diff::Rem)
        } else {
            None
        }
    } else {
        None
    }
}

/// The canonical diff-to-colour map: `Pos` is green, `Neg` red, `Eq` the
/// normal text colour, and removed lines carry no colour.
pub open spec fn spec_diff_color(d: Diff) -> CodeColor {
    match d {
        Diff::Rem => CodeColor::NoColor,
        Diff::Neg => CodeColor::Red,
        Diff::Pos => CodeColor::Green,
        Diff::Eq => CodeColor::Normal,
    }
}

/// A line that begins with a diff's own prefix is classified as exactly that
/// diff.
pub proof fn lemma_prefix_identifies_diff(d: Diff, s: Seq<char>)
    requires
        spec_starts_with(s, d.spec_prefix()),
    ensures
        diff_of_line(s) == Some(d),
{
    reveal_strlit("++");
    reveal_strlit("--");
    reveal_strlit("==");
    reveal_strlit("!!");
    assert forall|p: Seq<char>| p.len() == 2 && spec_starts_with(s, p) implies p[0] == s[0]
        && p[1] == s[1] by {
        assert(s.subrange(0, 2)[0] == s[0]);
        assert(s.subrange(0, 2)[1] == s[1]);
    }
    assert(s.subrange(0, 2) =~= seq![s[0], s[1]]);
}

/// A parsed line of level text: its diff, the colour it is graded under, and
/// the code text with the prefix stripped.
#[derive(Debug)]
pub struct LineOfCode {
    pub diff: Diff,
    pub color: CodeColor,
    pub code: String,
}

/// The mathematical content of a [`LineOfCode`].
pub struct LineOfCodeView {
    pub diff: Diff,
    pub color: CodeColor,
    pub code: Seq<char>,
}

impl View for LineOfCode {
    type V = LineOfCodeView;

    open spec fn view(&self) -> LineOfCodeView {
        LineOfCodeView { diff: self.diff, color: self.color, code: self.code@ }
    }
}

impl DeepView for LineOfCode {
    type V = LineOfCodeView;

    open spec fn deep_view(&self) -> LineOfCodeView {
        self@
    }
}

impl Clone for LineOfCode {
    fn clone(&self) -> (r: Self)
        ensures
            r@ == self@,
    {
        LineOfCode { diff: self.diff.clone(), color: self.color.clone(), code: self.code.clone() }
    }
}

/// The runtime colour class of a placed block, set by the painting sensors.
#[derive(Debug, Copy, Clone, Ord, PartialOrd, Eq, PartialEq, Structural)]
pub enum LocType {
    Neutral,
    Green,
    Red,
}

/// The data carried by a placed line-of-code block: its text and the colour
/// it currently shows.
#[derive(Debug)]
pub struct LoCBlock {
    pub line_of_code: String,
    pub loc_type: LocType,
}

/// The mathematical content of a [`LoCBlock`].
pub struct LoCBlockView {
    pub line_of_code: Seq<char>,
    pub loc_type: LocType,
}

impl View for LoCBlock {
    type V = LoCBlockView;

    open spec fn view(&self) -> LoCBlockView {
        LoCBlockView { line_of_code: self.line_of_code@, loc_type: self.loc_type }
    }
}

impl DeepView for LoCBlock {
    type V = LoCBlockView;

    open spec fn deep_view(&self) -> LoCBlockView {
        self@
    }
}

impl Clone for LoCBlock {
    fn clone(&self) -> (r: Self)
        ensures
            r@ == self@,
    {
        LoCBlock { line_of_code: self.line_of_code.clone(), loc_type: self.loc_type }
    }
}

/// The diff and colour a scanned block is graded as, by its painted colour.
pub open spec fn spec_block_grading(t: LocType) -> (CodeColor, Diff) {
    match t {
        LocType::Green => (CodeColor::Green, Diff::Pos),
        LocType::Red => (CodeColor::Red, Diff::Neg),
        LocType::Neutral => (CodeColor::Normal, Diff::Eq),
    }
}

/// Turn a scanned block into the line the scoring engine compares: the text is
/// kept and the painted colour decides the diff and colour it is graded under.
pub fn locblk_to_loc(blk: LoCBlock) -> (r: LineOfCode)
    ensures
        r@.code == blk@.line_of_code,
        (r@.color, r@.diff) == spec_block_grading(blk@.loc_type),
{
    let (color, diff) = match blk.loc_type {
        LocType::Green => (CodeColor::Green, Diff::Pos),
        LocType::Red => (CodeColor::Red, Diff::Neg),
        LocType::Neutral => (CodeColor::Normal, Diff::Eq),
    };
    LineOfCode { diff, color, code: blk.line_of_code }
}

} // verus!
