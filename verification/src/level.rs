//! The level engine: parsing the bundled level text, the countdown timer, and
//! the most recent scanned submission.

use vstd::prelude::*;

verus! {

use crate::code::{
    classify_line,
    diff_of_line,
    spec_diff_color,
    LineOfCode,
    LineOfCodeView,
    LoCBlock,
    LoCBlockView,
};
use crate::state::GameState;
use crate::strings::{push_char, spec_dec2, spec_lines, spec_split, split_lines, split_str, u64_to_dec2};
use crate::tools::{SType, SensorEvent};

/// Request to start (or restart) the level with this index.
#[derive(Debug)]
pub struct NewLevel {
    pub number: usize,
}

impl NewLevel {
    /// Whether any start-level request is pending; the caller drains the
    /// queue afterwards.
    pub fn has_triggered(new: &Vec<NewLevel>) -> (r: bool)
        ensures
            r == (new@.len() != 0),
    {
        new.len() != 0
    }
}

/// The number of levels a time budget is configured for.
pub const LEVEL_TIME_COUNT: usize = 6;

/// The per-level time budget, in seconds.
pub open spec fn spec_level_time_secs(n: int) -> u64 {
    if n == 0 {
        180
    } else if n == 1 {
        120
    } else if n == 2 {
        150
    } else if n == 3 {
        250
    } else if n == 4 {
        250
    } else {
        300
    }
}

/// Look up the time budget of level `n`. Levels beyond the configured table
/// are a fatal error in the original data and are excluded here.
pub fn level_time_secs(n: usize) -> (r: u64)
    requires
        n < LEVEL_TIME_COUNT,
    ensures
        r == spec_level_time_secs(n as int),
{
    if n == 0 {
        180
    } else if n == 1 {
        120
    } else if n == 2 {
        150
    } else if n == 3 {
        250
    } else if n == 4 {
        250
    } else {
        300
    }
}

/// A line parses when it starts with a diff prefix followed by one space; the
/// rest is the code text, coloured by its diff.
pub open spec fn spec_parse_line(l: Seq<char>) -> Option<LineOfCodeView> {
    match diff_of_line(l) {
        Some(d) => {
            if l.len() >= 3 && l[2] == ' ' {
                Some(LineOfCodeView { diff: d, color: spec_diff_color(d), code: l.skip(3) })
            } else {
                None
            }
        },
        None => None,
    }
}

fn parse_line(l: &str) -> (r: Option<LineOfCode>)
    ensures
        r is Some <==> spec_parse_line(l@) is Some,
        r matches Some(loc) ==> spec_parse_line(l@) == Some(loc@),
{
    match classify_line(l) {
        None => None,
        Some(d) => {
            let n = l.unicode_len();
            if n >= 3 && l.get_char(2) == ' ' {
                let code = String::from_str(l.substring_char(3, n));
                proof {
                    assert(code@ =~= l@.skip(3));
                }
                let color = d.to_color();
                Some(LineOfCode { diff: d, color, code })
            } else {
                None
            }
        },
    }
}

/// One level's reference code: its parsed lines in order.
#[derive(Debug)]
pub struct CodeBlock {
    pub code: Vec<LineOfCode>,
}

impl View for CodeBlock {
    type V = Seq<LineOfCodeView>;

    open spec fn view(&self) -> Seq<LineOfCodeView> {
        self.code.deep_view()
    }
}

impl DeepView for CodeBlock {
    type V = Seq<LineOfCodeView>;

    open spec fn deep_view(&self) -> Seq<LineOfCodeView> {
        self@
    }
}

/// A block parses when every one of its lines does.
pub open spec fn spec_parse_block(s: Seq<char>) -> Option<Seq<LineOfCodeView>> {
    let ls = spec_lines(s);
    if forall|k: int| 0 <= k < ls.len() ==> (#[trigger] spec_parse_line(ls[k])) is Some {
        Some(Seq::new(ls.len(), |k: int| spec_parse_line(ls[k]).unwrap()))
    } else {
        None
    }
}

impl CodeBlock {
    /// Parse one level's text, line by line. Malformed level text is a fatal
    /// load-time error in the original data; here it is reported as `None`
    /// and the caller aborts loading.
    pub fn from_str(s: &str) -> (r: Option<CodeBlock>)
        ensures
            r is Some <==> spec_parse_block(s@) is Some,
            r matches Some(b) ==> Some(b@) == spec_parse_block(s@),
    {
        let ls = split_lines(s);
        let mut code: Vec<LineOfCode> = Vec::new();
        let mut i: usize = 0;
        while i < ls.len()
            invariant
                ls.deep_view() == spec_lines(s@),
                0 <= i <= ls@.len(),
                code@.len() == i,
                forall|k: int|
                    0 <= k < i ==> (#[trigger] spec_parse_line(ls.deep_view()[k])) is Some,
                forall|k: int|
                    0 <= k < i ==> #[trigger] code.deep_view()[k] == spec_parse_line(
                        ls.deep_view()[k],
                    ).unwrap(),
            decreases ls@.len() - i,
        {
            let l: &str = ls[i].as_str();
            proof {
                assert(l@ == ls.deep_view()[i as int]);
            }
            match parse_line(l) {
                Some(loc) => {
                    let ghost code0 = code@;
                    let ghost dv0 = code.deep_view();
                    let ghost loc_view = loc@;
                    code.push(loc);
                    i = i + 1;
                    proof {
                        assert forall|k: int| 0 <= k < i implies #[trigger] code.deep_view()[k]
                            == spec_parse_line(ls.deep_view()[k]).unwrap() by {
                            assert(code.deep_view()[k] == code@[k]@);
                            if k < i - 1 {
                                assert(code@[k] == code0[k]);
                                assert(dv0[k] == code0[k]@);
                            } else {
                                assert(code@[k]@ == loc_view);
                            }
                        }
                    }
                },
                None => {
                    proof {
                        assert(spec_parse_line(spec_lines(s@)[i as int]) is None);
                    }
                    return None;
                },
            }
        }
        proof {
            let ls_spec = spec_lines(s@);
            assert(spec_parse_block(s@) is Some);
            assert(code.deep_view() =~= spec_parse_block(s@).unwrap());
        }
        Some(CodeBlock { code })
    }
}

/// The token separating one level's text from the next.
pub const LEVEL_SEP: &'static str = "NEXT_LEVEL\n";

/// The raw text of each level, in order.
pub open spec fn spec_level_texts(text: Seq<char>) -> Seq<Seq<char>> {
    spec_split(text, "NEXT_LEVEL\n"@)
}

/// All levels: the parsed blocks, the raw text of each (the terminal shows
/// it), and the index of the level being played.
#[derive(Debug)]
pub struct Levels {
    pub levels: Vec<CodeBlock>,
    pub code_text: Vec<String>,
    pub current: usize,
}

impl Levels {
    /// Split the bundled level text on the separator token and parse every
    /// level. Malformed text is fatal in the original data; here loading
    /// reports `None` and the caller aborts.
    pub fn load(text: &str) -> (r: Option<Levels>)
        ensures
            r is Some <==> (forall|k: int|
                0 <= k < spec_level_texts(text@).len() ==> spec_parse_block(
                    #[trigger] spec_level_texts(text@)[k],
                ) is Some),
            r matches Some(lv) ==> {
                &&& lv.code_text.deep_view() == spec_level_texts(text@)
                &&& lv.levels@.len() == spec_level_texts(text@).len()
                &&& forall|k: int|
                    0 <= k < spec_level_texts(text@).len() ==> #[trigger] lv.levels.deep_view()[k]
                        == spec_parse_block(spec_level_texts(text@)[k]).unwrap()
                &&& lv.current == 0
            },
    {
        proof {
            reveal_strlit("NEXT_LEVEL\n");
        }
        let code_text = split_str(text, LEVEL_SEP);
        let mut levels: Vec<CodeBlock> = Vec::new();
        let mut i: usize = 0;
        while i < code_text.len()
            invariant
                code_text.deep_view() == spec_level_texts(text@),
                0 <= i <= code_text@.len(),
                levels@.len() == i,
                forall|k: int|
                    0 <= k < i ==> spec_parse_block(
                        #[trigger] code_text.deep_view()[k],
                    ) is Some,
                forall|k: int|
                    0 <= k < i ==> #[trigger] levels.deep_view()[k] == spec_parse_block(
                        code_text.deep_view()[k],
                    ).unwrap(),
            decreases code_text@.len() - i,
        {
            let block_text: &str = code_text[i].as_str();
            proof {
                assert(block_text@ == code_text.deep_view()[i as int]);
            }
            match CodeBlock::from_str(block_text) {
                Some(block) => {
                    let ghost levels0 = levels@;
                    let ghost dv0 = levels.deep_view();
                    let ghost block_view = block@;
                    levels.push(block);
                    i = i + 1;
                    proof {
                        assert forall|k: int| 0 <= k < i implies #[trigger] levels.deep_view()[k]
                            == spec_parse_block(code_text.deep_view()[k]).unwrap() by {
                            assert(levels.deep_view()[k] == levels@[k]@);
                            if k < i - 1 {
                                assert(levels@[k] == levels0[k]);
                                assert(dv0[k] == levels0[k]@);
                            } else {
                                assert(levels@[k]@ == block_view);
                            }
                        }
                    }
                },
                None => {
                    proof {
                        assert(spec_parse_block(spec_level_texts(text@)[i as int]) is None);
                    }
                    return None;
                },
            }
        }
        Some(Levels { levels, code_text, current: 0 })
    }
}

/// The most recent scanner capture, if any: what a submit will be graded on.
#[derive(Debug)]
pub struct Submitted {
    pub last: Option<Vec<LoCBlock>>,
}

impl Default for Submitted {
    fn default() -> (r: Self)
        ensures
            spec_submitted(&r) is None,
    {
        Submitted { last: None }
    }
}

/// The mathematical content of the submission slot.
pub open spec fn spec_submitted(s: &Submitted) -> Option<Seq<LoCBlockView>> {
    match s.last {
        Some(v) => Some(v.deep_view()),
        None => None,
    }
}

/// The submission slot after reading the sensor queue from position `i` on:
/// each scanner event replaces it, and a scanner event that carries no blocks
/// stops the reading.
pub open spec fn spec_scan_update(
    prev: Option<Seq<LoCBlockView>>,
    evs: Seq<SensorEvent>,
    i: int,
) -> Option<Seq<LoCBlockView>>
    decreases evs.len() - i,
{
    if i < 0 || i >= evs.len() {
        prev
    } else if evs[i].stype == SType::Scanner {
        match evs[i].loc {
            Some(v) => spec_scan_update(Some(v.deep_view()), evs, i + 1),
            None => prev,
        }
    } else {
        spec_scan_update(prev, evs, i + 1)
    }
}

pub(crate) fn clone_blocks(v: &Vec<LoCBlock>) -> (r: Vec<LoCBlock>)
    ensures
        r.deep_view() == v.deep_view(),
{
    let mut r: Vec<LoCBlock> = Vec::new();
    let mut i: usize = 0;
    while i < v.len()
        invariant
            0 <= i <= v@.len(),
            r@.len() == i,
            forall|k: int| 0 <= k < i ==> #[trigger] r.deep_view()[k] == v.deep_view()[k],
        decreases v@.len() - i,
    {
        let b = v[i].clone();
        let ghost r0 = r@;
        let ghost dv0 = r.deep_view();
        let ghost b_view = b@;
        proof {
            assert(b_view == v.deep_view()[i as int]);
        }
        r.push(b);
        i = i + 1;
        proof {
            assert forall|k: int| 0 <= k < i implies #[trigger] r.deep_view()[k]
                == v.deep_view()[k] by {
                assert(r.deep_view()[k] == r@[k]@);
                if k < i - 1 {
                    assert(r@[k] == r0[k]);
                    assert(dv0[k] == r0[k]@);
                } else {
                    assert(r@[k]@ == b_view);
                }
            }
        }
    }
    proof {
        assert(r.deep_view() =~= v.deep_view());
    }
    r
}

impl Submitted {
    /// Read the sensor queue: every scanner capture replaces the submission
    /// slot, and reading stops at a scanner event with nothing in it.
    pub fn detect_submissions(subs: &mut Submitted, evs: &Vec<SensorEvent>)
        ensures
            spec_submitted(final(subs)) == spec_scan_update(spec_submitted(old(subs)), evs@, 0),
    {
        let n = evs.len();
        let mut i: usize = 0;
        while i < n
            invariant
                0 <= i <= n,
                n == evs@.len(),
                spec_scan_update(spec_submitted(old(subs)), evs@, 0) == spec_scan_update(
                    spec_submitted(subs),
                    evs@,
                    i as int,
                ),
            decreases n - i,
        {
            let ev = &evs[i];
            if ev.stype == SType::Painter || ev.stype == SType::Deleter {
                i = i + 1;
            } else {
                match &ev.loc {
                    Some(v) => {
                        let copied = clone_blocks(v);
                        subs.last = Some(copied);
                        i = i + 1;
                    },
                    None => {
                        return;
                    },
                }
            }
        }
    }
}

/// The largest timer duration the engine configures: the longest level budget
/// in milliseconds.
pub const MAX_DURATION_MS: u64 = 300000;

/// The level countdown: duration and elapsed time in milliseconds, ticking
/// only while active.
#[derive(Debug)]
pub struct LevelTimer {
    duration_ms: u64,
    elapsed_ms: u64,
    active: bool,
}

impl Default for LevelTimer {
    fn default() -> (r: Self)
        ensures
            r.wf(),
            r.spec_duration() == 0,
            r.spec_elapsed() == 0,
            !r.spec_active(),
    {
        LevelTimer { duration_ms: 0, elapsed_ms: 0, active: false }
    }
}

/// The clock shown while time remains: minutes and seconds, each at least two
/// digits.
pub open spec fn spec_mmss(s: int) -> Seq<char> {
    spec_dec2(s / 60) + seq![':'] + spec_dec2(s % 60)
}

impl LevelTimer {
    pub closed spec fn spec_duration(&self) -> u64 {
        self.duration_ms
    }

    pub closed spec fn spec_elapsed(&self) -> u64 {
        self.elapsed_ms
    }

    pub closed spec fn spec_active(&self) -> bool {
        self.active
    }

    /// Whether the clock is ticking.
    pub fn is_active(&self) -> (r: bool)
        ensures
            r == self.spec_active(),
    {
        self.active
    }

    /// Start or pause the clock.
    pub fn set_active(&mut self, active: bool)
        requires
            old(self).wf(),
        ensures
            final(self).wf(),
            final(self).spec_active() == active,
            final(self).spec_duration() == old(self).spec_duration(),
            final(self).spec_elapsed() == old(self).spec_elapsed(),
    {
        self.active = active;
    }

    /// The timer never runs past its duration, and durations stay within the
    /// configured level budgets.
    pub open spec fn wf(&self) -> bool {
        self.spec_elapsed() <= self.spec_duration() && self.spec_duration() <= MAX_DURATION_MS
    }

    /// Milliseconds left on the clock.
    pub open spec fn spec_time_left(&self) -> u64 {
        (self.spec_duration() - self.spec_elapsed()) as u64
    }

    /// The countdown has reached its end.
    pub open spec fn spec_finished(&self) -> bool {
        self.spec_elapsed() >= self.spec_duration()
    }

    /// Advance the clock by `delta_ms`, saturating at the duration; an
    /// inactive timer does not move.
    pub fn tick(&mut self, delta_ms: u64)
        requires
            old(self).wf(),
        ensures
            final(self).wf(),
            final(self).spec_duration() == old(self).spec_duration(),
            final(self).spec_active() == old(self).spec_active(),
            final(self).spec_elapsed() == if old(self).spec_active() {
                if old(self).spec_elapsed() + delta_ms >= old(self).spec_duration() {
                    old(self).spec_duration()
                } else {
                    (old(self).spec_elapsed() + delta_ms) as u64
                }
            } else {
                old(self).spec_elapsed()
            },
    {
        if self.active {
            if delta_ms >= self.duration_ms - self.elapsed_ms {
                self.elapsed_ms = self.duration_ms;
            } else {
                self.elapsed_ms = self.elapsed_ms + delta_ms;
            }
        }
    }

    /// The remaining time on the clock as text: `mm:ss` while at least a
    /// second is left, and `OUT OF TIME` in the last second.
    pub open spec fn spec_remaining(&self) -> Seq<char> {
        let s = self.spec_time_left() / 1000;
        if s != 0 {
            spec_mmss(s as int)
        } else {
            "OUT OF TIME"@
        }
    }

    /// Render the remaining time.
    pub fn remaining(&self) -> (r: String)
        requires
            self.wf(),
        ensures
            r@ == self.spec_remaining(),
    {
        let rem = self.duration_ms - self.elapsed_ms;
        let s = rem / 1000;
        if s != 0 {
            let mut out = u64_to_dec2(s / 60);
            push_char(&mut out, ':');
            let secs = u64_to_dec2(s % 60);
            out.append(secs.as_str());
            proof {
                assert(out@ =~= spec_mmss(s as int));
            }
            out
        } else {
            String::from_str("OUT OF TIME")
        }
    }

    /// The full duration of the running level, in milliseconds.
    pub fn duration(&self) -> (r: u64)
        ensures
            r == self.spec_duration(),
    {
        self.duration_ms
    }

    /// Milliseconds left on the clock.
    pub fn time_left(&self) -> (r: u64)
        requires
            self.wf(),
        ensures
            r == self.spec_time_left(),
    {
        self.duration_ms - self.elapsed_ms
    }

    /// The line of timer text the in-game display shows.
    pub fn update_ui(&self) -> (r: String)
        requires
            self.wf(),
        ensures
            r@ == "ASSEMBLE DIFFS: "@ + self.spec_remaining(),
    {
        let mut out = String::from_str("ASSEMBLE DIFFS: ");
        let rem = self.remaining();
        out.append(rem.as_str());
        out
    }

    /// On the first pending start-level request, set the clock to that
    /// level's budget and rewind it.
    pub fn new_level(&mut self, new: &Vec<NewLevel>)
        requires
            old(self).wf(),
            new@.len() > 0 ==> new@[0].number < LEVEL_TIME_COUNT,
        ensures
            final(self).wf(),
            final(self).spec_active() == old(self).spec_active(),
            new@.len() == 0 ==> *final(self) == *old(self),
            new@.len() > 0 ==> final(self).spec_duration() == 1000 * spec_level_time_secs(
                new@[0].number as int,
            ) && final(self).spec_elapsed() == 0,
    {
        if new.len() > 0 {
            let n = new[0].number;
            self.duration_ms = 1000 * level_time_secs(n);
            self.elapsed_ms = 0;
        }
    }

    /// When an active timer has run out, deactivate it and end the game.
    pub fn trigger_game_over_on_finish(&mut self) -> (r: Option<GameState>)
        requires
            old(self).wf(),
        ensures
            final(self).wf(),
            final(self).spec_duration() == old(self).spec_duration(),
            final(self).spec_elapsed() == old(self).spec_elapsed(),
            old(self).spec_finished() && old(self).spec_active() ==> !final(self).spec_active() && r == Some(
                GameState::GameOver,
            ),
            !(old(self).spec_finished() && old(self).spec_active()) ==> *final(self) == *old(self) && r
                is None,
    {
        if self.elapsed_ms >= self.duration_ms && self.active {
            self.active = false;
            Some(GameState::GameOver)
        } else {
            None
        }
    }
}

/// Enter the office: request the first level and start the clock.
pub fn start_first_level(timer: &mut LevelTimer) -> (ev: NewLevel)
    requires
        old(timer).wf(),
    ensures
        ev.number == 0,
        final(timer).wf(),
        final(timer).spec_active(),
        final(timer).spec_duration() == old(timer).spec_duration(),
        final(timer).spec_elapsed() == old(timer).spec_elapsed(),
{
    timer.active = true;
    NewLevel { number: 0 }
}

} // verus!
