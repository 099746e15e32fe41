//! The in-world terminal: its command language, the session that echoes
//! responses onto the screen buffer, and the submit and restart paths of the
//! level engine it drives.

use vstd::prelude::*;

verus! {

use crate::audio::ScannerSoundEvent;
use crate::code::{spec_block_grading, Diff, LineOfCodeView, LoCBlockView, LineOfCode};
use crate::fsm::{PlayerState, PlayerStateMachine};
use crate::level::{LevelTimer, Levels, NewLevel, Submitted, spec_submitted};
use crate::score::{score, spec_match_count};
use crate::state::GameState;
use crate::strings::{
    push_char,
    spec_dec,
    spec_dec2,
    spec_lines,
    spec_lower,
    spec_starts_with,
    spec_trim,
    spec_trim_end,
    split_lines,
    str_eq,
    to_ascii_lowercase,
    trim,
    trim_end,
    u64_to_dec,
    u64_to_dec2,
};
use crate::text_sprite::{index_of, spec_atlas_index, spec_text_len, TextSprite};

/// The prompt the terminal prints at the start of an input line.
pub const PROPMPT: &'static str = ">>";

/// Width of the terminal screen, in pixels.
pub const TERM_W: u64 = 1280;

/// Height of the terminal screen, in pixels.
pub const TERM_H: u64 = 960;

/// A command the terminal understands.
#[derive(Debug, Clone, PartialEq, Eq, Structural)]
pub enum TerminalCommand {
    Restart,
    ShowCode,
    Send,
    Exit,
    Help,
}

/// The command a piece of input names, compared case-insensitively against
/// the command aliases.
pub open spec fn spec_command(s: Seq<char>) -> Option<TerminalCommand> {
    let l = spec_lower(s);
    if l == "r"@ || l == "restart"@ {
        Some(TerminalCommand::Restart)
    } else if l == "c"@ || l == "show"@ || l == "code"@ || l == "show code"@ {
        Some(TerminalCommand::ShowCode)
    } else if l == "f"@ || l == "finish"@ || l == "finished"@ || l == "release"@ {
        Some(TerminalCommand::Send)
    } else if l == "e"@ || l == "exit"@ {
        Some(TerminalCommand::Exit)
    } else if l == "h"@ || l == "help"@ {
        Some(TerminalCommand::Help)
    } else {
        None
    }
}

impl TerminalCommand {
    /// Parse one trimmed input as a command, case-insensitively; unknown
    /// input parses as nothing and the caller echoes an error.
    pub fn from_str(s: &str) -> (r: Option<TerminalCommand>)
        ensures
            r == spec_command(s@),
    {
        let low = to_ascii_lowercase(s);
        let l: &str = low.as_str();
        if str_eq(l, "r") || str_eq(l, "restart") {
            Some(TerminalCommand::Restart)
        } else if str_eq(l, "c") || str_eq(l, "show") || str_eq(l, "code") || str_eq(
            l,
            "show code",
        ) {
            Some(TerminalCommand::ShowCode)
        } else if str_eq(l, "f") || str_eq(l, "finish") || str_eq(l, "finished") || str_eq(
            l,
            "release",
        ) {
            Some(TerminalCommand::Send)
        } else if str_eq(l, "e") || str_eq(l, "exit") {
            Some(TerminalCommand::Exit)
        } else if str_eq(l, "h") || str_eq(l, "help") {
            Some(TerminalCommand::Help)
        } else {
            None
        }
    }
}

/// The canned response a parsed command earns; unrecognised input earns an
/// error line naming it.
pub open spec fn spec_response(
    cmd: Option<TerminalCommand>,
    cmd_text: Seq<char>,
    level_text: Seq<char>,
) -> Seq<char> {
    match cmd {
        Some(TerminalCommand::Restart) => "restarting..."@,
        Some(TerminalCommand::ShowCode) => spec_trim_end(level_text),
        Some(TerminalCommand::Send) => "sending off completed code"@,
        Some(TerminalCommand::Exit) => "goodbye git"@,
        Some(TerminalCommand::Help) => "[c]ode | [r]estart | [e]xit | [f]inish"@,
        None => "command "@ + cmd_text + " not recognised, use help for commands"@,
    }
}

/// The full text echoed after an input: a blank line, the response, and a
/// fresh prompt.
pub open spec fn spec_message(
    cmd: Option<TerminalCommand>,
    cmd_text: Seq<char>,
    level_text: Seq<char>,
) -> Seq<char> {
    seq!['\n'] + spec_response(cmd, cmd_text, level_text) + seq!['\n'] + ">>"@
}

/// Render the echo for one input: `cmd` as parsed from `cmd_text`, with
/// `level_text` the current level's code for the show-code response.
pub fn command_response(cmd: &Option<TerminalCommand>, cmd_text: &str, level_text: &str) -> (r:
    String)
    ensures
        r@ == spec_message(*cmd, cmd_text@, level_text@),
{
    proof {
        reveal_strlit("\n");
    }
    let mut out = String::from_str("\n");
    match cmd {
        Some(TerminalCommand::Restart) => {
            out.append("restarting...");
        },
        Some(TerminalCommand::ShowCode) => {
            out.append(trim_end(level_text));
        },
        Some(TerminalCommand::Send) => {
            out.append("sending off completed code");
        },
        Some(TerminalCommand::Exit) => {
            out.append("goodbye git");
        },
        Some(TerminalCommand::Help) => {
            out.append("[c]ode | [r]estart | [e]xit | [f]inish");
        },
        None => {
            out.append("command ");
            out.append(cmd_text);
            out.append(" not recognised, use help for commands");
        },
    }
    out.append("\n");
    out.append(">>");
    proof {
        assert(out@ =~= spec_message(*cmd, cmd_text@, level_text@));
    }
    out
}

/// A request to print onto the terminal screen.
#[derive(Debug)]
pub struct TermWrite {
    pub s: String,
}

/// The terminal's input session: where on the screen buffer the user's own
/// typing begins.
#[derive(Debug)]
pub struct TerminalInput {
    pub user_inp_start: usize,
}

/// The typed characters the terminal accepts: those with a glyph in its
/// atlas.
pub open spec fn spec_accepted_input(typed: Seq<char>) -> Seq<char> {
    typed.filter(|c: char| spec_atlas_index(c) is Some)
}

impl TerminalInput {
    /// Append what was typed this step, dropping characters the glyph atlas
    /// cannot show.
    pub fn type_chars(&self, sprite: &mut TextSprite, typed: &str)
        ensures
            final(sprite).text@ == old(sprite).text@ + spec_accepted_input(typed@),
    {
        let n = typed.unicode_len();
        let mut accepted = String::new();
        let mut i: usize = 0;
        proof {
            reveal(Seq::filter);
            assert(typed@.subrange(0, 0) =~= Seq::<char>::empty());
            assert(accepted@ =~= spec_accepted_input(typed@.subrange(0, 0)));
        }
        while i < n
            invariant
                n == typed@.len(),
                0 <= i <= n,
                accepted@ == spec_accepted_input(typed@.subrange(0, i as int)),
            decreases n - i,
        {
            let c = typed.get_char(i);
            let keep = match index_of(c) {
                Some(_) => true,
                None => false,
            };
            if keep {
                push_char(&mut accepted, c);
            }
            i = i + 1;
            proof {
                reveal(Seq::filter);
                assert(typed@.subrange(0, i as int).drop_last() =~= typed@.subrange(0, i - 1));
                assert(typed@.subrange(0, i as int).last() == typed@[i - 1]);
            }
        }
        proof {
            assert(typed@.subrange(0, n as int) =~= typed@);
        }
        sprite.add_str(accepted.as_str());
    }

    /// Erase the last typed character; the prompt and everything echoed
    /// before the user's input stays.
    pub fn backspace(&self, sprite: &mut TextSprite) -> (popped: Option<char>)
        ensures
            spec_text_len(old(sprite).text@) > self.user_inp_start && old(sprite).text@.len() > 0
                ==> popped == Some(old(sprite).text@.last()) && final(sprite).text@ == old(
                sprite,
            ).text@.drop_last(),
            !(spec_text_len(old(sprite).text@) > self.user_inp_start && old(sprite).text@.len()
                > 0) ==> popped is None && *final(sprite) == *old(sprite),
    {
        if sprite.len() > self.user_inp_start {
            sprite.pop()
        } else {
            None
        }
    }

    /// Read the line just entered, echo its response, and move the input
    /// start past it. The screen always shows a prompt at the start of the
    /// input line, so the last line carries the prompt prefix.
    pub fn press_enter(&mut self, sprite: &mut TextSprite, level_code: &str) -> (cmd: Option<
        TerminalCommand,
    >)
        requires
            spec_lines(old(sprite).text@).len() > 0,
            spec_starts_with(spec_lines(old(sprite).text@).last(), ">>"@),
        ensures
            ({
                let entered = spec_trim(spec_lines(old(sprite).text@).last().skip(2));
                &&& cmd == spec_command(entered)
                &&& final(sprite).text@ == old(sprite).text@ + spec_message(
                    cmd,
                    entered,
                    level_code@,
                )
                &&& final(self).user_inp_start == spec_text_len(final(sprite).text@)
            }),
    {
        proof {
            reveal_strlit(">>");
        }
        let ls = split_lines(sprite.text.as_str());
        let last: &str = ls[ls.len() - 1].as_str();
        proof {
            assert(last@ == ls.deep_view()[ls.deep_view().len() - 1]);
            assert(last@ == spec_lines(sprite.text@).last());
        }
        let n = last.unicode_len();
        let entered: &str = trim(last.substring_char(2, n));
        proof {
            assert(last@.subrange(2, n as int) =~= last@.skip(2));
        }
        let cmd = TerminalCommand::from_str(entered);
        let msg = command_response(&cmd, entered, level_code);
        sprite.add_multiline_str(msg.as_str());
        self.user_inp_start = sprite.len();
        cmd
    }

    /// Apply queued prints to the screen and keep the input start behind
    /// them.
    pub fn take_write(&mut self, sprite: &mut TextSprite, writes: &Vec<TermWrite>)
        ensures
            final(sprite).text@ == old(sprite).text@ + spec_writes_text(writes@),
            writes@.len() > 0 ==> final(self).user_inp_start == spec_text_len(
                final(sprite).text@,
            ),
            writes@.len() == 0 ==> final(self).user_inp_start == old(self).user_inp_start,
    {
        let ghost text0 = sprite.text@;
        let mut i: usize = 0;
        proof {
            assert(text0 + spec_writes_prefix(writes@, 0) =~= text0);
        }
        while i < writes.len()
            invariant
                0 <= i <= writes@.len(),
                sprite.text@ == text0 + spec_writes_prefix(writes@, i as int),
                i > 0 ==> self.user_inp_start == spec_text_len(sprite.text@),
                i == 0 ==> *self == *old(self),
            decreases writes@.len() - i,
        {
            sprite.add_multiline_str(writes[i].s.as_str());
            self.user_inp_start = sprite.len();
            i = i + 1;
            proof {
                assert(sprite.text@ =~= text0 + spec_writes_prefix(writes@, i as int));
            }
        }
        proof {
            assert(spec_writes_prefix(writes@, i as int) == spec_writes_text(writes@));
        }
    }

    /// While the player is at the terminal, freeze the level clock and hide
    /// the in-office overlay.
    pub fn show_or_hide_ui(timer: &mut LevelTimer, pstate: &PlayerStateMachine) -> (show: bool)
        requires
            old(timer).wf(),
        ensures
            show == (pstate.state() != PlayerState::Interacting),
            final(timer).wf(),
            final(timer).spec_active() == show,
            final(timer).spec_duration() == old(timer).spec_duration(),
            final(timer).spec_elapsed() == old(timer).spec_elapsed(),
    {
        let show = !matches!(pstate.state(), PlayerState::Interacting);
        timer.set_active(show);
        show
    }
}

/// `c` occurs in the drained command queue.
pub open spec fn spec_contains_cmd(cmds: Seq<TerminalCommand>, c: TerminalCommand) -> bool {
    exists|k: int| 0 <= k < cmds.len() && cmds[k] == c
}

fn contains_cmd(cmds: &Vec<TerminalCommand>, c: &TerminalCommand) -> (r: bool)
    ensures
        r == spec_contains_cmd(cmds@, *c),
{
    let mut i: usize = 0;
    while i < cmds.len()
        invariant
            0 <= i <= cmds@.len(),
            forall|k: int| 0 <= k < i ==> cmds@[k] != *c,
        decreases cmds@.len() - i,
    {
        if cmds[i] == *c {
            return true;
        }
        i = i + 1;
    }
    false
}

/// The reference a submission is graded against: the level's lines with the
/// removed ones left out.
pub open spec fn spec_graded_reference(block: Seq<LineOfCodeView>) -> Seq<LineOfCodeView> {
    block.filter(|l: LineOfCodeView| l.diff != Diff::Rem)
}

/// A scanned block as the line it is graded as: its text under the diff and
/// colour its painted colour stands for.
pub open spec fn spec_graded_submission(blocks: Seq<LoCBlockView>) -> Seq<LineOfCodeView> {
    blocks.map_values(
        |b: LoCBlockView| LineOfCodeView {
            diff: spec_block_grading(b.loc_type).1,
            color: spec_block_grading(b.loc_type).0,
            code: b.line_of_code,
        },
    )
}

/// The displayed accuracy, in hundredths of a percent, rounded to nearest.
pub open spec fn spec_accuracy_hundredths(correct: int, out_of: int) -> int {
    if out_of > 0 {
        (correct * 10000 * 2 + out_of) / (2 * out_of)
    } else {
        0
    }
}

/// The submission's total: the time left weighted by the accuracy fraction.
/// An empty reference grades as nothing earned.
pub open spec fn spec_total(time_left: int, correct: int, out_of: int) -> int {
    if out_of > 0 {
        time_left * correct / out_of
    } else {
        0
    }
}

/// A submission passes when its total reaches half of the level's full time
/// budget.
pub open spec fn spec_passed(total: int, duration: int) -> bool {
    2 * total >= duration
}

/// The grading feedback printed to the terminal: the time bonus, the accuracy
/// as a percentage with two decimals, the total, and the verdict.
pub open spec fn spec_feedback(time_score: int, acc: int, total: int, passed: bool) -> Seq<char> {
    "\ntime: "@ + spec_dec(time_score) + "\naccuracy: "@ + spec_dec(acc / 100) + "."@ + spec_dec2(
        acc % 100,
    ) + "%\ntotal: "@ + spec_dec(total) + if passed {
        "\nPASS. Loading next job...\n>>"@
    } else {
        "\nFAIL. Resetting playfield...\n>>"@
    }
}

/// What a drained submit command asks the embedding to do.
#[derive(Debug)]
pub struct SubmitEffect {
    /// Move the whole game to this state (the game ends).
    pub set_state: Option<GameState>,
    /// Start this level next.
    pub new_level: Option<NewLevel>,
    /// The scanner's verdict cue.
    pub scanner_sound: Option<ScannerSoundEvent>,
    /// The grading feedback to print on the terminal.
    pub feedback: Option<TermWrite>,
    /// Despawn the finished attempt's code entities.
    pub despawn_level_entities: bool,
}

fn no_submit_effect() -> (e: SubmitEffect)
    ensures
        e.set_state is None,
        e.new_level is None,
        e.scanner_sound is None,
        e.feedback is None,
        !e.despawn_level_entities,
{
    SubmitEffect {
        set_state: None,
        new_level: None,
        scanner_sound: None,
        feedback: None,
        despawn_level_entities: false,
    }
}

fn clone_line(l: &LineOfCode) -> (r: LineOfCode)
    ensures
        r@ == l@,
{
    l.clone()
}

impl TerminalCommand {
    /// Drain the command queue for a restart: when one was entered, the
    /// current level is started over and the embedding despawns the
    /// attempt's code entities.
    pub fn reset(cmds: &Vec<TerminalCommand>, levels: &Levels) -> (r: Option<NewLevel>)
        ensures
            spec_contains_cmd(cmds@, TerminalCommand::Restart) ==> (r matches Some(nl)
                && nl.number == levels.current),
            !spec_contains_cmd(cmds@, TerminalCommand::Restart) ==> r is None,
    {
        if contains_cmd(cmds, &TerminalCommand::Restart) {
            Some(NewLevel { number: levels.current })
        } else {
            None
        }
    }

    /// Drain the command queue for a submit and grade the attempt.
    ///
    /// With no scanned snapshot, submitting forfeits: the game ends and
    /// nothing else happens. Otherwise the snapshot is consumed and graded
    /// against the current level's reference (its removed lines excluded):
    /// the total is the time left weighted by the accuracy fraction, and the
    /// attempt passes when that total reaches half the level's time budget.
    /// A pass advances to the next level, or ends the game after the last
    /// one; a fail restarts the current level. Either verdict prints
    /// feedback, cues the scanner sound, and has the attempt's code entities
    /// despawned.
    pub fn submit(
        cmds: &Vec<TerminalCommand>,
        levels: &mut Levels,
        subs: &mut Submitted,
        timer: &LevelTimer,
    ) -> (e: SubmitEffect)
        requires
            timer.wf(),
            old(levels).current < old(levels).levels@.len(),
            old(levels).levels.deep_view()[old(levels).current as int].len() <= 1000000,
        ensures
            final(levels).levels@ == old(levels).levels@,
            final(levels).code_text@ == old(levels).code_text@,
            !spec_contains_cmd(cmds@, TerminalCommand::Send) ==> {
                &&& final(levels).current == old(levels).current
                &&& spec_submitted(final(subs)) == spec_submitted(old(subs))
                &&& e.set_state is None
                &&& e.new_level is None
                &&& e.scanner_sound is None
                &&& e.feedback is None
                &&& !e.despawn_level_entities
            },
            spec_contains_cmd(cmds@, TerminalCommand::Send) && spec_submitted(old(subs)) is None
                ==> {
                &&& final(levels).current == old(levels).current
                &&& spec_submitted(final(subs)) is None
                &&& e.set_state == Some(GameState::GameOver)
                &&& e.new_level is None
                &&& e.scanner_sound is None
                &&& e.feedback is None
                &&& !e.despawn_level_entities
            },
            spec_contains_cmd(cmds@, TerminalCommand::Send) && spec_submitted(old(subs)) is Some
                ==> ({
                let sv = spec_submitted(old(subs)).unwrap();
                let cor = spec_graded_reference(
                    old(levels).levels.deep_view()[old(levels).current as int],
                );
                let sub = spec_graded_submission(sv);
                let correct = spec_match_count(cor, sub) as int;
                let out_of = cor.len() as int;
                let time_score = timer.spec_time_left() as int / 10;
                let total = spec_total(timer.spec_time_left() as int, correct, out_of);
                let acc = spec_accuracy_hundredths(correct, out_of);
                let passed = spec_passed(total, timer.spec_duration() as int);
                &&& spec_submitted(final(subs)) is None
                &&& (e.feedback matches Some(w) && w.s@ == spec_feedback(
                    time_score,
                    acc,
                    total,
                    passed,
                ))
                &&& (passed && old(levels).current + 1 >= old(levels).levels@.len()) ==> {
                    &&& e.set_state == Some(GameState::GameOver)
                    &&& final(levels).current == old(levels).current
                    &&& e.new_level is None
                    &&& e.scanner_sound is None
                    &&& !e.despawn_level_entities
                }
                &&& (passed && old(levels).current + 1 < old(levels).levels@.len()) ==> {
                    &&& e.set_state is None
                    &&& final(levels).current == old(levels).current + 1
                    &&& (e.new_level matches Some(nl) && nl.number == old(levels).current + 1)
                    &&& e.scanner_sound == Some(ScannerSoundEvent { success: true })
                    &&& e.despawn_level_entities
                }
                &&& !passed ==> {
                    &&& e.set_state is None
                    &&& final(levels).current == old(levels).current
                    &&& (e.new_level matches Some(nl) && nl.number == old(levels).current)
                    &&& e.scanner_sound == Some(ScannerSoundEvent { success: false })
                    &&& e.despawn_level_entities
                }
            }),
    {
        if !contains_cmd(cmds, &TerminalCommand::Send) {
            return no_submit_effect();
        }
        let blocks = match &subs.last {
            None => {
                let mut e = no_submit_effect();
                e.set_state = Some(GameState::GameOver);
                return e;
            },
            Some(v) => crate::level::clone_blocks(v),
        };
        subs.last = None;
        let ghost sv = blocks.deep_view();

        // the graded form of the submission
        let mut sub: Vec<LineOfCode> = Vec::new();
        let mut i: usize = 0;
        while i < blocks.len()
            invariant
                sv == blocks.deep_view(),
                sv.len() == blocks@.len(),
                0 <= i <= sv.len(),
                sub@.len() == i,
                forall|k: int|
                    0 <= k < i ==> #[trigger] sub.deep_view()[k] == spec_graded_submission(
                        sv,
                    )[k],
            decreases sv.len() - i,
        {
            let graded = crate::code::locblk_to_loc(blocks[i].clone());
            let ghost sub0 = sub@;
            let ghost dv0 = sub.deep_view();
            let ghost graded_view = graded@;
            proof {
                assert(blocks@[i as int]@ == sv[i as int]);
                assert(graded_view == spec_graded_submission(sv)[i as int]);
            }
            sub.push(graded);
            i = i + 1;
            proof {
                assert forall|k: int| 0 <= k < i implies #[trigger] sub.deep_view()[k]
                    == spec_graded_submission(sv)[k] by {
                    assert(sub.deep_view()[k] == sub@[k]@);
                    if k < i - 1 {
                        assert(sub@[k] == sub0[k]);
                        assert(dv0[k] == sub0[k]@);
                    } else {
                        assert(sub@[k]@ == graded_view);
                    }
                }
            }
        }
        proof {
            assert(sub.deep_view() =~= spec_graded_submission(sv));
        }

        // the reference, with removed lines left out
        let block = &levels.levels[levels.current];
        let ghost bdv = block.code.deep_view();
        let mut cor: Vec<LineOfCode> = Vec::new();
        let mut j: usize = 0;
        proof {
            reveal(Seq::filter);
            assert(bdv.subrange(0, 0) =~= Seq::<LineOfCodeView>::empty());
            assert(cor.deep_view() =~= spec_graded_reference(bdv.subrange(0, 0)));
        }
        while j < block.code.len()
            invariant
                bdv == block.code.deep_view(),
                bdv.len() == block.code@.len(),
                bdv.len() <= 1000000,
                0 <= j <= bdv.len(),
                cor.deep_view() == spec_graded_reference(bdv.subrange(0, j as int)),
                cor@.len() <= j,
            decreases bdv.len() - j,
        {
            let line = &block.code[j];
            proof {
                reveal(Seq::filter);
                assert(line@ == bdv[j as int]);
                assert(bdv.subrange(0, j + 1).drop_last() =~= bdv.subrange(0, j as int));
                assert(bdv.subrange(0, j + 1).last() == bdv[j as int]);
            }
            if line.diff != Diff::Rem {
                let kept = clone_line(line);
                let ghost cor0 = cor@;
                let ghost cdv0 = cor.deep_view();
                let ghost kept_view = kept@;
                cor.push(kept);
                proof {
                    assert(cor.deep_view() =~= cdv0.push(kept_view));
                }
            }
            j = j + 1;
        }
        proof {
            assert(bdv.subrange(0, j as int) =~= bdv);
            crate::score::lemma_match_count_le(
                spec_graded_reference(bdv),
                spec_graded_submission(sv),
            );
        }

        let graded = score(&cor, &sub);
        let time_left = timer.time_left();
        let time_score = time_left / 10;
        let correct = graded.correct as u64;
        let out_of = graded.out_of as u64;
        proof {
            assert(time_left <= 300000);
            assert(correct <= 1000000);
        }
        let mut total: u64 = 0;
        if out_of > 0 {
            proof {
                assert(time_left * correct <= 300000000000) by (nonlinear_arith)
                    requires
                        0 <= time_left <= 300000,
                        0 <= correct <= 1000000,
                ;
            }
            let prod = time_left * correct;
            proof {
                vstd::arithmetic::div_mod::lemma_div_nonincreasing(prod as int, out_of as int);
            }
            total = prod / out_of;
        }
        let acc: u64 = if out_of > 0 {
            (correct * 10000 * 2 + out_of) / (2 * out_of)
        } else {
            0
        };
        let duration = timer.duration();
        proof {
            assert(total <= 300000000000);
        }
        let passed = 2 * total >= duration;

        let mut msg = String::from_str("\ntime: ");
        let part_ts = u64_to_dec(time_score);
        msg.append(part_ts.as_str());
        msg.append("\naccuracy: ");
        let part_acc_int = u64_to_dec(acc / 100);
        msg.append(part_acc_int.as_str());
        msg.append(".");
        let part_acc_frac = u64_to_dec2(acc % 100);
        msg.append(part_acc_frac.as_str());
        msg.append("%\ntotal: ");
        let part_total = u64_to_dec(total);
        msg.append(part_total.as_str());
        if passed {
            msg.append("\nPASS. Loading next job...\n>>");
        } else {
            msg.append("\nFAIL. Resetting playfield...\n>>");
        }
        proof {
            assert(msg@ =~= spec_feedback(
                time_score as int,
                acc as int,
                total as int,
                passed,
            ));
        }
        let feedback = Some(TermWrite { s: msg });

        if passed {
            let count = levels.levels.len();
            proof {
                assert(levels.current < count);
            }
            let next = levels.current + 1;
            if next >= count {
                SubmitEffect {
                    set_state: Some(GameState::GameOver),
                    new_level: None,
                    scanner_sound: None,
                    feedback,
                    despawn_level_entities: false,
                }
            } else {
                levels.current = next;
                SubmitEffect {
                    set_state: None,
                    new_level: Some(NewLevel { number: next }),
                    scanner_sound: Some(ScannerSoundEvent { success: true }),
                    feedback,
                    despawn_level_entities: true,
                }
            }
        } else {
            SubmitEffect {
                set_state: None,
                new_level: Some(NewLevel { number: levels.current }),
                scanner_sound: Some(ScannerSoundEvent { success: false }),
                feedback,
                despawn_level_entities: true,
            }
        }
    }
}

/// The text of the first `i` queued prints, in order.
pub open spec fn spec_writes_prefix(ws: Seq<TermWrite>, i: int) -> Seq<char>
    decreases i,
{
    if i <= 0 {
        Seq::empty()
    } else {
        spec_writes_prefix(ws, i - 1) + ws[i - 1].s@
    }
}

/// The text of all queued prints, in order.
pub open spec fn spec_writes_text(ws: Seq<TermWrite>) -> Seq<char> {
    spec_writes_prefix(ws, ws.len() as int)
}

} // verus!
