//! Sprite-font text: the glyph-atlas lookup, the row/column layout of a text
//! block, and the mutable text buffer the terminal screen renders.

use vstd::prelude::*;

verus! {

use crate::strings::{
    lemma_lines_len_le,
    push_char,
    spec_lines,
    spec_sum_lens,
    split_lines,
};

/// Width of one glyph cell in the font atlas, in pixels.
pub const ATLAS_CHAR_W: u64 = 32;

/// Height of one glyph cell in the font atlas, in pixels.
pub const ATLAS_CHAR_H: u64 = 64;

/// Marker for the terminal's glyph atlas asset.
pub struct FontAtlas;

/// Marker for one rendered glyph entity.
pub struct TextSpriteChar;

/// The atlas slot a character renders from: the atlas is laid out so that the
/// printable ASCII range maps to its own code point, and nothing else is
/// printable.
pub open spec fn spec_atlas_index(c: char) -> Option<int> {
    if ' ' <= c && c <= '~' {
        Some(c as int)
    } else {
        None
    }
}

/// Look up a character's slot in the glyph atlas.
pub fn index_of(ch: char) -> (r: Option<usize>)
    ensures
        r matches Some(i) ==> spec_atlas_index(ch) == Some(i as int),
        r is None <==> spec_atlas_index(ch) is None,
{
    if ch >= ' ' && ch <= '~' {
        Some(ch as usize)
    } else {
        None
    }
}

/// The character a glyph atlas slot shows.
pub fn char_of(index: usize) -> (r: Option<char>)
    ensures
        r matches Some(c) ==> 32 <= index <= 126 && c as int == index,
        r is None <==> !(32 <= index <= 126),
{
    if 32 <= index && index <= 126 {
        Some((index as u8) as char)
    } else {
        None
    }
}

/// The glyph layout of the lines `ls`, starting at row `row`: each character
/// with the row and column it renders at.
pub open spec fn spec_row_col_from(ls: Seq<Seq<char>>, row: int) -> Seq<(int, int, char)>
    decreases ls.len(),
{
    if ls.len() == 0 {
        Seq::empty()
    } else {
        Seq::new(ls[0].len(), |c: int| (row, c, ls[0][c])) + spec_row_col_from(
            ls.drop_first(),
            row + 1,
        )
    }
}

/// The glyph layout of a text block: every character with its row and column,
/// rows in order and columns left to right, newlines consumed.
pub open spec fn spec_row_col(s: Seq<char>) -> Seq<(int, int, char)> {
    spec_row_col_from(spec_lines(s), 0)
}

/// List each character of `s` with the row and column it renders at.
pub fn iter_row_col(s: &str) -> (r: Vec<(usize, usize, char)>)
    ensures
        r@.map_values(|t: (usize, usize, char)| (t.0 as int, t.1 as int, t.2)) == spec_row_col(
            s@,
        ),
{
    let ls = split_lines(s);
    let ghost lsv = ls.deep_view();
    let mut out: Vec<(usize, usize, char)> = Vec::new();
    let mut i: usize = 0;
    proof {
        assert(lsv.skip(0) =~= lsv);
        assert(out@.map_values(|t: (usize, usize, char)| (t.0 as int, t.1 as int, t.2)) =~= Seq::<
            (int, int, char),
        >::empty());
    }
    while i < ls.len()
        invariant
            lsv == ls.deep_view(),
            lsv == spec_lines(s@),
            lsv.len() == ls@.len(),
            0 <= i <= lsv.len(),
            spec_row_col(s@) == out@.map_values(
                |t: (usize, usize, char)| (t.0 as int, t.1 as int, t.2),
            ) + spec_row_col_from(lsv.skip(i as int), i as int),
        decreases lsv.len() - i,
    {
        let line: &str = ls[i].as_str();
        proof {
            assert(line@ == lsv[i as int]);
            assert(lsv.skip(i as int)[0] == lsv[i as int]);
            assert(lsv.skip(i as int).drop_first() =~= lsv.skip(i + 1));
        }
        let n = line.unicode_len();
        let ghost row_entries = Seq::new(lsv[i as int].len(), |c: int| (i as int, c, lsv[i as int][c]));
        proof {
            assert(Seq::new(
                lsv.skip(i as int)[0].len(),
                |c: int| (i as int, c, lsv.skip(i as int)[0][c]),
            ) =~= row_entries);
            assert(row_entries.skip(0) =~= row_entries);
            let out_map = out@.map_values(|t: (usize, usize, char)| (t.0 as int, t.1 as int, t.2));
            assert(out_map + (row_entries + spec_row_col_from(lsv.skip(i + 1), i + 1)) =~= out_map
                + row_entries + spec_row_col_from(lsv.skip(i + 1), i + 1));
        }
        let mut c: usize = 0;
        while c < n
            invariant
                lsv == ls.deep_view(),
                i < lsv.len(),
                line@ == lsv[i as int],
                n == line@.len(),
                0 <= c <= n,
                row_entries == Seq::new(
                    lsv[i as int].len(),
                    |k: int| (i as int, k, lsv[i as int][k]),
                ),
                spec_row_col(s@) == out@.map_values(
                    |t: (usize, usize, char)| (t.0 as int, t.1 as int, t.2),
                ) + row_entries.skip(c as int) + spec_row_col_from(lsv.skip(i + 1), i + 1),
            decreases n - c,
        {
            let ch = line.get_char(c);
            let ghost out0 = out@;
            out.push((i, c, ch));
            c = c + 1;
            proof {
                assert(out@.map_values(|t: (usize, usize, char)| (t.0 as int, t.1 as int, t.2))
                    =~= out0.map_values(|t: (usize, usize, char)| (t.0 as int, t.1 as int, t.2))
                    + seq![(i as int, c - 1 as int, lsv[i as int][c - 1])]);
                assert(row_entries.skip(c - 1)[0] == (i as int, c - 1 as int, lsv[i as int][c - 1]));
                assert(row_entries.skip(c - 1).drop_first() =~= row_entries.skip(c as int));
                assert(out0.map_values(|t: (usize, usize, char)| (t.0 as int, t.1 as int, t.2))
                    + row_entries.skip(c - 1) + spec_row_col_from(lsv.skip(i + 1), i + 1) =~= (
                out0.map_values(|t: (usize, usize, char)| (t.0 as int, t.1 as int, t.2)) + seq![
                    (i as int, c - 1 as int, lsv[i as int][c - 1]),
                ]) + row_entries.skip(c as int) + spec_row_col_from(lsv.skip(i + 1), i + 1));
            }
        }
        proof {
            assert(row_entries.skip(n as int) =~= Seq::<(int, int, char)>::empty());
            assert(out@.map_values(|t: (usize, usize, char)| (t.0 as int, t.1 as int, t.2))
                + Seq::<(int, int, char)>::empty() + spec_row_col_from(lsv.skip(i + 1), i + 1)
                =~= out@.map_values(|t: (usize, usize, char)| (t.0 as int, t.1 as int, t.2))
                + spec_row_col_from(lsv.skip(i + 1), i + 1));
        }
        i = i + 1;
    }
    proof {
        assert(spec_row_col_from(lsv.skip(i as int), i as int) =~= Seq::<(int, int, char)>::empty());
        assert(out@.map_values(|t: (usize, usize, char)| (t.0 as int, t.1 as int, t.2))
            + Seq::<(int, int, char)>::empty() =~= out@.map_values(
            |t: (usize, usize, char)| (t.0 as int, t.1 as int, t.2),
        ));
    }
    out
}

/// The visible length of a text block: its characters excluding line breaks.
pub open spec fn spec_text_len(s: Seq<char>) -> nat {
    spec_sum_lens(spec_lines(s))
}

/// The text a sprite-font block renders. Glyph entities are spawned and
/// despawned by the embedding renderer; this model carries the text they are
/// derived from.
#[derive(Debug)]
pub struct TextSprite {
    pub text: String,
}

impl TextSprite {
    pub fn new(text: String) -> (r: Self)
        ensures
            r.text@ == text@,
    {
        TextSprite { text }
    }

    /// The number of visible characters: line breaks are not rendered and do
    /// not count.
    pub fn len(&self) -> (r: usize)
        ensures
            r == spec_text_len(self.text@),
    {
        let s: &str = self.text.as_str();
        let total = s.unicode_len();
        proof {
            lemma_lines_len_le(s@);
        }
        let ls = split_lines(s);
        let ghost lsv = ls.deep_view();
        let mut sum: usize = 0;
        let mut i: usize = 0;
        proof {
            assert(lsv.skip(0) =~= lsv);
        }
        while i < ls.len()
            invariant
                lsv == ls.deep_view(),
                lsv == spec_lines(s@),
                lsv.len() == ls@.len(),
                0 <= i <= lsv.len(),
                sum + spec_sum_lens(lsv.skip(i as int)) == spec_text_len(s@),
                spec_text_len(s@) <= total,
            decreases lsv.len() - i,
        {
            let line: &str = ls[i].as_str();
            proof {
                assert(line@ == lsv[i as int]);
                assert(lsv.skip(i as int)[0] == lsv[i as int]);
                assert(lsv.skip(i as int).drop_first() =~= lsv.skip(i + 1));
            }
            let n = line.unicode_len();
            sum = sum + n;
            i = i + 1;
        }
        proof {
            assert(spec_sum_lens(lsv.skip(i as int)) == 0);
        }
        sum
    }

    /// Append text to the block; the renderer spawns glyphs for what was
    /// added.
    pub fn add_str(&mut self, s: &str)
        ensures
            final(self).text@ == old(self).text@ + s@,
    {
        self.text.append(s);
    }

    /// Append a message that may span several lines; the line breaks go into
    /// the text as they are.
    pub fn add_multiline_str(&mut self, s: &str)
        ensures
            final(self).text@ == old(self).text@ + s@,
    {
        self.text.append(s);
    }

    /// Start a new line; a line break renders no glyph.
    pub fn push_newline(&mut self)
        ensures
            final(self).text@ == old(self).text@.push('\n'),
    {
        push_char(&mut self.text, '\n');
    }

    /// Remove and return the last character, if any. When the popped
    /// character is printable the renderer despawns its glyph; a popped line
    /// break had none.
    pub fn pop(&mut self) -> (popped: Option<char>)
        ensures
            old(self).text@.len() == 0 ==> popped is None && *final(self) == *old(self),
            old(self).text@.len() > 0 ==> popped == Some(old(self).text@.last())
                && final(self).text@ == old(self).text@.drop_last(),
    {
        let s: &str = self.text.as_str();
        let n = s.unicode_len();
        if n == 0 {
            None
        } else {
            let c = s.get_char(n - 1);
            let shortened = String::from_str(s.substring_char(0, n - 1));
            proof {
                assert(shortened@ =~= self.text@.drop_last());
            }
            self.text = shortened;
            Some(c)
        }
    }

    /// Drop the oldest lines to keep the screen within its height. Scrolling
    /// was never wired up: the call has no effect on the text.
    pub fn remove_top_lines(&mut self, _count: usize)
        ensures
            *final(self) == *old(self),
    {
    }
}

} // verus!
