//! Verified text helpers: prefix tests, equality, ASCII case folding,
//! whitespace trimming and decimal formatting.

use vstd::prelude::*;

verus! {

/// `p` is a prefix of `s`.
pub open spec fn spec_starts_with(s: Seq<char>, p: Seq<char>) -> bool {
    p.len() <= s.len() && s.subrange(0, p.len() as int) == p
}

/// Relies on String::push: appends exactly the given character.
#[verifier::external_body]
pub fn push_char(s: &mut String, c: char)
    ensures
        final(s)@ == old(s)@.push(c),
{
    s.push(c);
}

/// Character-for-character string equality.
pub fn str_eq(a: &str, b: &str) -> (r: bool)
    ensures
        r == (a@ == b@),
{
    let na = a.unicode_len();
    let nb = b.unicode_len();
    if na != nb {
        return false;
    }
    let mut i: usize = 0;
    while i < na
        invariant
            0 <= i <= na,
            na == a@.len(),
            na == b@.len(),
            forall|k: int| 0 <= k < i ==> a@[k] == b@[k],
        decreases na - i,
    {
        if a.get_char(i) != b.get_char(i) {
            return false;
        }
        i = i + 1;
    }
    proof {
        assert(a@ =~= b@);
    }
    true
}

/// Does `s` begin with `p`?
pub fn starts_with(s: &str, p: &str) -> (r: bool)
    ensures
        r == spec_starts_with(s@, p@),
{
    let np = p.unicode_len();
    let ns = s.unicode_len();
    if np > ns {
        return false;
    }
    let mut i: usize = 0;
    while i < np
        invariant
            0 <= i <= np,
            np == p@.len(),
            ns == s@.len(),
            np <= ns,
            forall|k: int| 0 <= k < i ==> s@[k] == p@[k],
        decreases np - i,
    {
        if s.get_char(i) != p.get_char(i) {
            proof {
                if spec_starts_with(s@, p@) {
                    assert(s@.subrange(0, np as int)[i as int] == s@[i as int]);
                }
            }
            return false;
        }
        i = i + 1;
    }
    proof {
        assert(s@.subrange(0, np as int) =~= p@);
    }
    true
}

/// The ASCII lower-case image of a character: letters `A` to `Z` fold, every
/// other character stays as it is.
pub open spec fn spec_lower_char(c: char) -> char {
    if 'A' <= c && c <= 'Z' {
        ((c as u8) + 32) as char
    } else {
        c
    }
}

/// The ASCII lower-case image of a string.
pub open spec fn spec_lower(s: Seq<char>) -> Seq<char> {
    s.map_values(|c: char| spec_lower_char(c))
}

/// Fold ASCII upper-case letters to lower case; other characters are kept.
pub fn to_ascii_lowercase(s: &str) -> (r: String)
    ensures
        r@ == spec_lower(s@),
{
    let n = s.unicode_len();
    let mut out = String::new();
    let mut i: usize = 0;
    while i < n
        invariant
            0 <= i <= n,
            n == s@.len(),
            out@ == spec_lower(s@.subrange(0, i as int)),
        decreases n - i,
    {
        let c = s.get_char(i);
        let lc: char = if c >= 'A' && c <= 'Z' {
            ((c as u8) + 32) as char
        } else {
            c
        };
        proof {
            assert(lc == spec_lower_char(s@[i as int]));
        }
        push_char(&mut out, lc);
        i = i + 1;
        proof {
            assert(out@ =~= spec_lower(s@.subrange(0, i as int)));
        }
    }
    proof {
        assert(s@.subrange(0, n as int) =~= s@);
    }
    out
}

/// The characters the terminal treats as blank when trimming input.
pub open spec fn spec_is_ws(c: char) -> bool {
    c == ' ' || c == '\t' || c == '\r' || c == '\n'
}

/// `s` with leading blanks removed.
pub open spec fn spec_trim_start(s: Seq<char>) -> Seq<char>
    decreases s.len(),
{
    if s.len() > 0 && spec_is_ws(s[0]) {
        spec_trim_start(s.drop_first())
    } else {
        s
    }
}

/// `s` with trailing blanks removed.
pub open spec fn spec_trim_end(s: Seq<char>) -> Seq<char>
    decreases s.len(),
{
    if s.len() > 0 && spec_is_ws(s[s.len() - 1]) {
        spec_trim_end(s.drop_last())
    } else {
        s
    }
}

/// `s` with blanks removed at both ends.
pub open spec fn spec_trim(s: Seq<char>) -> Seq<char> {
    spec_trim_end(spec_trim_start(s))
}

proof fn lemma_trim_start_skip(s: Seq<char>, i: int)
    requires
        0 <= i <= s.len(),
        forall|k: int| 0 <= k < i ==> spec_is_ws(s[k]),
    ensures
        spec_trim_start(s) == spec_trim_start(s.skip(i)),
    decreases i,
{
    if i > 0 {
        assert(spec_is_ws(s[0]));
        assert(spec_trim_start(s) == spec_trim_start(s.drop_first()));
        assert(s.drop_first() =~= s.skip(1));
        assert forall|k: int| 0 <= k < i - 1 implies spec_is_ws(s.skip(1)[k]) by {
            assert(s.skip(1)[k] == s[k + 1]);
        }
        lemma_trim_start_skip(s.skip(1), i - 1);
        assert(s.skip(1).skip(i - 1) =~= s.skip(i));
    } else {
        assert(s.skip(0) =~= s);
    }
}

proof fn lemma_trim_end_take(s: Seq<char>, j: int)
    requires
        0 <= j <= s.len(),
        forall|k: int| j <= k < s.len() ==> spec_is_ws(s[k]),
    ensures
        spec_trim_end(s) == spec_trim_end(s.take(j)),
    decreases s.len() - j,
{
    if j < s.len() {
        assert(spec_is_ws(s[s.len() - 1]));
        assert(spec_trim_end(s) == spec_trim_end(s.drop_last()));
        assert(s.drop_last() =~= s.take(s.len() - 1));
        assert forall|k: int| j <= k < s.len() - 1 implies spec_is_ws(
            #[trigger] s.take(s.len() - 1)[k],
        ) by {
            assert(s.take(s.len() - 1)[k] == s[k]);
        }
        lemma_trim_end_take(s.take(s.len() - 1), j);
        assert(s.take(s.len() - 1).take(j) =~= s.take(j));
    } else {
        assert(s.take(j) =~= s);
    }
}

fn is_ws(c: char) -> (r: bool)
    ensures
        r == spec_is_ws(c),
{
    c == ' ' || c == '\t' || c == '\r' || c == '\n'
}

/// Remove blanks from both ends of `s`.
pub fn trim<'a>(s: &'a str) -> (r: &'a str)
    ensures
        r@ == spec_trim(s@),
{
    let n = s.unicode_len();
    let mut i: usize = 0;
    while i < n && is_ws(s.get_char(i))
        invariant
            0 <= i <= n,
            n == s@.len(),
            forall|k: int| 0 <= k < i ==> spec_is_ws(s@[k]),
        decreases n - i,
    {
        i = i + 1;
    }
    let mut j: usize = n;
    while j > i && is_ws(s.get_char(j - 1))
        invariant
            i <= j <= n,
            n == s@.len(),
            forall|k: int| 0 <= k < i ==> spec_is_ws(s@[k]),
            forall|k: int| j <= k < n ==> spec_is_ws(s@[k]),
        decreases j,
    {
        j = j - 1;
    }
    let r = s.substring_char(i, j);
    proof {
        lemma_trim_start_skip(s@, i as int);
        if i < n && j > i {
            // the remaining ends are not blank, so trimming stops there
            assert(!spec_is_ws(s@[i as int]));
            assert(!spec_is_ws(s@[j - 1]));
            assert(s@.skip(i as int)[0] == s@[i as int]);
            assert(spec_trim_start(s@.skip(i as int)) == s@.skip(i as int));
            lemma_trim_end_take(s@.skip(i as int), j - i);
            let t = s@.skip(i as int).take(j - i);
            assert(t[t.len() - 1] == s@[j - 1]);
            assert(spec_trim_end(t) == t);
            assert(r@ =~= t);
        } else {
            // everything was blank
            assert(j == i);
            assert(s@.skip(i as int) =~= s@.subrange(i as int, n as int));
            if i < n {
                assert(!spec_is_ws(s@[i as int]));
                assert(s@.skip(i as int)[0] == s@[i as int]);
                assert(spec_trim_start(s@.skip(i as int)) == s@.skip(i as int));
            } else {
                assert(s@.skip(i as int).len() == 0);
            }
        }
    }
    r
}

/// Remove blanks from the end of `s` only.
pub fn trim_end<'a>(s: &'a str) -> (r: &'a str)
    ensures
        r@ == spec_trim_end(s@),
{
    let n = s.unicode_len();
    let mut j: usize = n;
    while j > 0 && is_ws(s.get_char(j - 1))
        invariant
            0 <= j <= n,
            n == s@.len(),
            forall|k: int| j <= k < n ==> spec_is_ws(s@[k]),
        decreases j,
    {
        j = j - 1;
    }
    let r = s.substring_char(0, j);
    proof {
        lemma_trim_end_take(s@, j as int);
        let t = s@.take(j as int);
        if j > 0 {
            assert(t[t.len() - 1] == s@[j - 1]);
            assert(!spec_is_ws(t[t.len() - 1]));
        }
        assert(spec_trim_end(t) == t);
        assert(r@ =~= t);
    }
    r
}

/// The decimal digit character for `d`.
pub open spec fn spec_digit(d: int) -> char {
    if d == 0 {
        '0'
    } else if d == 1 {
        '1'
    } else if d == 2 {
        '2'
    } else if d == 3 {
        '3'
    } else if d == 4 {
        '4'
    } else if d == 5 {
        '5'
    } else if d == 6 {
        '6'
    } else if d == 7 {
        '7'
    } else if d == 8 {
        '8'
    } else {
        '9'
    }
}

/// The decimal spelling of `n`, without leading zeroes (`0` spells `"0"`).
pub open spec fn spec_dec(n: int) -> Seq<char>
    decreases n,
{
    if n < 10 {
        seq![spec_digit(n)]
    } else {
        spec_dec(n / 10).push(spec_digit(n % 10))
    }
}

fn digit_char(d: u64) -> (r: char)
    requires
        d < 10,
    ensures
        r == spec_digit(d as int),
{
    match d {
        0 => '0',
        1 => '1',
        2 => '2',
        3 => '3',
        4 => '4',
        5 => '5',
        6 => '6',
        7 => '7',
        8 => '8',
        _ => '9',
    }
}

/// Write `n` in decimal.
pub fn u64_to_dec(n: u64) -> (r: String)
    ensures
        r@ == spec_dec(n as int),
    decreases n,
{
    if n < 10 {
        let mut s = String::new();
        push_char(&mut s, digit_char(n));
        proof {
            assert(s@ =~= spec_dec(n as int));
        }
        s
    } else {
        let mut s = u64_to_dec(n / 10);
        push_char(&mut s, digit_char(n % 10));
        s
    }
}

/// Splitting scan: `head` is the part of the current field read so far; the
/// fields of `head ++ s` split on `sep`, scanning `s` left to right.
pub open spec fn spec_split_scan(s: Seq<char>, sep: Seq<char>, head: Seq<char>) -> Seq<Seq<char>>
    decreases s.len(),
{
    if sep.len() == 0 || s.len() < sep.len() {
        seq![head + s]
    } else if s.subrange(0, sep.len() as int) == sep {
        seq![head] + spec_split_scan(s.skip(sep.len() as int), sep, Seq::empty())
    } else {
        spec_split_scan(s.drop_first(), sep, head.push(s[0]))
    }
}

/// The fields of `s` split on every non-overlapping occurrence of `sep`,
/// scanning left to right; a trailing occurrence yields a trailing empty
/// field.
pub open spec fn spec_split(s: Seq<char>, sep: Seq<char>) -> Seq<Seq<char>> {
    spec_split_scan(s, sep, Seq::empty())
}

/// Split `s` on every occurrence of `sep`.
pub fn split_str(s: &str, sep: &str) -> (r: Vec<String>)
    requires
        sep@.len() > 0,
    ensures
        r.deep_view() == spec_split(s@, sep@),
{
    let n = s.unicode_len();
    let m = sep.unicode_len();
    let mut out: Vec<String> = Vec::new();
    let mut start: usize = 0;
    let mut i: usize = 0;
    proof {
        assert(s@.skip(0) =~= s@);
        assert(s@.subrange(0, 0) =~= Seq::<char>::empty());
        assert(out.deep_view() =~= Seq::<Seq<char>>::empty());
    }
    while m <= n && i <= n - m
        invariant
            0 <= start <= i <= n,
            m >= 1,
            n == s@.len(),
            m == sep@.len(),
            spec_split(s@, sep@) == out.deep_view() + spec_split_scan(
                s@.skip(i as int),
                sep@,
                s@.subrange(start as int, i as int),
            ),
        decreases n - i,
    {
        let ghost head = s@.subrange(start as int, i as int);
        proof {
            assert(s@.skip(i as int).subrange(0, m as int) =~= s@.subrange(
                i as int,
                i + m as int,
            ));
        }
        let piece = s.substring_char(i, i + m);
        if str_eq(piece, sep) {
            let ghost out0 = out.deep_view();
            let ghost i0 = i as int;
            let field = s.substring_char(start, i);
            let field_string = String::from_str(field);
            out.push(field_string);
            start = i + m;
            i = i + m;
            proof {
                assert(s@.skip(i0).skip(m as int) =~= s@.skip(i as int));
                assert(s@.subrange(start as int, i as int) =~= Seq::<char>::empty());
                assert(out.deep_view() =~= out0.push(head));
                assert(out0.push(head) + spec_split_scan(s@.skip(i as int), sep@, Seq::empty())
                    =~= out0 + (seq![head] + spec_split_scan(
                    s@.skip(i as int),
                    sep@,
                    Seq::empty(),
                )));
            }
        } else {
            proof {
                assert(s@.skip(i as int).drop_first() =~= s@.skip(i + 1));
                assert(head.push(s@.skip(i as int)[0]) =~= s@.subrange(start as int, i + 1));
            }
            i = i + 1;
        }
    }
    let last = s.substring_char(start, n);
    let last_string = String::from_str(last);
    proof {
        assert(s@.subrange(start as int, i as int) + s@.skip(i as int) =~= s@.subrange(
            start as int,
            n as int,
        ));
        assert(s@.skip(i as int).len() < m);
    }
    out.push(last_string);
    out
}

/// A single line stripped of a trailing carriage return.
pub open spec fn spec_strip_cr(l: Seq<char>) -> Seq<char> {
    if l.len() > 0 && l[l.len() - 1] == '\r' {
        l.drop_last()
    } else {
        l
    }
}

/// The lines of `s`: fields split on newlines, each stripped of a trailing
/// carriage return, with no trailing empty line when `s` ends in a newline.
pub open spec fn spec_lines(s: Seq<char>) -> Seq<Seq<char>> {
    if s.len() == 0 {
        Seq::empty()
    } else if s[s.len() - 1] == '\n' {
        spec_split(s.drop_last(), seq!['\n']).map_values(|l: Seq<char>| spec_strip_cr(l))
    } else {
        spec_split(s, seq!['\n']).map_values(|l: Seq<char>| spec_strip_cr(l))
    }
}

/// Split `s` into lines.
pub fn split_lines(s: &str) -> (r: Vec<String>)
    ensures
        r.deep_view() == spec_lines(s@),
{
    proof {
        reveal_strlit("\n");
    }
    let n = s.unicode_len();
    if n == 0 {
        let r: Vec<String> = Vec::new();
        proof {
            assert(r.deep_view() =~= spec_lines(s@));
        }
        return r;
    }
    let body: &str = if s.get_char(n - 1) == '\n' {
        s.substring_char(0, n - 1)
    } else {
        s
    };
    proof {
        if s@[n - 1] == '\n' {
            assert(body@ =~= s@.drop_last());
        }
    }
    let raw = split_str(body, "\n");
    let mut out: Vec<String> = Vec::new();
    let mut i: usize = 0;
    while i < raw.len()
        invariant
            0 <= i <= raw@.len(),
            out@.len() == i,
            forall|k: int|
                0 <= k < i ==> #[trigger] out.deep_view()[k] == spec_strip_cr(
                    raw.deep_view()[k],
                ),
        decreases raw@.len() - i,
    {
        let ln: &str = raw[i].as_str();
        let k = ln.unicode_len();
        let stripped: String = if k > 0 && ln.get_char(k - 1) == '\r' {
            String::from_str(ln.substring_char(0, k - 1))
        } else {
            String::from_str(ln)
        };
        proof {
            assert(raw.deep_view()[i as int] == raw@[i as int]@);
            assert(stripped@ =~= spec_strip_cr(raw.deep_view()[i as int]));
        }
        let ghost out0 = out@;
        let ghost dv0 = out.deep_view();
        let ghost stripped_view = stripped@;
        out.push(stripped);
        i = i + 1;
        proof {
            assert forall|k: int| 0 <= k < i implies #[trigger] out.deep_view()[k]
                == spec_strip_cr(raw.deep_view()[k]) by {
                assert(out.deep_view()[k] == out@[k]@);
                if k < i - 1 {
                    assert(out@[k] == out0[k]);
                    assert(dv0[k] == out0[k]@);
                    assert(dv0[k] == spec_strip_cr(raw.deep_view()[k]));
                } else {
                    assert(out@[k]@ == stripped_view);
                }
            }
        }
    }
    proof {
        assert("\n"@ =~= seq!['\n']);
        assert(out.deep_view() =~= raw.deep_view().map_values(
            |l: Seq<char>| spec_strip_cr(l),
        ));
        if s@[n - 1] == '\n' {
            assert(body@ =~= s@.drop_last());
        } else {
            assert(body@ == s@);
        }
    }
    out
}

/// The total length of a sequence of lines.
pub open spec fn spec_sum_lens(ls: Seq<Seq<char>>) -> nat
    decreases ls.len(),
{
    if ls.len() == 0 {
        0
    } else {
        ls[0].len() + spec_sum_lens(ls.drop_first())
    }
}

proof fn lemma_sum_lens_scan(s: Seq<char>, sep: Seq<char>, head: Seq<char>)
    ensures
        spec_sum_lens(spec_split_scan(s, sep, head)) <= head.len() + s.len(),
    decreases s.len(),
{
    if sep.len() == 0 || s.len() < sep.len() {
        let one = spec_split_scan(s, sep, head);
        assert(one =~= seq![head + s]);
        assert(one[0] == head + s);
        assert(one.drop_first() =~= Seq::<Seq<char>>::empty());
        assert(spec_sum_lens(Seq::<Seq<char>>::empty()) == 0);
        assert(spec_sum_lens(one) == (head + s).len() + spec_sum_lens(one.drop_first()));
    } else if s.subrange(0, sep.len() as int) == sep {
        let rest = spec_split_scan(s.skip(sep.len() as int), sep, Seq::empty());
        lemma_sum_lens_scan(s.skip(sep.len() as int), sep, Seq::empty());
        assert((seq![head] + rest)[0] == head);
        assert((seq![head] + rest).drop_first() =~= rest);
        assert(spec_sum_lens(seq![head] + rest) == head.len() + spec_sum_lens(rest));
    } else {
        lemma_sum_lens_scan(s.drop_first(), sep, head.push(s[0]));
    }
}

proof fn lemma_sum_lens_strip(ls: Seq<Seq<char>>)
    ensures
        spec_sum_lens(ls.map_values(|l: Seq<char>| spec_strip_cr(l))) <= spec_sum_lens(ls),
    decreases ls.len(),
{
    if ls.len() > 0 {
        let mapped = ls.map_values(|l: Seq<char>| spec_strip_cr(l));
        assert(mapped[0] == spec_strip_cr(ls[0]));
        assert(mapped.drop_first() =~= ls.drop_first().map_values(
            |l: Seq<char>| spec_strip_cr(l),
        ));
        lemma_sum_lens_strip(ls.drop_first());
    }
}

/// The visible length of a text block: the total length of its lines, which
/// never exceeds the length of the text itself.
pub proof fn lemma_lines_len_le(s: Seq<char>)
    ensures
        spec_sum_lens(spec_lines(s)) <= s.len(),
{
    if s.len() == 0 {
    } else if s[s.len() - 1] == '\n' {
        lemma_sum_lens_scan(s.drop_last(), seq!['\n'], Seq::empty());
        lemma_sum_lens_strip(spec_split(s.drop_last(), seq!['\n']));
    } else {
        lemma_sum_lens_scan(s, seq!['\n'], Seq::empty());
        lemma_sum_lens_strip(spec_split(s, seq!['\n']));
    }
}

/// `n` in decimal, padded with a leading zero to at least two digits.
pub open spec fn spec_dec2(n: int) -> Seq<char> {
    if n < 10 {
        seq!['0'] + spec_dec(n)
    } else {
        spec_dec(n)
    }
}

/// Write `n` in decimal, zero-padded to at least two digits.
pub fn u64_to_dec2(n: u64) -> (r: String)
    ensures
        r@ == spec_dec2(n as int),
{
    if n < 10 {
        let mut s = String::new();
        push_char(&mut s, '0');
        push_char(&mut s, digit_char(n));
        proof {
            assert(s@ =~= spec_dec2(n as int));
        }
        s
    } else {
        u64_to_dec(n)
    }
}

} // verus!
