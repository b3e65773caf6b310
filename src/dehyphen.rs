//! Rejoining words that OCR split across a line break ("Grundbu- ch").
use vstd::prelude::*;
use regex::Regex;
use crate::text::{join_lines, join_with, lines_of, no_newline, split_lines, views};

verus! {

#[verifier::external_type_specification]
#[verifier::external_body]
pub struct ExRegex(Regex);

/// Whitespace in the sense of the pattern's `\s`: Unicode `White_Space`.
pub open spec fn is_pattern_space(c: char) -> bool {
    let u: u32 = c as u32;
    ||| 0x09 <= u <= 0x0d
    ||| u == 0x20 || u == 0x85 || u == 0xa0 || u == 0x1680
    ||| 0x2000 <= u <= 0x200a
    ||| u == 0x2028 || u == 0x2029 || u == 0x202f || u == 0x205f || u == 0x3000
}

/// A lower-case letter that may continue a broken word: `a`..`z`, `ä`, `ö`, `ü`.
pub open spec fn is_continuation_letter(c: char) -> bool {
    let u: u32 = c as u32;
    (0x61 <= u <= 0x7a) || u == 0xe4 || u == 0xf6 || u == 0xfc
}

/// At `i` stands a hyphen, one whitespace character and a continuation letter.
pub open spec fn break_at(s: Seq<char>, i: int) -> bool {
    &&& 0 <= i
    &&& i + 2 < s.len()
    &&& s[i] == '-'
    &&& is_pattern_space(s[i + 1])
    &&& is_continuation_letter(s[i + 2])
}

/// `s` holds a hyphenated line break somewhere.
pub open spec fn has_break(s: Seq<char>) -> bool {
    exists|i: int| break_at(s, i)
}

/// The last position at or before `i` where a break stands, or -1.
pub open spec fn last_break_upto(s: Seq<char>, i: int) -> int
    decreases i + 1,
{
    if i < 0 {
        -1
    } else if break_at(s, i) {
        i
    } else {
        last_break_upto(s, i - 1)
    }
}

/// The position of the last break in `s`, or -1 if there is none.
pub open spec fn last_break(s: Seq<char>) -> int {
    last_break_upto(s, s.len() - 3)
}

/// `s` without the hyphen and the whitespace of the break at `i`.
pub open spec fn join_at(s: Seq<char>, i: int) -> Seq<char> {
    s.subrange(0, i) + s.subrange(i + 2, s.len() as int)
}

/// `s` with its last break joined, or `s` itself if it has none.
pub open spec fn join_last_break(s: Seq<char>) -> Seq<char> {
    if last_break(s) >= 0 {
        join_at(s, last_break(s))
    } else {
        s
    }
}

proof fn lemma_last_break_upto(s: Seq<char>, i: int)
    ensures
        -1 <= last_break_upto(s, i) <= i || (i < 0 && last_break_upto(s, i) == -1),
        last_break_upto(s, i) >= 0 ==> break_at(s, last_break_upto(s, i)),
        last_break_upto(s, i) < 0 ==> forall|j: int| j <= i ==> !break_at(s, j),
    decreases i + 1,
{
    if i >= 0 && !break_at(s, i) {
        lemma_last_break_upto(s, i - 1);
    }
}

/// The last break is a break, and there is one exactly when some break exists.
pub proof fn lemma_last_break(s: Seq<char>)
    ensures
        has_break(s) <==> last_break(s) >= 0,
        last_break(s) >= 0 ==> break_at(s, last_break(s)),
        last_break(s) >= 0 ==> join_last_break(s).len() + 2 == s.len(),
{
    lemma_last_break_upto(s, s.len() - 3);
    if has_break(s) {
        let i = choose|i: int| break_at(s, i);
        assert(i <= s.len() - 3);
    }
}

/// Joins breaks until none is left, the last one first each time.
pub open spec fn settle(s: Seq<char>) -> Seq<char>
    decreases s.len(),
{
    if last_break(s) >= 0 {
        proof {
            lemma_last_break(s);
        }
        settle(join_last_break(s))
    } else {
        s
    }
}

/// The separator of a compound conjunction ("Land- und Forstwirtschaft"),
/// across which no break is ever joined.
pub open spec fn marker() -> Seq<char> {
    seq!['-', ' ', 'u', 'n', 'd', ' ']
}

/// The finished pieces and the piece in progress after reading the first
/// `n` characters of `s`, cutting at each occurrence of the marker.
pub open spec fn scan_segments(s: Seq<char>, n: nat) -> (Seq<Seq<char>>, Seq<char>)
    decreases n,
{
    if n == 0 || n > s.len() {
        (Seq::empty(), Seq::empty())
    } else {
        let (done, cur) = scan_segments(s, (n - 1) as nat);
        let grown = cur.push(s[n - 1]);
        if grown.len() >= 6 && grown.subrange(grown.len() - 6, grown.len() as int) == marker() {
            (done.push(grown.subrange(0, grown.len() - 6)), Seq::empty())
        } else {
            (done, grown)
        }
    }
}

/// The pieces of `s` between the occurrences of the marker, taken from the
/// left; there is always at least one.
pub open spec fn segments_of(s: Seq<char>) -> Seq<Seq<char>> {
    let (done, cur) = scan_segments(s, s.len());
    done.push(cur)
}

/// Joining `d` with one more piece appends the piece to what `d` joins to,
/// with the separator between where `d` is not empty.
proof fn lemma_join_push(d: Seq<Seq<char>>, y: Seq<char>, sep: Seq<char>)
    ensures
        join_lines(d.push(y), sep) == (if d.len() == 0 {
            y
        } else {
            join_lines(d, sep) + sep + y
        }),
{
    assert(d.push(y).drop_last() =~= d);
}

/// The pieces read so far, joined by the marker, are the characters read.
proof fn lemma_scan_segments_rejoin(s: Seq<char>, n: nat)
    requires
        n <= s.len(),
    ensures
        join_lines(scan_segments(s, n).0.push(scan_segments(s, n).1), marker()) == s.take(
            n as int,
        ),
    decreases n,
{
    if n == 0 {
        assert(s.take(0) =~= Seq::<char>::empty());
    } else {
        lemma_scan_segments_rejoin(s, (n - 1) as nat);
        let (d, c) = scan_segments(s, (n - 1) as nat);
        let grown = c.push(s[n - 1]);
        lemma_join_push(d, c, marker());
        lemma_join_push(d, grown, marker());
        assert(s.take(n as int) =~= s.take(n - 1).push(s[n - 1]));
        if grown.len() >= 6 && grown.subrange(grown.len() - 6, grown.len() as int) == marker() {
            let piece = grown.subrange(0, grown.len() - 6);
            lemma_join_push(d, piece, marker());
            lemma_join_push(d.push(piece), Seq::empty(), marker());
            assert(piece + marker() =~= grown);
            if d.len() == 0 {
                assert(piece + marker() + Seq::<char>::empty() =~= grown);
            } else {
                assert(join_lines(d, marker()) + marker() + piece + marker() + Seq::<char>::empty()
                    =~= join_lines(d, marker()) + marker() + grown);
            }
        } else {
            if d.len() == 0 {
                assert(grown =~= c.push(s[n - 1]));
            } else {
                assert(join_lines(d, marker()) + marker() + grown =~= (join_lines(d, marker())
                    + marker() + c).push(s[n - 1]));
            }
        }
    }
}

/// Cutting a line at the marker and joining the pieces with it again gives
/// the line back.
pub proof fn lemma_segments_rejoin(l: Seq<char>)
    ensures
        join_lines(segments_of(l), marker()) == l,
{
    lemma_scan_segments_rejoin(l, l.len());
    assert(l.take(l.len() as int) =~= l);
}

/// A line none of whose pieces holds a break comes out unchanged; in
/// particular the marker between pieces is kept as it stands.
pub proof fn lemma_clean_line_without_breaks(l: Seq<char>)
    requires
        forall|i: int| 0 <= i < segments_of(l).len() ==> !has_break(#[trigger] segments_of(l)[i]),
    ensures
        clean_line(l) == l,
{
    let pieces = segments_of(l);
    assert forall|i: int| 0 <= i < pieces.len() implies settle(#[trigger] pieces[i]) == pieces[i] by {
        lemma_last_break(pieces[i]);
    }
    assert(pieces.map_values(|p: Seq<char>| settle(p)) =~= pieces);
    lemma_segments_rejoin(l);
}

/// One line with the breaks of each piece joined, the pieces set apart by
/// the marker again.
pub open spec fn clean_line(l: Seq<char>) -> Seq<char> {
    join_lines(segments_of(l).map_values(|p: Seq<char>| settle(p)), marker())
}

/// The lines concatenated with nothing between them.
pub open spec fn concat(ls: Seq<Seq<char>>) -> Seq<char>
    decreases ls.len(),
{
    if ls.len() == 0 {
        Seq::empty()
    } else {
        concat(ls.drop_last()) + ls.last()
    }
}

/// The dehyphenated text: each line cleaned, then all lines concatenated.
pub open spec fn unhyphenated(text: Seq<char>) -> Seq<char> {
    concat(lines_of(text).map_values(|l: Seq<char>| clean_line(l)))
}

/// The characters of `s`, in order.
fn chars_of(s: &str) -> (v: Vec<char>)
    ensures
        v@ == s@,
{
    let len: usize = s.unicode_len();
    let mut v: Vec<char> = Vec::new();
    for c in it: s.chars()
        invariant
            it.seq() == s@,
            len == s@.len(),
            v.len() == it.index(),
            v@ == s@.take(it.index() as int),
    {
        v.push(c);
        proof {
            assert(v@ =~= s@.take(v.len() as int));
        }
    }
    proof {
        assert(v@ =~= s@);
    }
    v
}

/// Splits `s` at each occurrence of the marker (see `segments_of`).
pub fn split_segments(s: &str) -> (r: Vec<String>)
    ensures
        views(r@) == segments_of(s@),
        no_newline(s@) ==> forall|k: int| 0 <= k < r.len() ==> no_newline(#[trigger] r[k]@),
{
    let cs = chars_of(s);
    let n: usize = cs.len();
    let mut done: Vec<String> = Vec::new();
    let mut start: usize = 0;
    for i in 0..n
        invariant
            n == s@.len(),
            cs@ == s@,
            start <= i,
            scan_segments(s@, i as nat) == (views(done@), s@.subrange(start as int, i as int)),
            no_newline(s@) ==> forall|k: int| 0 <= k < done.len() ==> no_newline(#[trigger] done[k]@),
    {
        let ghost grown = s@.subrange(start as int, i + 1);
        assert(s@.subrange(start as int, i as int).push(cs[i as int]) =~= grown);
        if i + 1 - start >= 6 && cs[i - 5] == '-' && cs[i - 4] == ' ' && cs[i - 3] == 'u'
            && cs[i - 2] == 'n' && cs[i - 1] == 'd' && cs[i] == ' ' {
            assert(grown.subrange(grown.len() - 6, grown.len() as int) =~= marker());
            let piece = String::from_str(s.substring_char(start, i - 5));
            assert(piece@ =~= grown.subrange(0, grown.len() - 6));
            let ghost before = done@;
            done.push(piece);
            assert(views(done@) =~= views(before).push(piece@));
            start = i + 1;
            assert(s@.subrange(start as int, start as int) =~= Seq::<char>::empty());
        } else {
            assert(!(grown.len() >= 6 && grown.subrange(grown.len() - 6, grown.len() as int)
                == marker())) by {
                if grown.len() >= 6 && grown.subrange(grown.len() - 6, grown.len() as int)
                    == marker() {
                    let m = grown.subrange(grown.len() - 6, grown.len() as int);
                    assert(m[0] == cs[i - 5] && m[1] == cs[i - 4] && m[2] == cs[i - 3]);
                    assert(m[3] == cs[i - 2] && m[4] == cs[i - 1] && m[5] == cs[i as int]);
                }
            }
        }
    }
    let last = String::from_str(s.substring_char(start, n));
    let ghost before = done@;
    done.push(last);
    assert(views(done@) =~= views(before).push(last@));
    done
}

/// A compiled pattern for hyphenated line breaks. Compile it once and reuse
/// it for any number of texts. Only `new` sets the private pattern, which the
/// contracts of the matching functions rely on.
pub struct Dehyphenator {
    pattern: Regex,
}

/// Relies on regex::Regex::new, which compiles the fixed, valid pattern
/// `(.*)-\s([a-züäö])(.*)` without error. The pattern is case-sensitive and
/// has no anchors, so multi-line mode would not change what it matches.
#[verifier::external_body]
fn compile_break_pattern() -> Regex {
    Regex::new("(.*)-\\s([a-züäö])(.*)").unwrap()
}

impl Dehyphenator {
    /// Compiles the pattern `(.*)-\s([a-züäö])(.*)`.
    pub fn new() -> Self {
        Dehyphenator { pattern: compile_break_pattern() }
    }

    /// Relies on regex::Regex::is_match with the pattern of `new`: a hyphen,
    /// one `\s` character and a continuation letter, anywhere in `s`.
    #[verifier::external_body]
    fn is_break_in(&self, s: &str) -> (r: bool)
        ensures
            r == has_break(s@),
    {
        self.pattern.is_match(s)
    }

    /// Relies on regex::Regex::replace_all with the pattern of `new` and the
    /// replacement `$1$2$3`. On a line without `\n` the leftmost-first match
    /// starts at 0 and its greedy prefix reaches the last break, so the one
    /// match drops the hyphen and whitespace of the last break.
    #[verifier::external_body]
    fn join_break_in(&self, s: &str) -> (r: String)
        requires
            no_newline(s@),
        ensures
            r@ == join_last_break(s@),
    {
        self.pattern.replace_all(s, "$1$2$3").into_owned()
    }

    /// Joins every break of one piece, the last one first, until none is left.
    fn settle_piece(&self, piece: String) -> (r: String)
        requires
            no_newline(piece@),
        ensures
            r@ == settle(piece@),
    {
        let mut p = piece;
        while self.is_break_in(p.as_str())
            invariant
                no_newline(p@),
                settle(p@) == settle(piece@),
            decreases p@.len(),
        {
            proof {
                lemma_last_break(p@);
            }
            let next = self.join_break_in(p.as_str());
            proof {
                let k = last_break(p@);
                assert forall|i: int| 0 <= i < next@.len() implies next@[i] != '\n' by {
                    if i >= k {
                        assert(next@[i] == p@[i + 2]);
                    }
                }
            }
            p = next;
        }
        proof {
            lemma_last_break(p@);
        }
        p
    }

    /// One line with the breaks of each piece joined.
    fn clean_line_text(&self, line: &str) -> (r: String)
        requires
            no_newline(line@),
        ensures
            r@ == clean_line(line@),
    {
        let pieces = split_segments(line);
        let ghost want = segments_of(line@).map_values(|p: Seq<char>| settle(p));
        let mut cleaned: Vec<String> = Vec::new();
        for i in 0..pieces.len()
            invariant
                views(pieces@) == segments_of(line@),
                forall|k: int| 0 <= k < pieces.len() ==> no_newline(#[trigger] pieces[k]@),
                want == segments_of(line@).map_values(|p: Seq<char>| settle(p)),
                views(cleaned@) == want.take(i as int),
        {
            let ghost before = cleaned@;
            assert(pieces[i as int]@ == segments_of(line@)[i as int]);
            let c = self.settle_piece(pieces[i].clone());
            cleaned.push(c);
            assert(views(cleaned@) =~= views(before).push(c@));
            assert(want[i as int] == settle(segments_of(line@)[i as int]));
            assert(views(cleaned@) =~= want.take(i + 1));
        }
        assert(want.take(pieces.len() as int) =~= want);
        let r = join_with(&cleaned, "- und ");
        proof {
            reveal_strlit("- und ");
            assert("- und "@ =~= marker());
        }
        r
    }

    /// Joins hyphenated line breaks within each line of `text`, never across
    /// the marker "- und ", and concatenates the lines.
    pub fn unhyphenate(&self, text: &str) -> (r: String)
        ensures
            r@ == unhyphenated(text@),
    {
        let lines = split_lines(text);
        let ghost want = lines_of(text@).map_values(|l: Seq<char>| clean_line(l));
        let mut out = String::new();
        for i in 0..lines.len()
            invariant
                views(lines@) == lines_of(text@),
                forall|k: int| 0 <= k < lines.len() ==> no_newline(#[trigger] lines[k]@),
                want == lines_of(text@).map_values(|l: Seq<char>| clean_line(l)),
                out@ == concat(want.take(i as int)),
        {
            assert(lines[i as int]@ == lines_of(text@)[i as int]);
            let c = self.clean_line_text(lines[i].as_str());
            out.append(c.as_str());
            assert(want.take(i + 1).drop_last() =~= want.take(i as int));
        }
        assert(want.take(lines.len() as int) =~= want);
        out
    }
}

/// Joins hyphenated line breaks within each line of `text` (see
/// `Dehyphenator::unhyphenate`), compiling the pattern for this call.
pub fn unhyphenate(text: &str) -> (r: String)
    ensures
        r@ == unhyphenated(text@),
{
    Dehyphenator::new().unhyphenate(text)
}

} // verus!
