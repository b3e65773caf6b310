//! Legal text that is stored either as one string or as a list of lines.
use vstd::prelude::*;
use crate::dehyphen::{unhyphenate, unhyphenated};

verus! {

/// The characters of each string, in order.
pub open spec fn views(v: Seq<String>) -> Seq<Seq<char>> {
    v.map_values(|l: String| l@)
}

/// A line without the carriage return that precedes its line feed.
pub open spec fn strip_cr(c: Seq<char>) -> Seq<char> {
    if c.len() > 0 && c.last() == '\r' {
        c.drop_last()
    } else {
        c
    }
}

/// Reading one more character: a line feed completes the line in progress,
/// without the carriage return before it; any other character extends it.
pub open spec fn scan_step(st: (Seq<Seq<char>>, Seq<char>), c: char) -> (
    Seq<Seq<char>>,
    Seq<char>,
) {
    if c == '\n' {
        (st.0.push(strip_cr(st.1)), Seq::empty())
    } else {
        (st.0, st.1.push(c))
    }
}

/// The state after reading the first `k` characters of `b`, starting in `st`.
pub open spec fn scan_from(st: (Seq<Seq<char>>, Seq<char>), b: Seq<char>, k: nat) -> (
    Seq<Seq<char>>,
    Seq<char>,
)
    decreases k,
{
    if k == 0 || k > b.len() {
        st
    } else {
        scan_step(scan_from(st, b, (k - 1) as nat), b[k - 1])
    }
}

/// The completed lines and the line in progress after reading the first
/// `n` characters of `s`.
pub open spec fn scan_lines(s: Seq<char>, n: nat) -> (Seq<Seq<char>>, Seq<char>) {
    scan_from((Seq::empty(), Seq::empty()), s, n)
}

/// The lines of `s`: a line ends at `\n` or at `\r\n`, and the final line
/// ending is optional. An empty string has no lines.
pub open spec fn lines_of(s: Seq<char>) -> Seq<Seq<char>> {
    let (done, cur) = scan_lines(s, s.len());
    if cur.len() == 0 {
        done
    } else {
        done.push(cur)
    }
}

/// The lines joined, with `sep` between each two neighbours.
pub open spec fn join_lines(ls: Seq<Seq<char>>, sep: Seq<char>) -> Seq<char>
    decreases ls.len(),
{
    if ls.len() == 0 {
        Seq::empty()
    } else if ls.len() == 1 {
        ls[0]
    } else {
        join_lines(ls.drop_last(), sep) + sep + ls.last()
    }
}

/// `s` holds no line feed.
pub open spec fn no_newline(s: Seq<char>) -> bool {
    forall|i: int| 0 <= i < s.len() ==> s[i] != '\n'
}

/// Reading a prefix of `a + b` reads the same characters as reading `a`.
proof fn lemma_scan_prefix(st: (Seq<Seq<char>>, Seq<char>), a: Seq<char>, b: Seq<char>, n: nat)
    requires
        n <= a.len(),
    ensures
        scan_from(st, a + b, n) == scan_from(st, a, n),
    decreases n,
{
    if n > 0 {
        lemma_scan_prefix(st, a, b, (n - 1) as nat);
        assert((a + b)[n - 1] == a[n - 1]);
    }
}

/// Reading `a + b` is reading `a`, then reading `b` from where `a` ended.
proof fn lemma_scan_append(st: (Seq<Seq<char>>, Seq<char>), a: Seq<char>, b: Seq<char>, k: nat)
    requires
        k <= b.len(),
    ensures
        scan_from(st, a + b, a.len() + k) == scan_from(scan_from(st, a, a.len()), b, k),
    decreases k,
{
    if k == 0 {
        lemma_scan_prefix(st, a, b, a.len());
    } else {
        lemma_scan_append(st, a, b, (k - 1) as nat);
        assert((a + b)[a.len() + k - 1] == b[k - 1]);
    }
}

/// Reading characters without a line feed only extends the line in progress.
proof fn lemma_scan_no_newline(st: (Seq<Seq<char>>, Seq<char>), l: Seq<char>, k: nat)
    requires
        k <= l.len(),
        no_newline(l),
    ensures
        scan_from(st, l, k) == (st.0, st.1 + l.take(k as int)),
    decreases k,
{
    if k == 0 {
        assert(st.1 + l.take(0) =~= st.1);
    } else {
        lemma_scan_no_newline(st, l, (k - 1) as nat);
        assert(st.1 + l.take(k as int) =~= (st.1 + l.take(k - 1)).push(l[k - 1]));
    }
}

/// Reading the lines joined by CRLF leaves all of them but the last
/// completed, and the last one in progress.
proof fn lemma_scan_joined(ls: Seq<Seq<char>>)
    requires
        ls.len() >= 1,
        forall|i: int| 0 <= i < ls.len() ==> no_newline(#[trigger] ls[i]),
    ensures
        scan_lines(join_lines(ls, crlf()), join_lines(ls, crlf()).len()) == (
            ls.drop_last(),
            ls.last(),
        ),
    decreases ls.len(),
{
    let e: (Seq<Seq<char>>, Seq<char>) = (Seq::empty(), Seq::empty());
    let l = ls.last();
    if ls.len() == 1 {
        lemma_scan_no_newline(e, l, l.len());
        assert(Seq::<char>::empty() + l.take(l.len() as int) =~= l);
        assert(ls.drop_last() =~= Seq::<Seq<char>>::empty());
    } else {
        let rest = ls.drop_last();
        assert forall|i: int| 0 <= i < rest.len() implies no_newline(#[trigger] rest[i]) by {
            assert(rest[i] == ls[i]);
        }
        lemma_scan_joined(rest);
        let j = join_lines(rest, crlf());
        let tail = crlf() + l;
        assert(join_lines(ls, crlf()) =~= j + tail);
        lemma_scan_append(e, j, tail, tail.len());
        let mid = scan_from(e, j, j.len());
        assert(mid == (rest.drop_last(), rest.last()));
        lemma_scan_append(mid, crlf(), l, l.len());
        let after_break = scan_from(mid, crlf(), 2);
        assert(crlf().len() == 2 && crlf()[0] == '\r' && crlf()[1] == '\n');
        assert(scan_from(mid, crlf(), 0) == mid);
        assert(scan_from(mid, crlf(), 1) == (mid.0, mid.1.push('\r')));
        assert(strip_cr(rest.last().push('\r')) =~= rest.last());
        assert(after_break == (rest.drop_last().push(rest.last()), Seq::<char>::empty()));
        assert(rest.drop_last().push(rest.last()) =~= rest);
        lemma_scan_no_newline(after_break, l, l.len());
        assert(Seq::<char>::empty() + l.take(l.len() as int) =~= l);
    }
}

/// Lines joined by CRLF split back into the same lines, as long as no line
/// holds a line feed and the last line is not empty: converting a list of
/// lines to one string loses and merges none.
pub proof fn lemma_join_then_split(ls: Seq<Seq<char>>)
    requires
        forall|i: int| 0 <= i < ls.len() ==> no_newline(#[trigger] ls[i]),
        ls.len() == 0 || ls.last().len() > 0,
    ensures
        lines_of(join_lines(ls, crlf())) == ls,
{
    if ls.len() > 0 {
        lemma_scan_joined(ls);
        assert(ls.drop_last().push(ls.last()) =~= ls);
    }
}

/// The line break that joined text carries.
pub open spec fn crlf() -> Seq<char> {
    seq!['\r', '\n']
}

/// Splits `s` into its lines (see `lines_of`).
pub fn split_lines(s: &str) -> (r: Vec<String>)
    ensures
        views(r@) == lines_of(s@),
        forall|k: int| 0 <= k < r.len() ==> no_newline(#[trigger] r[k]@),
{
    let len: usize = s.unicode_len();
    let mut done: Vec<String> = Vec::new();
    let mut start: usize = 0;
    let mut i: usize = 0;
    let mut prev: char = '\n';
    for c in it: s.chars()
        invariant
            it.seq() == s@,
            len == s@.len(),
            i == it.index(),
            start <= i,
            i > start ==> prev == s@[i - 1],
            scan_lines(s@, i as nat) == (views(done@), s@.subrange(start as int, i as int)),
            forall|j: int| start <= j < i ==> s@[j] != '\n',
            forall|k: int| 0 <= k < done.len() ==> no_newline(#[trigger] done[k]@),
    {
        let ghost old_done = done@;
        if c == '\n' {
            let end: usize = if i > start && prev == '\r' { i - 1 } else { i };
            let line = String::from_str(s.substring_char(start, end));
            proof {
                assert(no_newline(line@));
                let cur = s@.subrange(start as int, i as int);
                assert(strip_cr(cur) =~= s@.subrange(start as int, end as int));
            }
            done.push(line);
            proof {
                assert(views(done@) =~= views(old_done).push(line@));
            }
            start = i + 1;
            proof {
                assert(s@.subrange(start as int, (i + 1) as int) =~= Seq::<char>::empty());
            }
        } else {
            proof {
                assert(s@.subrange(start as int, i as int).push(c) =~= s@.subrange(
                    start as int,
                    (i + 1) as int,
                ));
            }
        }
        prev = c;
        i = i + 1;
    }
    if start < len {
        let last = String::from_str(s.substring_char(start, len));
        assert(no_newline(last@));
        let ghost old_done = done@;
        done.push(last);
        proof {
            assert(views(done@) =~= views(old_done).push(last@));
        }
    }
    done
}

/// Joins the lines with `sep` between each two neighbours.
pub fn join_with(ls: &Vec<String>, sep: &str) -> (r: String)
    ensures
        r@ == join_lines(views(ls@), sep@),
{
    let mut r = String::new();
    for i in 0..ls.len()
        invariant
            r@ == join_lines(views(ls@).take(i as int), sep@),
    {
        proof {
            assert(views(ls@).take((i + 1) as int).drop_last() =~= views(ls@).take(i as int));
        }
        if i > 0 {
            r.append(sep);
        }
        r.append(ls[i].as_str());
        proof {
            if i == 0 {
                assert(r@ =~= join_lines(views(ls@).take(1), sep@));
            }
        }
    }
    proof {
        assert(views(ls@).take(ls.len() as int) =~= views(ls@));
    }
    r
}

/// Legal text, held either as one string whose lines are found by
/// `lines_of`, or as an explicit list of lines.
#[derive(Debug, Clone, PartialEq, Eq, PartialOrd)]
pub enum StringOrLines {
    SingleLine(String),
    MultiLine(Vec<String>),
}

impl StringOrLines {
    /// The lines, whichever way they are stored.
    pub open spec fn lines_spec(&self) -> Seq<Seq<char>> {
        match self {
            StringOrLines::SingleLine(s) => lines_of(s@),
            StringOrLines::MultiLine(ml) => views(ml@),
        }
    }

    /// Nothing is stored: an empty string or an empty list.
    pub open spec fn is_empty_spec(&self) -> bool {
        match self {
            StringOrLines::SingleLine(s) => s@.len() == 0,
            StringOrLines::MultiLine(ml) => ml@.len() == 0,
        }
    }

    /// The lines joined by CRLF.
    pub open spec fn text_spec(&self) -> Seq<char> {
        join_lines(self.lines_spec(), crlf())
    }

    pub fn is_empty(&self) -> (r: bool)
        ensures
            r == self.is_empty_spec(),
    {
        match self {
            StringOrLines::SingleLine(s) => s.as_str().unicode_len() == 0,
            StringOrLines::MultiLine(ml) => ml.len() == 0,
        }
    }

    pub fn lines(&self) -> (r: Vec<String>)
        ensures
            views(r@) == self.lines_spec(),
    {
        match self {
            StringOrLines::SingleLine(s) => split_lines(s.as_str()),
            StringOrLines::MultiLine(ml) => {
                let mut r: Vec<String> = Vec::new();
                for i in 0..ml.len()
                    invariant
                        views(r@) == views(ml@).take(i as int),
                {
                    let ghost before = r@;
                    r.push(ml[i].clone());
                    assert(views(r@) =~= views(before).push(ml[i as int]@));
                    assert(views(r@) =~= views(ml@).take(i + 1));
                }
                assert(views(ml@).take(ml.len() as int) =~= views(ml@));
                r
            }
        }
    }

    /// The lines joined by CRLF.
    pub fn text(&self) -> (r: String)
        ensures
            r@ == self.text_spec(),
    {
        let ls = self.lines();
        proof {
            reveal_strlit("\r\n");
            assert("\r\n"@ =~= crlf());
        }
        join_with(&ls, "\r\n")
    }

    /// The lines joined by CRLF, then dehyphenated.
    pub fn text_clean(&self) -> (r: String)
        ensures
            r@ == unhyphenated(self.text_spec()),
    {
        let t = self.text();
        unhyphenate(t.as_str())
    }

    /// The text of a plain string, always held as a list of its lines.
    pub fn from_text(s: String) -> (r: Self)
        ensures
            r is MultiLine,
            r.lines_spec() == lines_of(s@),
    {
        StringOrLines::MultiLine(split_lines(s.as_str()))
    }

    /// The stored string itself, or the lines joined by CRLF.
    pub fn into_text(self) -> (r: String)
        ensures
            self is SingleLine ==> r@ == self->SingleLine_0@,
            self is MultiLine ==> r@ == join_lines(views(self->MultiLine_0@), crlf()),
    {
        proof {
            reveal_strlit("\r\n");
            assert("\r\n"@ =~= crlf());
        }
        match self {
            StringOrLines::SingleLine(s) => s,
            StringOrLines::MultiLine(ml) => join_with(&ml, "\r\n"),
        }
    }

    /// Whether both hold the same lines, however each stores them.
    pub fn same_lines(&self, other: &Self) -> (r: bool)
        ensures
            r == (self.lines_spec() == other.lines_spec()),
    {
        let a = self.lines();
        let b = other.lines();
        if a.len() != b.len() {
            assert(views(a@).len() != views(b@).len());
            return false;
        }
        for i in 0..a.len()
            invariant
                views(a@) == self.lines_spec(),
                views(b@) == other.lines_spec(),
                a.len() == b.len(),
                forall|k: int| 0 <= k < i ==> a[k]@ == b[k]@,
        {
            if a[i] != b[i] {
                assert(views(a@)[i as int] != views(b@)[i as int]);
                return false;
            }
        }
        assert(views(a@) =~= views(b@));
        true
    }
}

/// A plain string and the list of its lines hold the same text.
pub proof fn lemma_string_and_lines_agree(s: String, ml: Vec<String>)
    requires
        views(ml@) == lines_of(s@),
    ensures
        StringOrLines::SingleLine(s).lines_spec() == StringOrLines::MultiLine(ml).lines_spec(),
{
}

impl Default for StringOrLines {
    /// The empty string.
    fn default() -> (r: Self)
        ensures
            r matches StringOrLines::SingleLine(s) && s@.len() == 0,
    {
        StringOrLines::SingleLine(String::new())
    }
}

impl From<String> for StringOrLines {
    fn from(s: String) -> Self {
        StringOrLines::from_text(s)
    }
}

impl vstd::std_specs::convert::FromSpecImpl<String> for StringOrLines {
    open spec fn obeys_from_spec() -> bool {
        false
    }

    open spec fn from_spec(v: String) -> Self {
        choose|r: Self| r is MultiLine && r.lines_spec() == lines_of(v@)
    }
}

impl From<StringOrLines> for String {
    fn from(s: StringOrLines) -> String {
        s.into_text()
    }
}

impl vstd::std_specs::convert::FromSpecImpl<StringOrLines> for String {
    open spec fn obeys_from_spec() -> bool {
        false
    }

    open spec fn from_spec(v: StringOrLines) -> Self {
        choose|r: String| r@ == join_lines(v.lines_spec(), crlf())
    }
}

} // verus!
