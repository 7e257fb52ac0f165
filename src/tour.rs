//! The solver's result file: keyword lines and a tour section read by a
//! forward-only line cursor.
use vstd::prelude::*;

use crate::text::{
    decimal, is_plain_line, joined, lemma_decimal, lemma_lines_of_joined,
    lemma_split_newlines_len, lines, parse_u32, push_char, split_newlines, strip_cr,
    trim, trim_bounds, u32_of,
};

verus! {

/// Why a field could not be read from a result file.
#[derive(Debug, Clone, Copy, PartialEq, Eq)]
pub enum ParseError {
    /// No line after the cursor starts with the keyword.
    NotFound,
    /// A field that should hold a number holds something else.
    Format,
}

/// Whether `line` starts with `prefix`.
pub open spec fn starts_with(line: Seq<char>, prefix: Seq<char>) -> bool {
    prefix.len() <= line.len() && line.take(prefix.len() as int) == prefix
}

/// The first line at or after `from` that starts with `keyword`.
pub open spec fn find_line(lines: Seq<Seq<char>>, from: nat, keyword: Seq<char>) -> Option<nat>
    decreases lines.len() - from,
{
    if from >= lines.len() {
        None
    } else if starts_with(lines[from as int], keyword) {
        Some(from)
    } else {
        find_line(lines, from + 1, keyword)
    }
}

/// Whether `c` separates a keyword from its value.
pub open spec fn is_delimiter(c: char) -> bool {
    c == ':' || c == '='
}

/// The first position at or after `from` where `s` holds a delimiter.
pub open spec fn find_delimiter(s: Seq<char>, from: nat) -> Option<nat>
    decreases s.len() - from,
{
    if from >= s.len() {
        None
    } else if is_delimiter(s[from as int]) {
        Some(from)
    } else {
        find_delimiter(s, from + 1)
    }
}

/// The value of a keyword line: the trimmed text after its first `:` or
/// `=`, whichever comes first, or if it has neither the whole line trimmed.
pub open spec fn field_value(line: Seq<char>) -> Seq<char> {
    match find_delimiter(line, 0) {
        Some(d) => trim(line.subrange(d + 1 as int, line.len() as int)),
        None => trim(line),
    }
}

/// Reading tour entries from line `k` on, after the entries `acc`: each
/// trimmed line is a node numbered from one, until a line `-1` (consumed
/// too) or the end of the text. Gives the outcome and the line after the
/// last one read.
pub open spec fn tour_from(lines: Seq<Seq<char>>, k: nat, acc: Seq<u32>) -> (Result<
    Seq<u32>,
    ParseError,
>, nat)
    decreases lines.len() - k,
{
    if k >= lines.len() {
        (Ok(acc), k)
    } else if trim(lines[k as int]) == "-1"@ {
        (Ok(acc), k + 1)
    } else {
        match u32_of(trim(lines[k as int])) {
            Some(v) => if v >= 1 {
                tour_from(lines, k + 1, acc.push((v - 1) as u32))
            } else {
                (Err(ParseError::Format), k + 1)
            },
            None => (Err(ParseError::Format), k + 1),
        }
    }
}

/// Whether the returned `r` is the outcome `s`.
pub open spec fn same_outcome(r: Result<Vec<u32>, ParseError>, s: Result<Seq<u32>, ParseError>) -> bool {
    match (r, s) {
        (Ok(v), Ok(t)) => v@ == t,
        (Err(a), Err(b)) => a == b,
        _ => false,
    }
}

/// The text of a result file, held as its lines.
pub struct TourData {
    lines: Vec<Vec<char>>,
}

impl View for TourData {
    type V = Seq<Seq<char>>;

    /// The lines of the text.
    closed spec fn view(&self) -> Seq<Seq<char>> {
        self.lines@.map_values(|l: Vec<char>| l@)
    }
}

fn chars_of(s: &str) -> (r: Vec<char>)
    ensures
        r@ == s@,
{
    let mut r: Vec<char> = Vec::new();
    for c in it: s.chars()
        invariant
            it.seq() == s@,
            r@ == s@.take(it.index()),
    {
        assert(s@.take(it.index() + 1) == s@.take(it.index()).push(c));
        r.push(c);
    }
    assert(s@.take(s@.len() as int) == s@);
    r
}

impl TourData {
    /// Splits `text` into its lines.
    pub fn new(text: &str) -> (r: Self)
        ensures
            r@ == lines(text@),
    {
        let chars = chars_of(text);
        let n = chars.len();
        let mut done: Vec<Vec<char>> = Vec::new();
        let mut current: Vec<char> = Vec::new();
        for i in 0..n
            invariant
                n == chars@.len(),
                chars@ == text@,
                done@.map_values(|l: Vec<char>| l@) == split_newlines(
                    text@.take(i as int),
                ).drop_last().map_values(|l: Seq<char>| strip_cr(l)),
                current@ == split_newlines(text@.take(i as int)).last(),
        {
            let c = chars[i];
            proof {
                lemma_split_newlines_len(text@.take(i as int));
                lemma_split_newlines_len(text@.take(i as int + 1));
            }
            let ghost before = split_newlines(text@.take(i as int));
            assert(text@.take(i as int + 1).drop_last() == text@.take(i as int));
            assert(text@.take(i as int + 1).last() == c);
            if c == '\n' {
                let ghost line = current@;
                if current.len() > 0 && current[current.len() - 1] == '\r' {
                    current.pop();
                }
                assert(current@ == strip_cr(line));
                let ghost old_done = done@;
                done.push(current);
                current = Vec::new();
                let ghost after = split_newlines(text@.take(i as int + 1));
                assert(after == before.push(Seq::empty()));
                assert(after.drop_last() == before);
                assert(before == before.drop_last().push(line));
                assert(done@.map_values(|l: Vec<char>| l@) =~= old_done.map_values(
                    |l: Vec<char>| l@,
                ).push(strip_cr(line)));
                assert(before.map_values(|l: Seq<char>| strip_cr(l)) =~= before.drop_last().map_values(
                    |l: Seq<char>| strip_cr(l),
                ).push(strip_cr(line)));
            } else {
                current.push(c);
                let ghost after = split_newlines(text@.take(i as int + 1));
                assert(after == before.update(before.len() - 1, before.last().push(c)));
                assert(after.drop_last() =~= before.drop_last());
            }
        }
        assert(text@.take(n as int) == text@);
        proof {
            lemma_split_newlines_len(text@);
        }
        let ghost p = split_newlines(text@);
        if current.len() > 0 {
            let ghost old_done = done@;
            let ghost last = current@;
            done.push(current);
            assert(done@.map_values(|l: Vec<char>| l@) =~= old_done.map_values(|l: Vec<char>| l@).push(
                last,
            ));
        }
        TourData { lines: done }
    }

    /// A cursor at the first line of the text.
    pub fn parse(&self) -> (r: TourParse<'_>)
        ensures
            r.lines() == self@,
            r.position() == 0,
            r.wf(),
    {
        TourParse { data: self, next: 0 }
    }
}

/// A forward-only cursor over the lines of a result file.
pub struct TourParse<'a> {
    data: &'a TourData,
    next: usize,
}

impl<'a> TourParse<'a> {
    /// The lines of the text.
    pub closed spec fn lines(&self) -> Seq<Seq<char>> {
        self.data@
    }

    /// The index of the next line to read.
    pub closed spec fn position(&self) -> nat {
        self.next as nat
    }

    /// The cursor stands within the text or at its end.
    pub open spec fn wf(&self) -> bool {
        self.position() <= self.lines().len()
    }

    /// Moves past the first line from the cursor on that starts with
    /// `keyword`, and gives its index and the bounds of its value.
    fn find_field(&mut self, keyword: &str) -> (r: Result<(usize, usize, usize), ParseError>)
        requires
            old(self).wf(),
        ensures
            final(self).data == old(self).data,
            final(self).lines() == old(self).lines(),
            final(self).wf(),
            match find_line(old(self).lines(), old(self).position(), keyword@) {
                None => r == Err::<(usize, usize, usize), ParseError>(ParseError::NotFound)
                    && final(self).position() == old(self).lines().len(),
                Some(j) => r matches Ok((k, a, b)) && k == j && final(self).position() == j + 1 && a
                    <= b <= old(self).lines()[j as int].len() && old(self).lines()[j as int].subrange(
                    a as int,
                    b as int,
                ) == field_value(old(self).lines()[j as int]),
            },
    {
        let kw = chars_of(keyword);
        let n = self.data.lines.len();
        assert(self.data@.len() == n);
        while self.next < n
            invariant
                self.data == old(self).data,
                n == self.data@.len(),
                old(self).next <= self.next <= n,
                kw@ == keyword@,
                find_line(self.data@, old(self).next as nat, keyword@) == find_line(
                    self.data@,
                    self.next as nat,
                    keyword@,
                ),
            decreases n - self.next,
        {
            let k = self.next;
            let line = &self.data.lines[k];
            assert(line@ == self.data@[k as int]);
            self.next = k + 1;
            if starts_with_chars(line, &kw) {
                let (a, b) = value_bounds(line);
                return Ok((k, a, b));
            }
        }
        Err(ParseError::NotFound)
    }

    /// Moves past the first line from the cursor on that starts with
    /// `keyword`, and gives its value. Later calls see only the lines after it.
    pub fn parse(&mut self, keyword: &str) -> (r: Result<String, ParseError>)
        requires
            old(self).wf(),
        ensures
            final(self).lines() == old(self).lines(),
            final(self).wf(),
            match find_line(old(self).lines(), old(self).position(), keyword@) {
                None => r is Err && r->Err_0 == ParseError::NotFound && final(self).position()
                    == old(self).lines().len(),
                Some(j) => r matches Ok(s) && s@ == field_value(old(self).lines()[j as int])
                    && final(self).position() == j + 1,
            },
    {
        match self.find_field(keyword) {
            Ok((k, a, b)) => {
                let line = &self.data.lines[k];
                let mut s = String::new();
                for i in a..b
                    invariant
                        a <= b <= line@.len(),
                        s@ == line@.subrange(a as int, i as int),
                {
                    assert(line@.subrange(a as int, i as int + 1) == line@.subrange(
                        a as int,
                        i as int,
                    ).push(line@[i as int]));
                    push_char(&mut s, line[i]);
                }
                Ok(s)
            },
            Err(e) => Err(e),
        }
    }

    /// Reads the `DIMENSION` field as a number.
    pub fn dimension(&mut self) -> (r: Result<u32, ParseError>)
        requires
            old(self).wf(),
        ensures
            final(self).lines() == old(self).lines(),
            final(self).wf(),
            match find_line(old(self).lines(), old(self).position(), "DIMENSION"@) {
                None => r == Err::<u32, ParseError>(ParseError::NotFound) && final(self).position()
                    == old(self).lines().len(),
                Some(j) => final(self).position() == j + 1 && r == match u32_of(
                    field_value(old(self).lines()[j as int]),
                ) {
                    Some(v) => Ok::<u32, ParseError>(v),
                    None => Err(ParseError::Format),
                },
            },
    {
        match self.find_field("DIMENSION") {
            Ok((k, a, b)) => {
                let line = &self.data.lines[k];
                match parse_u32(line, a, b) {
                    Some(v) => Ok(v),
                    None => Err(ParseError::Format),
                }
            },
            Err(e) => Err(e),
        }
    }

    /// Reads the tour: after the `TOUR_SECTION` line, one node per line,
    /// numbered from one, until a line `-1`. Gives the nodes numbered from zero.
    pub fn tour(&mut self) -> (r: Result<Vec<u32>, ParseError>)
        requires
            old(self).wf(),
        ensures
            final(self).lines() == old(self).lines(),
            final(self).wf(),
            match find_line(old(self).lines(), old(self).position(), "TOUR_SECTION"@) {
                None => r is Err && r->Err_0 == ParseError::NotFound && final(self).position()
                    == old(self).lines().len(),
                Some(j) => same_outcome(r, tour_from(old(self).lines(), j + 1, Seq::empty()).0)
                    && final(self).position() == tour_from(
                    old(self).lines(),
                    j + 1,
                    Seq::empty(),
                ).1,
            },
    {
        match self.find_field("TOUR_SECTION") {
            Ok(_) => {},
            Err(e) => {
                return Err(e);
            },
        }
        let ghost start = self.next as nat;
        let n = self.data.lines.len();
        let mut buffer: Vec<u32> = Vec::new();
        while self.next < n
            invariant
                self.data == old(self).data,
                n == self.data@.len(),
                start <= self.next <= n,
                start >= 1,
                find_line(old(self).data@, old(self).next as nat, "TOUR_SECTION"@) == Some(
                    (start - 1) as nat,
                ),
                tour_from(self.data@, start, Seq::empty()) == tour_from(
                    self.data@,
                    self.next as nat,
                    buffer@,
                ),
            decreases n - self.next,
        {
            proof {
                reveal_strlit("-1");
            }
            let k = self.next;
            let line = &self.data.lines[k];
            assert(line@ == self.data@[k as int]);
            let (a, b) = trim_bounds(line, 0, line.len());
            assert(line@.subrange(0, line@.len() as int) == line@);
            self.next = k + 1;
            if b - a == 2 && line[a] == '-' && line[a + 1] == '1' {
                assert(line@.subrange(a as int, b as int) == "-1"@);
                return Ok(buffer);
            }
            proof {
                let t = line@.subrange(a as int, b as int);
                assert(t == trim(line@));
                if t == "-1"@ {
                    assert(t.len() == 2 && t[0] == '-' && t[1] == '1');
                }
            }
            match parse_u32(line, a, b) {
                Some(v) => {
                    if v >= 1 {
                        buffer.push(v - 1);
                    } else {
                        return Err(ParseError::Format);
                    }
                },
                None => {
                    return Err(ParseError::Format);
                },
            }
        }
        Ok(buffer)
    }
}

/// Whether `line` starts with `prefix`.
fn starts_with_chars(line: &Vec<char>, prefix: &Vec<char>) -> (r: bool)
    ensures
        r == starts_with(line@, prefix@),
{
    if prefix.len() > line.len() {
        return false;
    }
    let n = prefix.len();
    for i in 0..n
        invariant
            n == prefix@.len() <= line@.len(),
            forall|k: int| 0 <= k < i ==> line@[k] == prefix@[k],
    {
        if line[i] != prefix[i] {
            assert(line@.take(n as int)[i as int] != prefix@[i as int]);
            return false;
        }
    }
    assert(line@.take(n as int) =~= prefix@);
    true
}

/// The first position where `s` holds a delimiter.
fn find_delimiter_in(s: &Vec<char>) -> (r: Option<usize>)
    ensures
        r matches Some(d) ==> d < s@.len() && find_delimiter(s@, 0) == Some(d as nat),
        r is None ==> find_delimiter(s@, 0) is None,
{
    let n = s.len();
    for i in 0..n
        invariant
            n == s@.len(),
            find_delimiter(s@, 0) == find_delimiter(s@, i as nat),
    {
        if s[i] == ':' || s[i] == '=' {
            return Some(i);
        }
    }
    None
}

/// The bounds of the value of a keyword line.
fn value_bounds(line: &Vec<char>) -> (r: (usize, usize))
    ensures
        r.0 <= r.1 <= line@.len(),
        line@.subrange(r.0 as int, r.1 as int) == field_value(line@),
{
    let n = line.len();
    let from = match find_delimiter_in(line) {
        Some(d) => d + 1,
        None => 0,
    };
    assert(line@.subrange(0, n as int) == line@);
    trim_bounds(line, from, n)
}

/// The labels that the encoder gives `n` coordinates: `1`, `2`, ... `n`.
pub open spec fn labels(n: nat) -> Seq<Seq<char>> {
    Seq::new(n, |i: int| decimal(i as nat + 1))
}

/// The lines of a result text in which the solver keeps the `n` nodes in
/// the order they were written.
pub open spec fn identity_answer_lines(n: nat) -> Seq<Seq<char>> {
    seq!["TOUR_SECTION"@] + labels(n) + seq!["-1"@]
}

/// The positions `0..n`.
pub open spec fn positions(n: nat) -> Seq<u32> {
    Seq::new(n, |i: int| i as u32)
}

proof fn lemma_identity_entries(n: nat, m: nat)
    requires
        n <= u32::MAX,
        m <= n,
    ensures
        tour_from(identity_answer_lines(n), 1 + m, positions(m)) == (Ok::<Seq<u32>, ParseError>(
            positions(n),
        ), n + 2),
    decreases n - m,
{
    reveal_strlit("-1");
    let ls = identity_answer_lines(n);
    if m == n {
        assert(ls[1 + n as int] == "-1"@);
        assert(trim("-1"@) == "-1"@);
    } else {
        lemma_decimal(m + 1);
        let d = decimal(m + 1);
        assert(ls[1 + m as int] == d);
        assert(d != "-1"@) by {
            assert("-1"@[0] == '-');
        }
        assert(u32_of(d) == Some((m + 1) as u32));
        assert(positions(m).push(m as u32) =~= positions(m + 1));
        lemma_identity_entries(n, m + 1);
    }
}

/// Round trip: the encoder labels the coordinate at position `i` with
/// `decimal(i + 1)` (see `coordinate_line`); a result text that lists the
/// labels of `n` coordinates in order, ended by `-1`, splits into those
/// lines and reads back as the positions `0..n`.
pub proof fn lemma_round_trip(coordinates: Seq<Vec<String>>)
    requires
        coordinates.len() <= u32::MAX,
    ensures
        lines(joined(identity_answer_lines(coordinates.len()))) == identity_answer_lines(
            coordinates.len(),
        ),
        find_line(identity_answer_lines(coordinates.len()), 0, "TOUR_SECTION"@) == Some(0nat),
        tour_from(identity_answer_lines(coordinates.len()), 1, Seq::empty()) == (Ok::<
            Seq<u32>,
            ParseError,
        >(positions(coordinates.len())), coordinates.len() + 2),
{
    reveal_strlit("TOUR_SECTION");
    reveal_strlit("-1");
    let n = coordinates.len();
    let ls = identity_answer_lines(n);
    assert forall|i: int| 0 <= i < ls.len() implies is_plain_line(#[trigger] ls[i]) by {
        if 1 <= i <= n {
            lemma_decimal(i as nat);
            assert(ls[i] == decimal(i as nat));
        }
    }
    lemma_lines_of_joined(ls);
    assert(ls[0].take("TOUR_SECTION"@.len() as int) =~= "TOUR_SECTION"@);
    assert(positions(0) =~= Seq::<u32>::empty());
    lemma_identity_entries(n, 0);
}

} // verus!
