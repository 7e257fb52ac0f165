//! Plain text building blocks shared by the problem encoder and the tour parser.
use vstd::prelude::*;
use vstd::string::StringExecFns;

verus! {

/// The ASCII digit for `d` (`d < 10`).
pub open spec fn digit_char(d: nat) -> char {
    if d == 0 { '0' }
    else if d == 1 { '1' }
    else if d == 2 { '2' }
    else if d == 3 { '3' }
    else if d == 4 { '4' }
    else if d == 5 { '5' }
    else if d == 6 { '6' }
    else if d == 7 { '7' }
    else if d == 8 { '8' }
    else { '9' }
}

/// The decimal text of `n`, without sign or leading zeros.
pub open spec fn decimal(n: nat) -> Seq<char>
    decreases n,
{
    if n < 10 {
        seq![digit_char(n)]
    } else {
        decimal(n / 10).push(digit_char(n % 10))
    }
}

/// Relies on `String::push`: appends one character.
#[verifier::external_body]
pub(crate) fn push_char(w: &mut String, c: char)
    ensures
        final(w)@ == old(w)@.push(c),
{
    w.push(c)
}

fn digit(d: u64) -> (c: char)
    requires
        d < 10,
    ensures
        c == digit_char(d as nat),
{
    match d {
        0 => '0',
        1 => '1',
        2 => '2',
        3 => '3',
        4 => '4',
        5 => '5',
        6 => '6',
        7 => '7',
        8 => '8',
        _ => '9',
    }
}

/// Appends the decimal text of `n`.
pub fn push_decimal(w: &mut String, n: u64)
    ensures
        final(w)@ == old(w)@ + decimal(n as nat),
    decreases n,
{
    if n >= 10 {
        push_decimal(w, n / 10);
    }
    push_char(w, digit(n % 10));
}

/// `items`, each followed by one space.
pub open spec fn spaced(items: Seq<String>) -> Seq<char>
    decreases items.len(),
{
    if items.len() == 0 {
        Seq::empty()
    } else {
        spaced(items.drop_last()) + items.last()@ + " "@
    }
}

/// One line: `items`, each followed by one space, then a newline.
pub open spec fn sequence_line(items: Seq<String>) -> Seq<char> {
    spaced(items) + "\n"@
}

/// A header line `KEY: value`.
pub open spec fn field_line(key: Seq<char>, value: Seq<char>) -> Seq<char> {
    key + ": "@ + value + "\n"@
}

/// Appends `items`, each followed by one space.
pub fn push_spaced(w: &mut String, items: &[String])
    ensures
        final(w)@ == old(w)@ + spaced(items@),
{
    let n = items.len();
    for i in 0..n
        invariant
            n == items@.len(),
            w@ == old(w)@ + spaced(items@.take(i as int)),
    {
        assert(items@.take(i as int + 1).drop_last() == items@.take(i as int));
        w.append(items[i].as_str());
        w.append(" ");
    }
    assert(items@.take(n as int) == items@);
}

/// Appends the header line `KEY: value`.
pub fn push_field(w: &mut String, key: &str, value: &str)
    ensures
        final(w)@ == old(w)@ + field_line(key@, value@),
{
    w.append(key);
    w.append(": ");
    w.append(value);
    w.append("\n");
}

/// Appends the header line `KEY: n`.
pub fn push_number_field(w: &mut String, key: &str, n: u32)
    ensures
        final(w)@ == old(w)@ + field_line(key@, decimal(n as nat)),
{
    w.append(key);
    w.append(": ");
    push_decimal(w, n as u64);
    w.append("\n");
}


/// The characters with the Unicode `White_Space` property, as `char::is_whitespace` has them.
pub open spec fn is_whitespace(c: char) -> bool {
    ('\u{9}' <= c && c <= '\u{d}') || c == ' ' || c == '\u{85}' || c == '\u{a0}' || c
        == '\u{1680}' || ('\u{2000}' <= c && c <= '\u{200a}') || c == '\u{2028}' || c
        == '\u{2029}' || c == '\u{202f}' || c == '\u{205f}' || c == '\u{3000}'
}

/// `s` without its leading whitespace.
pub open spec fn trim_start(s: Seq<char>) -> Seq<char>
    decreases s.len(),
{
    if s.len() > 0 && is_whitespace(s[0]) {
        trim_start(s.drop_first())
    } else {
        s
    }
}

/// `s` without its trailing whitespace.
pub open spec fn trim_end(s: Seq<char>) -> Seq<char>
    decreases s.len(),
{
    if s.len() > 0 && is_whitespace(s.last()) {
        trim_end(s.drop_last())
    } else {
        s
    }
}

/// `s` without leading and trailing whitespace, as `str::trim` gives it.
pub open spec fn trim(s: Seq<char>) -> Seq<char> {
    trim_end(trim_start(s))
}

/// The pieces of `s` between newlines: one more than there are newlines.
pub open spec fn split_newlines(s: Seq<char>) -> Seq<Seq<char>>
    decreases s.len(),
{
    if s.len() == 0 {
        seq![Seq::empty()]
    } else if s.last() == '\n' {
        split_newlines(s.drop_last()).push(Seq::empty())
    } else {
        let p = split_newlines(s.drop_last());
        p.update(p.len() - 1, p.last().push(s.last()))
    }
}

/// A piece that a newline ended, without the carriage return before it.
pub open spec fn strip_cr(line: Seq<char>) -> Seq<char> {
    if line.len() > 0 && line.last() == '\r' {
        line.drop_last()
    } else {
        line
    }
}

/// The lines of `s`, as `str::lines` gives them: split at each `\n`, a line
/// that a `\n` ends loses one `\r` before it, and an empty last piece is no line.
pub open spec fn lines(s: Seq<char>) -> Seq<Seq<char>> {
    let p = split_newlines(s);
    let ended = p.drop_last().map_values(|l: Seq<char>| strip_cr(l));
    if p.last().len() == 0 {
        ended
    } else {
        ended.push(p.last())
    }
}

/// Whether `c` is an ASCII digit.
pub open spec fn is_digit(c: char) -> bool {
    '0' <= c && c <= '9'
}

/// Whether `s` is one or more ASCII digits.
pub open spec fn is_digits(s: Seq<char>) -> bool {
    s.len() > 0 && forall|i: int| 0 <= i < s.len() ==> is_digit(#[trigger] s[i])
}

/// The number that the digits `s` spell in base ten.
pub open spec fn digits_value(s: Seq<char>) -> nat
    decreases s.len(),
{
    if s.len() == 0 {
        0
    } else {
        digits_value(s.drop_last()) * 10 + ((s.last() as u32) - 48) as nat
    }
}

/// What `u32::from_str` makes of `s`: an optional `+`, then one or more
/// digits whose value fits in a `u32`; otherwise nothing.
pub open spec fn u32_of(s: Seq<char>) -> Option<u32> {
    let t = if s.len() > 0 && s[0] == '+' {
        s.drop_first()
    } else {
        s
    };
    if is_digits(t) && digits_value(t) <= u32::MAX {
        Some(digits_value(t) as u32)
    } else {
        None
    }
}

/// Whether `c` is whitespace.
pub fn is_whitespace_char(c: char) -> (r: bool)
    ensures
        r == is_whitespace(c),
{
    ('\u{9}' <= c && c <= '\u{d}') || c == ' ' || c == '\u{85}' || c == '\u{a0}' || c
        == '\u{1680}' || ('\u{2000}' <= c && c <= '\u{200a}') || c == '\u{2028}' || c
        == '\u{2029}' || c == '\u{202f}' || c == '\u{205f}' || c == '\u{3000}'
}

/// The bounds of `s[from..to]` once trimmed.
pub fn trim_bounds(s: &Vec<char>, from: usize, to: usize) -> (r: (usize, usize))
    requires
        from <= to <= s@.len(),
    ensures
        from <= r.0 <= r.1 <= to,
        s@.subrange(r.0 as int, r.1 as int) == trim(s@.subrange(from as int, to as int)),
{
    let mut a = from;
    while a < to && is_whitespace_char(s[a])
        invariant
            from <= a <= to <= s@.len(),
            trim_start(s@.subrange(from as int, to as int)) == trim_start(
                s@.subrange(a as int, to as int),
            ),
        decreases to - a,
    {
        assert(s@.subrange(a as int, to as int).drop_first() == s@.subrange(
            a as int + 1,
            to as int,
        ));
        a = a + 1;
    }
    let mut b = to;
    while b > a && is_whitespace_char(s[b - 1])
        invariant
            from <= a <= b <= to <= s@.len(),
            trim_end(s@.subrange(a as int, to as int)) == trim_end(
                s@.subrange(a as int, b as int),
            ),
        decreases b - a,
    {
        assert(s@.subrange(a as int, b as int).drop_last() == s@.subrange(
            a as int,
            b as int - 1,
        ));
        b = b - 1;
    }
    (a, b)
}

proof fn lemma_digits_prefix(s: Seq<char>, i: int)
    requires
        0 <= i <= s.len(),
    ensures
        digits_value(s.take(i)) <= digits_value(s),
    decreases s.len(),
{
    if i < s.len() {
        assert(s.drop_last().take(i) == s.take(i));
        lemma_digits_prefix(s.drop_last(), i);
    } else {
        assert(s.take(i) == s);
    }
}

/// Reads `s[from..to]` as `u32::from_str` does.
pub fn parse_u32(s: &Vec<char>, from: usize, to: usize) -> (r: Option<u32>)
    requires
        from <= to <= s@.len(),
    ensures
        r == u32_of(s@.subrange(from as int, to as int)),
{
    let ghost whole = s@.subrange(from as int, to as int);
    let mut i = from;
    if from < to && s[from] == '+' {
        i = from + 1;
    }
    let ghost t = s@.subrange(i as int, to as int);
    assert(t == if whole.len() > 0 && whole[0] == '+' {
        whole.drop_first()
    } else {
        whole
    });
    if i == to {
        return None;
    }
    let start = i;
    let mut value: u64 = 0;
    while i < to
        invariant
            from <= start <= i <= to <= s@.len(),
            t == s@.subrange(start as int, to as int),
            whole == s@.subrange(from as int, to as int),
            t == (if whole.len() > 0 && whole[0] == '+' {
                whole.drop_first()
            } else {
                whole
            }),
            value == digits_value(s@.subrange(start as int, i as int)),
            value <= u32::MAX,
            forall|k: int| start <= k < i ==> is_digit(#[trigger] s@[k]),
        decreases to - i,
    {
        let c = s[i];
        if !('0' <= c && c <= '9') {
            assert(!is_digit(t[i - start]));
            assert(!is_digits(t));
            return None;
        }
        let ghost prev = s@.subrange(start as int, i as int);
        let ghost next = s@.subrange(start as int, i as int + 1);
        assert(next.drop_last() == prev);
        assert(next.last() == c);
        value = value * 10 + (c as u32 - 48) as u64;
        i = i + 1;
        if value > u32::MAX as u64 {
            proof {
                assert(t.take(i - start) == next);
                lemma_digits_prefix(t, i - start);
                assert(digits_value(t) > u32::MAX);
            }
            return None;
        }
    }
    assert(s@.subrange(start as int, i as int) == t);
    Some(value as u32)
}

/// `lines`, each ended by a newline.
pub open spec fn joined(lines: Seq<Seq<char>>) -> Seq<char>
    decreases lines.len(),
{
    if lines.len() == 0 {
        Seq::empty()
    } else {
        joined(lines.drop_last()) + lines.last() + "\n"@
    }
}

/// Whether `line` can stand as one line: no newline in it, no carriage
/// return at its end.
pub open spec fn is_plain_line(line: Seq<char>) -> bool {
    &&& forall|i: int| 0 <= i < line.len() ==> #[trigger] line[i] != '\n'
    &&& !(line.len() > 0 && line.last() == '\r')
}

pub(crate) proof fn lemma_split_newlines_len(s: Seq<char>)
    ensures
        split_newlines(s).len() >= 1,
    decreases s.len(),
{
    if s.len() > 0 {
        lemma_split_newlines_len(s.drop_last());
    }
}

proof fn lemma_split_append_plain(x: Seq<char>, l: Seq<char>)
    requires
        forall|i: int| 0 <= i < l.len() ==> #[trigger] l[i] != '\n',
    ensures
        split_newlines(x + l) == split_newlines(x).update(
            split_newlines(x).len() - 1,
            split_newlines(x).last() + l,
        ),
    decreases l.len(),
{
    lemma_split_newlines_len(x);
    let sx = split_newlines(x);
    if l.len() == 0 {
        assert(x + l =~= x);
        assert(sx.last() + l =~= sx.last());
        assert(sx.update(sx.len() - 1, sx.last()) =~= sx);
    } else {
        let l2 = l.drop_last();
        let c = l.last();
        lemma_split_append_plain(x, l2);
        assert((x + l).drop_last() =~= x + l2);
        assert((x + l).last() == c);
        let p = split_newlines(x + l2);
        assert((sx.last() + l2).push(c) =~= sx.last() + l);
        assert(p.update(p.len() - 1, p.last().push(c)) =~= sx.update(
            sx.len() - 1,
            sx.last() + l,
        ));
    }
}

proof fn lemma_split_joined(ls: Seq<Seq<char>>)
    requires
        forall|i: int| 0 <= i < ls.len() ==> is_plain_line(#[trigger] ls[i]),
    ensures
        split_newlines(joined(ls)) == ls.push(Seq::empty()),
    decreases ls.len(),
{
    reveal_strlit("\n");
    if ls.len() == 0 {
        assert(split_newlines(joined(ls)) =~= ls.push(Seq::empty()));
    } else {
        let ls2 = ls.drop_last();
        let l = ls.last();
        assert(is_plain_line(ls[ls.len() - 1]));
        lemma_split_joined(ls2);
        let y = joined(ls2) + l;
        assert(joined(ls) =~= y.push('\n'));
        assert(y.push('\n').drop_last() =~= y);
        lemma_split_append_plain(joined(ls2), l);
        let s2 = ls2.push(Seq::<char>::empty());
        assert(Seq::<char>::empty() + l =~= l);
        assert(s2.update(s2.len() - 1, s2.last() + l) =~= ls);
    }
}

/// The lines of newline-ended plain lines are those lines.
pub proof fn lemma_lines_of_joined(ls: Seq<Seq<char>>)
    requires
        forall|i: int| 0 <= i < ls.len() ==> is_plain_line(#[trigger] ls[i]),
    ensures
        lines(joined(ls)) == ls,
{
    lemma_split_joined(ls);
    let p = split_newlines(joined(ls));
    assert(p.drop_last() =~= ls);
    assert(p.drop_last().map_values(|l: Seq<char>| strip_cr(l)) =~= ls);
}

proof fn lemma_digit_char(d: nat)
    requires
        d < 10,
    ensures
        is_digit(digit_char(d)),
        (digit_char(d) as u32) - 48 == d,
{
}

/// The decimal text of `k` is one or more digits that spell `k`, and
/// trimming leaves it as it is.
pub proof fn lemma_decimal(k: nat)
    ensures
        is_digits(decimal(k)),
        digits_value(decimal(k)) == k,
        trim(decimal(k)) == decimal(k),
        is_plain_line(decimal(k)),
        decimal(k)[0] != '+',
    decreases k,
{
    let d = decimal(k);
    lemma_digit_char(k % 10);
    if k < 10 {
        assert(d.drop_last() =~= Seq::<char>::empty());
        assert(digits_value(Seq::<char>::empty()) == 0);
        assert(digits_value(d.drop_last()) == 0);
        assert(d.last() == digit_char(k));
        assert(digits_value(d) == k);
    } else {
        lemma_decimal(k / 10);
        let p = decimal(k / 10);
        assert(d.drop_last() == p);
        assert(digits_value(d) == (k / 10) * 10 + k % 10);
        vstd::arithmetic::div_mod::lemma_fundamental_div_mod(k as int, 10);
        assert(digits_value(d) == k);
        assert forall|i: int| 0 <= i < d.len() implies is_digit(#[trigger] d[i]) by {
            if i < p.len() {
                assert(d[i] == p[i]);
            }
        }
    }
    assert(!is_whitespace(d[0]));
    assert(!is_whitespace(d.last()));
}

} // verus!
