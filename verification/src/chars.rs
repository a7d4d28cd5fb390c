use vstd::prelude::*;

verus! {

/// The characters of a string, in order.
pub fn chars_of(s: &str) -> (chars: Vec<char>)
    ensures
        chars@ == s@,
{
    let mut chars: Vec<char> = Vec::new();
    for c in it: s.chars()
        invariant
            chars@ == it.seq().take(it.index() as int),
            it.seq() == s@,
    {
        chars.push(c);
        proof {
            assert(chars@ =~= it.seq().take(it.index() + 1));
        }
    }
    assert(chars@ =~= s@);
    chars
}

/// Whether `s` begins with `prefix`.
pub fn is_prefix(prefix: &Vec<char>, s: &Vec<char>) -> (yes: bool)
    ensures
        yes == prefix@.is_prefix_of(s@),
{
    if prefix.len() > s.len() {
        return false;
    }
    let mut i: usize = 0;
    while i < prefix.len()
        invariant
            0 <= i <= prefix.len() <= s.len(),
            forall|k: int| 0 <= k < i ==> prefix@[k] == s@[k],
        decreases prefix.len() - i,
    {
        if prefix[i] != s[i] {
            assert(s@.subrange(0, prefix@.len() as int)[i as int] != prefix@[i as int]);
            return false;
        }
        i += 1;
    }
    assert(s@.subrange(0, prefix@.len() as int) =~= prefix@);
    true
}

/// Whether `s` ends with `suffix`.
pub fn is_suffix(suffix: &Vec<char>, s: &Vec<char>) -> (yes: bool)
    ensures
        yes == suffix@.is_suffix_of(s@),
{
    if suffix.len() > s.len() {
        return false;
    }
    let shift = s.len() - suffix.len();
    let mut i: usize = 0;
    while i < suffix.len()
        invariant
            0 <= i <= suffix.len() <= s.len(),
            shift == s.len() - suffix.len(),
            forall|k: int| 0 <= k < i ==> suffix@[k] == s@[shift + k],
        decreases suffix.len() - i,
    {
        if suffix[i] != s[shift + i] {
            assert(s@.subrange(shift as int, s@.len() as int)[i as int] != suffix@[i as int]);
            return false;
        }
        i += 1;
    }
    assert(s@.subrange(shift as int, s@.len() as int) =~= suffix@);
    true
}

/// Where `c` stands last in `s`.
pub open spec fn last_index_of(s: Seq<char>, c: char) -> Option<int>
    decreases s.len(),
{
    if s.len() == 0 {
        None
    } else if s.last() == c {
        Some(s.len() - 1)
    } else {
        last_index_of(s.drop_last(), c)
    }
}

/// Where `c` stands first in `s`.
pub open spec fn first_index_of(s: Seq<char>, c: char) -> Option<int>
    decreases s.len(),
{
    if s.len() == 0 {
        None
    } else if s[0] == c {
        Some(0)
    } else {
        match first_index_of(s.drop_first(), c) {
            Some(i) => Some(i + 1),
            None => None,
        }
    }
}

/// A place that `last_index_of` gives holds `c`, and `c` does not stand
/// behind it; where it gives none, `c` is not in `s`.
pub proof fn lemma_last_index_of(s: Seq<char>, c: char)
    ensures
        match last_index_of(s, c) {
            Some(i) => 0 <= i < s.len() && s[i] == c && forall|j: int|
                i < j < s.len() ==> s[j] != c,
            None => forall|j: int| 0 <= j < s.len() ==> s[j] != c,
        },
    decreases s.len(),
{
    if s.len() > 0 && s.last() != c {
        lemma_last_index_of(s.drop_last(), c);
        assert forall|j: int| 0 <= j < s.len() - 1 implies s[j] == s.drop_last()[j] by {}
    }
}

/// A place that `first_index_of` gives holds `c`, and `c` does not stand
/// before it; where it gives none, `c` is not in `s`.
pub proof fn lemma_first_index_of(s: Seq<char>, c: char)
    ensures
        match first_index_of(s, c) {
            Some(i) => 0 <= i < s.len() && s[i] == c && forall|j: int| 0 <= j < i ==> s[j] != c,
            None => forall|j: int| 0 <= j < s.len() ==> s[j] != c,
        },
    decreases s.len(),
{
    if s.len() > 0 && s[0] != c {
        lemma_first_index_of(s.drop_first(), c);
        assert forall|j: int| 0 < j < s.len() implies s[j] == s.drop_first()[j - 1] by {}
    }
}

/// Where `c` stands last in `s`.
pub fn rfind(s: &Vec<char>, c: char) -> (at: Option<usize>)
    ensures
        match at {
            Some(i) => last_index_of(s@, c) == Some(i as int) && i < s.len(),
            None => last_index_of(s@, c) is None,
        },
{
    let mut i: usize = s.len();
    proof {
        assert(s@.take(i as int) =~= s@);
    }
    while i > 0
        invariant
            0 <= i <= s.len(),
            last_index_of(s@, c) == last_index_of(s@.take(i as int), c),
        decreases i,
    {
        proof {
            assert(s@.take(i as int).drop_last() =~= s@.take(i - 1));
            assert(s@.take(i as int).last() == s@[i - 1]);
        }
        if s[i - 1] == c {
            return Some(i - 1);
        }
        i -= 1;
    }
    None
}

/// Where `c` stands first in `s`.
pub fn find(s: &Vec<char>, c: char) -> (at: Option<usize>)
    ensures
        match at {
            Some(i) => first_index_of(s@, c) == Some(i as int) && i < s.len(),
            None => first_index_of(s@, c) is None,
        },
{
    let mut i: usize = 0;
    while i < s.len()
        invariant
            0 <= i <= s.len(),
            forall|k: int| 0 <= k < i ==> s@[k] != c,
        decreases s.len() - i,
    {
        if s[i] == c {
            proof {
                lemma_first_index_of(s@, c);
            }
            return Some(i);
        }
        i += 1;
    }
    proof {
        lemma_first_index_of(s@, c);
    }
    None
}

/// The characters of `s` from `from` up to, not with, `to`.
pub fn slice(s: &Vec<char>, from: usize, to: usize) -> (part: Vec<char>)
    requires
        from <= to <= s.len(),
    ensures
        part@ == s@.subrange(from as int, to as int),
{
    let mut part: Vec<char> = Vec::new();
    let mut i: usize = from;
    while i < to
        invariant
            from <= i <= to <= s.len(),
            part@ == s@.subrange(from as int, i as int),
        decreases to - i,
    {
        part.push(s[i]);
        proof {
            assert(part@ =~= s@.subrange(from as int, i + 1));
        }
        i += 1;
    }
    part
}

/// Puts the characters of `tail` behind those of `s`.
pub fn extend(s: &mut Vec<char>, tail: &Vec<char>)
    ensures
        final(s)@ == old(s)@ + tail@,
{
    let mut i: usize = 0;
    proof {
        assert(s@ =~= old(s)@ + tail@.take(0));
    }
    while i < tail.len()
        invariant
            0 <= i <= tail.len(),
            s@ == old(s)@ + tail@.take(i as int),
        decreases tail.len() - i,
    {
        s.push(tail[i]);
        proof {
            assert(s@ =~= old(s)@ + tail@.take(i + 1));
        }
        i += 1;
    }
    proof {
        assert(tail@.take(tail.len() as int) =~= tail@);
    }
}

/// Whether a character is white space: a character with the Unicode
/// property `White_Space`.
pub open spec fn white_space(c: char) -> bool {
    let n = c as u32;
    ||| 0x09 <= n <= 0x0d
    ||| n == 0x20
    ||| n == 0x85
    ||| n == 0xa0
    ||| n == 0x1680
    ||| 0x2000 <= n <= 0x200a
    ||| n == 0x2028
    ||| n == 0x2029
    ||| n == 0x202f
    ||| n == 0x205f
    ||| n == 0x3000
}

/// Whether a character is white space.
pub fn is_white_space(c: char) -> (yes: bool)
    ensures
        yes == white_space(c),
{
    let n = c as u32;
    (0x09 <= n && n <= 0x0d) || n == 0x20 || n == 0x85 || n == 0xa0 || n == 0x1680 || (0x2000 <= n
        && n <= 0x200a) || n == 0x2028 || n == 0x2029 || n == 0x202f || n == 0x205f || n == 0x3000
}

/// How many characters at the front of `s` satisfy `strip`.
pub open spec fn leading(s: Seq<char>, strip: spec_fn(char) -> bool) -> nat
    decreases s.len(),
{
    if s.len() == 0 {
        0
    } else if strip(s[0]) {
        1 + leading(s.drop_first(), strip)
    } else {
        0
    }
}

/// How many characters at the end of `s` satisfy `strip`.
pub open spec fn trailing(s: Seq<char>, strip: spec_fn(char) -> bool) -> nat
    decreases s.len(),
{
    if s.len() == 0 {
        0
    } else if strip(s.last()) {
        1 + trailing(s.drop_last(), strip)
    } else {
        0
    }
}

/// `s` without the characters at its front and at its end that satisfy
/// `strip`.
pub open spec fn stripped(s: Seq<char>, strip: spec_fn(char) -> bool) -> Seq<char> {
    let from = leading(s, strip) as int;
    if from == s.len() {
        Seq::empty()
    } else {
        s.subrange(from, s.len() - trailing(s, strip))
    }
}

/// `s` without the white space at its front and at its end.
pub open spec fn trimmed(s: Seq<char>) -> Seq<char> {
    stripped(s, |c: char| white_space(c))
}

/// `s` without the quotation marks at its front and at its end.
pub open spec fn unquoted(s: Seq<char>) -> Seq<char> {
    stripped(s, |c: char| c == '"')
}

pub proof fn lemma_leading_bound(s: Seq<char>, strip: spec_fn(char) -> bool)
    ensures
        leading(s, strip) <= s.len(),
    decreases s.len(),
{
    if s.len() > 0 && strip(s[0]) {
        lemma_leading_bound(s.drop_first(), strip);
    }
}

pub proof fn lemma_trailing_bound(s: Seq<char>, strip: spec_fn(char) -> bool)
    ensures
        trailing(s, strip) <= s.len(),
        leading(s, strip) < s.len() ==> leading(s, strip) + trailing(s, strip) <= s.len(),
    decreases s.len(),
{
    lemma_leading_bound(s, strip);
    if s.len() > 0 && strip(s.last()) {
        let rest = s.drop_last();
        lemma_trailing_bound(rest, strip);
        lemma_leading_bound(rest, strip);
        lemma_leading_of_prefix(s, strip);
    }
}

/// Where not all of `s` is stripped from the front, the last character
/// of `s` has no part in what is stripped there.
pub proof fn lemma_leading_of_prefix(s: Seq<char>, strip: spec_fn(char) -> bool)
    requires
        s.len() > 0,
    ensures
        leading(s, strip) < s.len() ==> leading(s.drop_last(), strip) == leading(s, strip),
        leading(s, strip) == s.len() ==> leading(s.drop_last(), strip) == s.len() - 1,
        leading(s.drop_last(), strip) == s.len() - 1 && strip(s.last()) ==> leading(s, strip)
            == s.len(),
    decreases s.len(),
{
    lemma_leading_bound(s, strip);
    if s.len() == 1 {
        assert(s.drop_last().len() == 0);
        assert(s.drop_first().len() == 0);
        assert(s.last() == s[0]);
    } else if strip(s[0]) {
        assert(s.drop_last().drop_first() =~= s.drop_first().drop_last());
        lemma_leading_of_prefix(s.drop_first(), strip);
        assert(s.drop_last()[0] == s[0]);
    } else {
        assert(s.drop_last()[0] == s[0]);
    }
}

/// The bounds of what is left of `s` when the characters that `test` picks
/// are stripped from its front and its end.
fn strip_bounds(s: &Vec<char>, quotes: bool) -> (bounds: (usize, usize))
    ensures
        bounds.0 <= bounds.1 <= s.len(),
        s@.subrange(bounds.0 as int, bounds.1 as int) == stripped(s@, strip_test(quotes)),
{
    let ghost strip = strip_test(quotes);
    let mut from: usize = 0;
    proof {
        assert(s@.skip(0) =~= s@);
    }
    while from < s.len() && picks(s[from], quotes)
        invariant
            0 <= from <= s.len(),
            strip == strip_test(quotes),
            leading(s@, strip) == from + leading(s@.skip(from as int), strip),
        decreases s.len() - from,
    {
        proof {
            assert(s@.skip(from as int).drop_first() =~= s@.skip(from + 1));
            assert(s@.skip(from as int)[0] == s@[from as int]);
        }
        from += 1;
    }
    proof {
        if from < s.len() {
            assert(s@.skip(from as int)[0] == s@[from as int]);
        } else {
            assert(s@.skip(from as int).len() == 0);
        }
        assert(leading(s@, strip) == from);
    }
    if from == s.len() {
        proof {
            assert(s@.subrange(from as int, from as int) =~= Seq::<char>::empty());
        }
        return (from, from);
    }
    let mut to: usize = s.len();
    proof {
        assert(s@.take(to as int) =~= s@);
        lemma_trailing_bound(s@, strip);
    }
    while to > from && picks(s[to - 1], quotes)
        invariant
            from <= to <= s.len(),
            strip == strip_test(quotes),
            from == leading(s@, strip),
            from < s.len(),
            leading(s@, strip) + trailing(s@, strip) <= s.len(),
            trailing(s@, strip) == (s.len() - to) + trailing(s@.take(to as int), strip),
        decreases to,
    {
        proof {
            assert(s@.take(to as int).drop_last() =~= s@.take(to - 1));
            assert(s@.take(to as int).last() == s@[to - 1]);
        }
        to -= 1;
    }
    proof {
        if to > from {
            assert(s@.take(to as int).last() == s@[to - 1]);
            assert(trailing(s@.take(to as int), strip) == 0);
        } else {
            lemma_trailing_bound(s@.take(to as int), strip);
            assert(trailing(s@, strip) >= s.len() - to);
            assert(trailing(s@.take(to as int), strip) == 0);
        }
    }
    (from, to)
}

/// The test by which `strip_bounds` strips: quotation marks, or white
/// space.
pub open spec fn strip_test(quotes: bool) -> spec_fn(char) -> bool {
    if quotes {
        |c: char| c == '"'
    } else {
        |c: char| white_space(c)
    }
}

fn picks(c: char, quotes: bool) -> (yes: bool)
    ensures
        yes == strip_test(quotes)(c),
{
    if quotes {
        c == '"'
    } else {
        is_white_space(c)
    }
}

/// `s` without the white space at its front and at its end.
pub fn trim(s: &Vec<char>) -> (out: Vec<char>)
    ensures
        out@ == trimmed(s@),
{
    let (from, to) = strip_bounds(s, false);
    slice(s, from, to)
}

/// `s` without the quotation marks at its front and at its end.
pub fn unquote(s: &Vec<char>) -> (out: Vec<char>)
    ensures
        out@ == unquoted(s@),
{
    let (from, to) = strip_bounds(s, true);
    slice(s, from, to)
}

/// `c` stands first at `i` where it stands there and nowhere before.
pub proof fn lemma_first_index_is(s: Seq<char>, c: char, i: int)
    requires
        0 <= i < s.len(),
        s[i] == c,
        forall|j: int| 0 <= j < i ==> s[j] != c,
    ensures
        first_index_of(s, c) == Some(i),
{
    lemma_first_index_of(s, c);
}

/// `c` stands nowhere first where it stands nowhere.
pub proof fn lemma_first_index_none(s: Seq<char>, c: char)
    requires
        forall|j: int| 0 <= j < s.len() ==> s[j] != c,
    ensures
        first_index_of(s, c) is None,
{
    lemma_first_index_of(s, c);
}

/// The pieces of `s` between the places where `c` stands, in order; at
/// least one piece, and an empty one wherever two `c` meet or `c` stands
/// at an end.
pub open spec fn pieces(s: Seq<char>, c: char) -> Seq<Seq<char>>
    decreases s.len(),
{
    match first_index_of(s, c) {
        None => Seq::empty().push(s),
        Some(i) => if 0 <= i < s.len() {
            Seq::empty().push(s.take(i)) + pieces(s.skip(i + 1), c)
        } else {
            Seq::empty().push(s)
        },
    }
}

/// The views of a list of character lists.
pub open spec fn texts(parts: Seq<Vec<char>>) -> Seq<Seq<char>> {
    Seq::new(parts.len(), |i: int| parts[i]@)
}

/// The pieces of `s` between the places where `c` stands.
pub fn split_on(s: &Vec<char>, c: char) -> (parts: Vec<Vec<char>>)
    ensures
        texts(parts@) == pieces(s@, c),
{
    let mut parts: Vec<Vec<char>> = Vec::new();
    let mut start: usize = 0;
    let mut i: usize = 0;
    proof {
        assert(s@.skip(0) =~= s@);
        assert(texts(parts@) + pieces(s@, c) =~= pieces(s@, c));
    }
    while i < s.len()
        invariant
            0 <= start <= i <= s.len(),
            forall|k: int| start <= k < i ==> s@[k] != c,
            pieces(s@, c) == texts(parts@) + pieces(s@.skip(start as int), c),
        decreases s.len() - i,
    {
        if s[i] == c {
            let part = slice(s, start, i);
            let ghost before = texts(parts@);
            let ghost rest = s@.skip(start as int);
            proof {
                lemma_first_index_is(rest, c, i - start);
                assert(rest.take(i - start) =~= s@.subrange(start as int, i as int));
                assert(rest.skip(i - start + 1) =~= s@.skip(i + 1));
            }
            parts.push(part);
            proof {
                assert(texts(parts@) =~= before.push(part@));
                assert(before + (Seq::empty().push(part@) + pieces(s@.skip(i + 1), c))
                    =~= before.push(part@) + pieces(s@.skip(i + 1), c));
            }
            start = i + 1;
        }
        i += 1;
    }
    let part = slice(s, start, s.len());
    let ghost before = texts(parts@);
    proof {
        let rest = s@.skip(start as int);
        lemma_first_index_none(rest, c);
        assert(rest =~= s@.subrange(start as int, s@.len() as int));
    }
    parts.push(part);
    proof {
        assert(texts(parts@) =~= before.push(part@));
        assert(before + Seq::empty().push(part@) =~= before.push(part@));
    }
    parts
}

/// `l` without the carriage return at its end, if it has one.
pub open spec fn without_cr(l: Seq<char>) -> Seq<char> {
    if l.len() > 0 && l.last() == '\r' {
        l.drop_last()
    } else {
        l
    }
}

/// The lines of a text. A line ends with a line feed, or with a carriage
/// return and a line feed, which are no part of it; the last line needs no
/// ending. An empty text has no line.
pub open spec fn lines_of(s: Seq<char>) -> Seq<Seq<char>>
    decreases s.len(),
{
    if s.len() == 0 {
        Seq::empty()
    } else {
        match first_index_of(s, '\n') {
            None => Seq::empty().push(s),
            Some(i) => if 0 <= i < s.len() {
                Seq::empty().push(without_cr(s.take(i))) + lines_of(s.skip(i + 1))
            } else {
                Seq::empty().push(s)
            },
        }
    }
}

/// The lines of a text.
pub fn split_lines(s: &Vec<char>) -> (lines: Vec<Vec<char>>)
    ensures
        texts(lines@) == lines_of(s@),
{
    let mut lines: Vec<Vec<char>> = Vec::new();
    let mut start: usize = 0;
    let mut i: usize = 0;
    proof {
        assert(s@.skip(0) =~= s@);
        assert(texts(lines@) + lines_of(s@) =~= lines_of(s@));
    }
    while i < s.len()
        invariant
            0 <= start <= i <= s.len(),
            forall|k: int| start <= k < i ==> s@[k] != '\n',
            lines_of(s@) == texts(lines@) + lines_of(s@.skip(start as int)),
        decreases s.len() - i,
    {
        if s[i] == '\n' {
            let end = if i > start && s[i - 1] == '\r' {
                i - 1
            } else {
                i
            };
            let line = slice(s, start, end);
            let ghost before = texts(lines@);
            let ghost rest = s@.skip(start as int);
            proof {
                lemma_first_index_is(rest, '\n', i - start);
                assert(rest.take(i - start) =~= s@.subrange(start as int, i as int));
                assert(rest.skip(i - start + 1) =~= s@.skip(i + 1));
                assert(line@ =~= without_cr(rest.take(i - start)));
            }
            lines.push(line);
            proof {
                assert(texts(lines@) =~= before.push(line@));
                assert(before + (Seq::empty().push(line@) + lines_of(s@.skip(i + 1)))
                    =~= before.push(line@) + lines_of(s@.skip(i + 1)));
            }
            start = i + 1;
        }
        i += 1;
    }
    if start < s.len() {
        let line = slice(s, start, s.len());
        let ghost before = texts(lines@);
        proof {
            let rest = s@.skip(start as int);
            lemma_first_index_none(rest, '\n');
            assert(rest =~= s@.subrange(start as int, s@.len() as int));
        }
        lines.push(line);
        proof {
            assert(texts(lines@) =~= before.push(line@));
            assert(before + Seq::empty().push(line@) =~= before.push(line@));
        }
    } else {
        proof {
            assert(s@.skip(start as int).len() == 0);
            assert(texts(lines@) + Seq::<Seq<char>>::empty() =~= texts(lines@));
        }
    }
    lines
}

/// `s` with every stretch that reads `pat` taken out, from the left, no
/// stretch overlapping the one before. An empty `pat` takes nothing out.
pub open spec fn without(s: Seq<char>, pat: Seq<char>) -> Seq<char>
    decreases s.len(),
{
    if s.len() == 0 || pat.len() == 0 {
        s
    } else if pat.is_prefix_of(s) {
        without(s.skip(pat.len() as int), pat)
    } else {
        Seq::empty().push(s[0]) + without(s.drop_first(), pat)
    }
}

/// Whether `pat` stands in `s` at `at`.
fn stands_at(s: &Vec<char>, at: usize, pat: &Vec<char>) -> (yes: bool)
    requires
        at <= s.len(),
    ensures
        yes == pat@.is_prefix_of(s@.skip(at as int)),
{
    if pat.len() > s.len() - at {
        return false;
    }
    let mut k: usize = 0;
    while k < pat.len()
        invariant
            0 <= k <= pat.len() <= s.len() - at,
            forall|j: int| 0 <= j < k ==> pat@[j] == s@[at + j],
        decreases pat.len() - k,
    {
        if pat[k] != s[at + k] {
            assert(s@.skip(at as int).subrange(0, pat@.len() as int)[k as int] != pat@[k as int]);
            return false;
        }
        k += 1;
    }
    assert(s@.skip(at as int).subrange(0, pat@.len() as int) =~= pat@);
    true
}

/// `s` with every stretch that reads `pat` taken out.
pub fn remove_all(s: &Vec<char>, pat: &Vec<char>) -> (out: Vec<char>)
    ensures
        out@ == without(s@, pat@),
{
    let mut out: Vec<char> = Vec::new();
    let mut i: usize = 0;
    proof {
        assert(s@.skip(0) =~= s@);
        assert(out@ + without(s@, pat@) =~= without(s@, pat@));
    }
    if pat.len() == 0 {
        let copy = slice(s, 0, s.len());
        assert(copy@ =~= s@);
        return copy;
    }
    while i < s.len()
        invariant
            0 <= i <= s.len(),
            pat.len() > 0,
            without(s@, pat@) == out@ + without(s@.skip(i as int), pat@),
        decreases s.len() - i,
    {
        let ghost rest = s@.skip(i as int);
        let ghost before = out@;
        if stands_at(s, i, pat) {
            proof {
                assert(rest.skip(pat@.len() as int) =~= s@.skip(i + pat@.len()));
            }
            i += pat.len();
        } else {
            out.push(s[i]);
            proof {
                assert(rest.drop_first() =~= s@.skip(i + 1));
                assert(before + (Seq::empty().push(rest[0]) + without(rest.drop_first(), pat@))
                    =~= out@ + without(s@.skip(i + 1), pat@));
            }
            i += 1;
        }
    }
    proof {
        assert(s@.skip(i as int).len() == 0);
        assert(out@ + Seq::<char>::empty() =~= out@);
    }
    out
}

/// Whether `pat` stands somewhere in `s`.
pub open spec fn holds_text(s: Seq<char>, pat: Seq<char>) -> bool {
    exists|i: int| 0 <= i <= s.len() && pat.is_prefix_of(#[trigger] s.skip(i))
}

/// Whether `pat` stands somewhere in `s`.
pub fn contains_text(s: &Vec<char>, pat: &Vec<char>) -> (yes: bool)
    ensures
        yes == holds_text(s@, pat@),
{
    let mut i: usize = 0;
    while i < s.len()
        invariant
            0 <= i <= s.len(),
            forall|k: int| 0 <= k < i ==> !pat@.is_prefix_of(#[trigger] s@.skip(k)),
        decreases s.len() - i,
    {
        if stands_at(s, i, pat) {
            return true;
        }
        i += 1;
    }
    stands_at(s, i, pat)
}

/// The digit that a character is.
pub open spec fn digit_value(c: char) -> Option<nat> {
    if '0' <= c <= '9' {
        Some((c as u32 - '0' as u32) as nat)
    } else {
        None
    }
}

/// The number that a run of decimal digits writes; nothing for an empty
/// text or a text with another character in it.
pub open spec fn digits_value(s: Seq<char>) -> Option<nat>
    decreases s.len(),
{
    if s.len() == 0 {
        None
    } else {
        match digit_value(s.last()) {
            None => None,
            Some(d) => if s.len() == 1 {
                Some(d)
            } else {
                match digits_value(s.drop_last()) {
                    Some(v) => Some(v * 10 + d),
                    None => None,
                }
            },
        }
    }
}

/// The number that a text writes, where it is at most `max`: decimal
/// digits, with or without a plus sign before them, and nothing else.
pub open spec fn unsigned_value(s: Seq<char>, max: nat) -> Option<nat> {
    let digits = if s.len() > 0 && s[0] == '+' {
        s.drop_first()
    } else {
        s
    };
    capped(digits_value(digits), max)
}

/// `v` where it is a number of at most `max`.
pub open spec fn capped(v: Option<nat>, max: nat) -> Option<nat> {
    match v {
        Some(n) => if n <= max {
            Some(n)
        } else {
            None
        },
        None => None,
    }
}

/// A run of digits writes no less than what any of its beginnings writes,
/// and writes nothing where one of its beginnings writes nothing.
pub proof fn lemma_digits_grow(s: Seq<char>, n: int)
    requires
        0 < n <= s.len(),
    ensures
        digits_value(s.take(n)) is None ==> digits_value(s) is None,
        digits_value(s.take(n)) is Some && digits_value(s) is Some ==> digits_value(
            s.take(n),
        )->0 <= digits_value(s)->0,
    decreases s.len() - n,
{
    if n < s.len() {
        lemma_digits_grow(s, n + 1);
        assert(s.take(n + 1).drop_last() =~= s.take(n));
    } else {
        assert(s.take(n) =~= s);
    }
}

/// The number that a text writes, where it is at most `max`.
pub fn parse_unsigned(s: &Vec<char>, max: u64) -> (out: Option<u64>)
    ensures
        match out {
            Some(v) => unsigned_value(s@, max as nat) == Some(v as nat),
            None => unsigned_value(s@, max as nat) is None,
        },
{
    let from: usize = if s.len() > 0 && s[0] == '+' {
        1
    } else {
        0
    };
    let ghost digits = s@.skip(from as int);
    proof {
        if from == 1 {
            assert(s@.skip(1) =~= s@.drop_first());
        } else {
            assert(s@.skip(0) =~= s@);
        }
        assert(unsigned_value(s@, max as nat) == capped(digits_value(digits), max as nat));
    }
    if from == s.len() {
        assert(digits.len() == 0);
        return None;
    }
    let mut value: u64 = 0;
    let mut i: usize = from;
    while i < s.len()
        invariant
            from <= i <= s.len(),
            from < s.len(),
            digits == s@.skip(from as int),
            unsigned_value(s@, max as nat) == capped(digits_value(digits), max as nat),
            value <= max,
            i == from ==> value == 0,
            i > from ==> digits_value(digits.take(i - from)) == Some(value as nat),
        decreases s.len() - i,
    {
        let c = s[i];
        let ghost upto = digits.take(i - from + 1);
        proof {
            assert(upto.drop_last() =~= digits.take(i - from));
            assert(upto.last() == c);
            assert(upto.len() == i - from + 1);
            lemma_digits_grow(digits, i - from + 1);
        }
        if !('0' <= c && c <= '9') {
            proof {
                assert(digit_value(c) is None);
                assert(digits_value(upto) is None);
            }
            return None;
        }
        let d: u64 = (c as u32 - '0' as u32) as u64;
        proof {
            assert(digit_value(c) == Some(d as nat));
            assert(digits_value(upto) == Some((value * 10 + d) as nat));
        }
        if d > max {
            return None;
        }
        if value > (max - d) / 10 {
            proof {
                assert(value * 10 + d > max) by (nonlinear_arith)
                    requires
                        value > (max - d) / 10,
                        d <= max,
                {
                }
            }
            return None;
        }
        assert(value * 10 + d <= max) by (nonlinear_arith)
            requires
                value <= (max - d) / 10,
                d <= max,
        {
        }
        value = value * 10 + d;
        i += 1;
    }
    proof {
        assert(digits.take(s.len() - from) =~= digits);
    }
    Some(value)
}

/// Whether two lists hold the same characters.
pub fn same(a: &Vec<char>, b: &Vec<char>) -> (yes: bool)
    ensures
        yes == (a@ == b@),
{
    if a.len() != b.len() {
        return false;
    }
    let mut i: usize = 0;
    while i < a.len()
        invariant
            0 <= i <= a.len(),
            a.len() == b.len(),
            forall|k: int| 0 <= k < i ==> a@[k] == b@[k],
        decreases a.len() - i,
    {
        if a[i] != b[i] {
            return false;
        }
        i += 1;
    }
    assert(a@ =~= b@);
    true
}

/// Whether the list holds the characters of `text`.
pub fn reads(a: &Vec<char>, text: &str) -> (yes: bool)
    ensures
        yes == (a@ == text@),
{
    same(a, &chars_of(text))
}

/// `s` with every stretch that reads `pat` replaced by `to`, from the
/// left, no stretch overlapping the one before. An empty `pat` replaces
/// nothing.
pub open spec fn replaced(s: Seq<char>, pat: Seq<char>, to: Seq<char>) -> Seq<char>
    decreases s.len(),
{
    if s.len() == 0 || pat.len() == 0 {
        s
    } else if pat.is_prefix_of(s) {
        to + replaced(s.skip(pat.len() as int), pat, to)
    } else {
        Seq::empty().push(s[0]) + replaced(s.drop_first(), pat, to)
    }
}

/// `s` with every stretch that reads `pat` replaced by `to`.
pub fn replace_all(s: &Vec<char>, pat: &Vec<char>, to: &Vec<char>) -> (out: Vec<char>)
    ensures
        out@ == replaced(s@, pat@, to@),
{
    let mut out: Vec<char> = Vec::new();
    let mut i: usize = 0;
    proof {
        assert(s@.skip(0) =~= s@);
        assert(out@ + replaced(s@, pat@, to@) =~= replaced(s@, pat@, to@));
    }
    if pat.len() == 0 {
        let copy = slice(s, 0, s.len());
        assert(copy@ =~= s@);
        return copy;
    }
    while i < s.len()
        invariant
            0 <= i <= s.len(),
            pat.len() > 0,
            replaced(s@, pat@, to@) == out@ + replaced(s@.skip(i as int), pat@, to@),
        decreases s.len() - i,
    {
        let ghost rest = s@.skip(i as int);
        let ghost before = out@;
        if stands_at(s, i, pat) {
            extend(&mut out, to);
            proof {
                assert(rest.skip(pat@.len() as int) =~= s@.skip(i + pat@.len()));
                assert(before + (to@ + replaced(rest.skip(pat@.len() as int), pat@, to@)) =~= out@
                    + replaced(s@.skip(i + pat@.len()), pat@, to@));
            }
            i += pat.len();
        } else {
            out.push(s[i]);
            proof {
                assert(rest.drop_first() =~= s@.skip(i + 1));
                assert(before + (Seq::empty().push(rest[0]) + replaced(
                    rest.drop_first(),
                    pat@,
                    to@,
                )) =~= out@ + replaced(s@.skip(i + 1), pat@, to@));
            }
            i += 1;
        }
    }
    proof {
        assert(s@.skip(i as int).len() == 0);
        assert(out@ + Seq::<char>::empty() =~= out@);
    }
    out
}

/// Where `pat` stands first in `s`.
pub open spec fn first_occurrence(s: Seq<char>, pat: Seq<char>) -> Option<int>
    decreases s.len(),
{
    if pat.is_prefix_of(s) {
        Some(0)
    } else if s.len() == 0 {
        None
    } else {
        match first_occurrence(s.drop_first(), pat) {
            Some(i) => Some(i + 1),
            None => None,
        }
    }
}

/// Where `pat` stands first in `s`, at `from` or behind it.
pub fn find_text(s: &Vec<char>, from: usize, pat: &Vec<char>) -> (at: Option<usize>)
    requires
        from <= s.len(),
    ensures
        match at {
            Some(i) => from <= i <= s.len() && first_occurrence(s@.skip(from as int), pat@) == Some(
                i - from,
            ) && i + pat@.len() <= s.len(),
            None => first_occurrence(s@.skip(from as int), pat@) is None,
        },
{
    let mut i: usize = from;
    while i < s.len()
        invariant
            from <= i <= s.len(),
            first_occurrence(s@.skip(from as int), pat@) == match first_occurrence(
                s@.skip(i as int),
                pat@,
            ) {
                Some(k) => Some(k + i - from),
                None => None,
            },
        decreases s.len() - i,
    {
        if stands_at(s, i, pat) {
            return Some(i);
        }
        proof {
            assert(s@.skip(i as int).drop_first() =~= s@.skip(i + 1));
        }
        i += 1;
    }
    if stands_at(s, i, pat) {
        Some(i)
    } else {
        assert(s@.skip(i as int).len() == 0);
        None
    }
}

/// The first word of `s`: its first stretch without white space; none
/// where `s` is white space only.
pub open spec fn first_word(s: Seq<char>) -> Option<Seq<char>> {
    let from = leading(s, |c: char| white_space(c)) as int;
    if from >= s.len() {
        None
    } else {
        Some(s.skip(from).take(leading(s.skip(from), |c: char| !white_space(c)) as int))
    }
}

/// The first word of the part of `s` from `from` up to, not with, `to`.
pub fn word_in(s: &Vec<char>, from: usize, to: usize) -> (out: Option<Vec<char>>)
    requires
        from <= to <= s.len(),
    ensures
        match out {
            Some(w) => first_word(s@.subrange(from as int, to as int)) == Some(w@),
            None => first_word(s@.subrange(from as int, to as int)) is None,
        },
{
    let ghost part = s@.subrange(from as int, to as int);
    let ghost space = |c: char| white_space(c);
    let ghost ink = |c: char| !white_space(c);
    let mut a: usize = from;
    proof {
        assert(part.skip(0) =~= part);
    }
    while a < to && is_white_space(s[a])
        invariant
            from <= a <= to <= s.len(),
            part == s@.subrange(from as int, to as int),
            space == (|c: char| white_space(c)),
            leading(part, space) == (a - from) + leading(part.skip(a - from), space),
        decreases to - a,
    {
        proof {
            assert(part.skip(a - from).drop_first() =~= part.skip(a - from + 1));
            assert(part.skip(a - from)[0] == s@[a as int]);
        }
        a += 1;
    }
    proof {
        if a < to {
            assert(part.skip(a - from)[0] == s@[a as int]);
        } else {
            assert(part.skip(a - from).len() == 0);
        }
        assert(leading(part, space) == a - from);
    }
    if a == to {
        return None;
    }
    let ghost rest = part.skip(a - from);
    let mut b: usize = a;
    proof {
        assert(rest.skip(0) =~= rest);
    }
    while b < to && !is_white_space(s[b])
        invariant
            from <= a <= b <= to <= s.len(),
            part == s@.subrange(from as int, to as int),
            rest == part.skip(a - from),
            ink == (|c: char| !white_space(c)),
            leading(rest, ink) == (b - a) + leading(rest.skip(b - a), ink),
        decreases to - b,
    {
        proof {
            assert(rest.skip(b - a).drop_first() =~= rest.skip(b - a + 1));
            assert(rest.skip(b - a)[0] == s@[b as int]);
        }
        b += 1;
    }
    proof {
        if b < to {
            assert(rest.skip(b - a)[0] == s@[b as int]);
        } else {
            assert(rest.skip(b - a).len() == 0);
        }
        assert(leading(rest, ink) == b - a);
        assert(rest.take(b - a) =~= s@.subrange(a as int, b as int));
    }
    Some(slice(s, a, b))
}

} // verus!
