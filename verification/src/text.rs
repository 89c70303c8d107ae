//! Building text: appending characters, joining parts, decimal numbers.

use vstd::prelude::*;
use vstd::string::{StrSliceExecFns, StringExecFns};

verus! {

/// `String::push` appends one character to the end of the string.
pub assume_specification[ String::push ](s: &mut String, c: char)
    ensures
        final(s)@ == old(s)@.push(c),
;

/// The texts that a sequence of strings holds.
pub open spec fn texts(parts: Seq<String>) -> Seq<Seq<char>> {
    Seq::new(parts.len(), |i: int| parts[i]@)
}

/// A copy of an optional text.
pub fn copy_text(text: &Option<String>) -> (copy: Option<String>)
    ensures
        copy == *text,
{
    match text {
        Some(t) => Some(t.clone()),
        None => None,
    }
}

/// A copy of a list of texts: the same texts in the same order.
pub fn copy_texts(list: &Vec<String>) -> (copy: Vec<String>)
    ensures
        texts(copy@) == texts(list@),
{
    let mut copy: Vec<String> = Vec::new();
    let mut i: usize = 0;
    while i < list.len()
        invariant
            i <= list.len(),
            texts(copy@) == texts(list@.take(i as int)),
        decreases list.len() - i,
    {
        let ghost before = texts(copy@);
        copy.push(list[i].clone());
        i = i + 1;
        proof {
            assert(texts(copy@) =~= before.push(list@[i - 1]@));
            assert(texts(list@.take(i as int)) =~= texts(list@.take(i - 1)).push(list@[i - 1]@));
        }
    }
    assert(list@.take(list.len() as int) =~= list@);
    copy
}

/// The parts in order, with `sep` between each two neighbours.
pub open spec fn join(parts: Seq<Seq<char>>, sep: Seq<char>) -> Seq<char>
    decreases parts.len(),
{
    if parts.len() == 0 {
        Seq::empty()
    } else if parts.len() == 1 {
        parts[0]
    } else {
        join(parts.drop_last(), sep) + sep + parts.last()
    }
}

/// Each part with `prefix` in front of it.
pub open spec fn prefix_each(prefix: Seq<char>, parts: Seq<Seq<char>>) -> Seq<Seq<char>> {
    Seq::new(parts.len(), |i: int| prefix + parts[i])
}

/// The character for a decimal digit.
pub open spec fn digit_char(d: nat) -> char {
    if d == 0 {
        '0'
    } else if d == 1 {
        '1'
    } else if d == 2 {
        '2'
    } else if d == 3 {
        '3'
    } else if d == 4 {
        '4'
    } else if d == 5 {
        '5'
    } else if d == 6 {
        '6'
    } else if d == 7 {
        '7'
    } else if d == 8 {
        '8'
    } else {
        '9'
    }
}

/// A number in decimal, without leading zeros.
pub open spec fn decimal(n: nat) -> Seq<char>
    decreases n,
{
    if n < 10 {
        seq![digit_char(n)]
    } else {
        decimal(n / 10).push(digit_char(n % 10))
    }
}

fn digit(d: u32) -> (c: char)
    requires
        d < 10,
    ensures
        c == digit_char(d as nat),
{
    if d == 0 {
        '0'
    } else if d == 1 {
        '1'
    } else if d == 2 {
        '2'
    } else if d == 3 {
        '3'
    } else if d == 4 {
        '4'
    } else if d == 5 {
        '5'
    } else if d == 6 {
        '6'
    } else if d == 7 {
        '7'
    } else if d == 8 {
        '8'
    } else {
        '9'
    }
}

/// Appends `n` in decimal to `out`.
pub fn push_decimal(out: &mut String, n: u32)
    ensures
        final(out)@ == old(out)@ + decimal(n as nat),
    decreases n,
{
    if n >= 10 {
        push_decimal(out, n / 10);
    }
    out.push(digit(n % 10));
    assert(out@ =~= old(out)@ + decimal(n as nat));
}

/// The parts of `parts`, each with `prefix` in front, joined by `sep`.
pub fn join_prefixed(parts: &Vec<String>, prefix: &str, sep: &str) -> (out: String)
    ensures
        out@ == join(prefix_each(prefix@, texts(parts@)), sep@),
{
    let ghost all = prefix_each(prefix@, texts(parts@));
    let mut out = String::new();
    let mut i: usize = 0;
    while i < parts.len()
        invariant
            i <= parts.len(),
            all == prefix_each(prefix@, texts(parts@)),
            out@ == join(all.take(i as int), sep@),
        decreases parts.len() - i,
    {
        proof {
            assert(all.take(i + 1).drop_last() =~= all.take(i as int));
            assert(all.take(i + 1).last() == prefix@ + parts@[i as int]@);
        }
        if i > 0 {
            out.append(sep);
        }
        out.append(prefix);
        out.append(parts[i].as_str());
        proof {
            if i == 0 {
                assert(all.take(1)[0] =~= Seq::<char>::empty() + prefix@ + parts@[0]@);
            } else {
                assert(out@ =~= join(all.take(i as int), sep@) + sep@ + (prefix@
                    + parts@[i as int]@));
            }
        }
        i = i + 1;
    }
    proof {
        assert(all.take(parts.len() as int) =~= all);
    }
    out
}

/// The parts of `parts` joined by `sep`.
pub fn join_strings(parts: &Vec<String>, sep: &str) -> (out: String)
    ensures
        out@ == join(texts(parts@), sep@),
{
    let ghost all = texts(parts@);
    let mut out = String::new();
    let mut i: usize = 0;
    while i < parts.len()
        invariant
            i <= parts.len(),
            all == texts(parts@),
            out@ == join(all.take(i as int), sep@),
        decreases parts.len() - i,
    {
        proof {
            assert(all.take(i + 1).drop_last() =~= all.take(i as int));
            assert(all.take(i + 1).last() == parts@[i as int]@);
        }
        if i > 0 {
            out.append(sep);
        }
        out.append(parts[i].as_str());
        proof {
            if i == 0 {
                assert(all.take(1)[0] =~= Seq::<char>::empty() + parts@[0]@);
            }
        }
        i = i + 1;
    }
    proof {
        assert(all.take(parts.len() as int) =~= all);
    }
    out
}

/// What stands behind the last `sep` in `s`: all of `s` where it holds none.
pub open spec fn after_last(s: Seq<char>, sep: char) -> Seq<char>
    decreases s.len(),
{
    if s.len() == 0 {
        Seq::empty()
    } else if s.last() == sep {
        Seq::empty()
    } else {
        after_last(s.drop_last(), sep).push(s.last())
    }
}

/// The part of `s` behind its last `sep`.
pub fn last_segment(s: &str, sep: char) -> (out: String)
    ensures
        out@ == after_last(s@, sep),
{
    let mut out = String::new();
    for c in it: s.chars()
        invariant
            it.seq() == s@,
            out@ == after_last(s@.take(it.index()), sep),
    {
        proof {
            assert(s@.take(it.index() + 1).drop_last() =~= s@.take(it.index()));
            assert(s@.take(it.index() + 1).last() == c);
        }
        if c == sep {
            out = String::new();
        } else {
            out.push(c);
        }
    }
    assert(s@.take(s@.len() as int) =~= s@);
    out
}

/// Cell `k` of a text split at every character boundary: the cells at both
/// ends are empty, cell `k` between them holds the character before boundary
/// `k`.
pub open spec fn cell(s: Seq<char>, k: int) -> Seq<char> {
    if 1 <= k <= s.len() {
        seq![s[k - 1]]
    } else {
        Seq::empty()
    }
}

/// The cells `from..to` of `s`, put together.
pub open spec fn cells(s: Seq<char>, from: int, to: int) -> Seq<char>
    decreases to - from,
{
    if to <= from {
        Seq::empty()
    } else {
        cells(s, from, to - 1) + cell(s, to - 1)
    }
}

/// A text of `s.len()` characters has `s.len() + 2` cells; a range that is
/// not empty must lie among them.
pub open spec fn cells_defined(s: Seq<char>, from: int, to: int) -> bool {
    to <= from || to <= s.len() + 2
}

/// The cells `from..to` of `text`, or `None` where the range leaves the
/// cells.
pub fn cut(text: &str, from: usize, to: usize) -> (out: Option<String>)
    ensures
        out is Some <==> cells_defined(text@, from as int, to as int),
        out matches Some(piece) ==> piece@ == cells(text@, from as int, to as int),
{
    let n: usize = text.unicode_len();
    if from < to && n <= usize::MAX - 2 && to > n + 2 {
        return None;
    }
    let mut out = String::new();
    if to <= from {
        return Some(out);
    }
    let mut k: usize = 0;
    proof {
        assert(cell(text@, 0) == Seq::<char>::empty());
        assert(cells(text@, 0, 0) == Seq::<char>::empty());
        assert(cells(text@, 0, 1) =~= Seq::<char>::empty());
    }
    for c in it: text.chars()
        invariant
            it.seq() == text@,
            n == text@.len(),
            from < to <= n + 2,
            k == it.index(),
            out@ == cells(text@, from as int, if to <= k + 1 {
                to as int
            } else {
                k + 1
            }),
    {
        proof {
            assert(cell(text@, k + 1) == seq![c]);
        }
        if from <= k + 1 && k + 1 < to {
            out.push(c);
        }
        k = k + 1;
    }
    proof {
        if to == n + 2 {
            assert(cell(text@, n + 1) == Seq::<char>::empty());
            assert(cells(text@, from as int, to as int) =~= cells(text@, from as int, n + 1));
        }
    }
    Some(out)
}

/// `s` without the occurrences of `pattern`, found from the left and not
/// overlapping. An empty pattern removes nothing.
pub open spec fn remove_all(s: Seq<char>, pattern: Seq<char>) -> Seq<char>
    decreases s.len(),
{
    if pattern.len() == 0 || s.len() < pattern.len() {
        s
    } else if s.take(pattern.len() as int) == pattern {
        remove_all(s.skip(pattern.len() as int), pattern)
    } else {
        seq![s[0]] + remove_all(s.skip(1), pattern)
    }
}

/// The characters of `s`, one by one.
pub fn chars_of(s: &str) -> (out: Vec<char>)
    ensures
        out@ == s@,
{
    let mut out: Vec<char> = Vec::new();
    for c in it: s.chars()
        invariant
            it.seq() == s@,
            out@ == s@.take(it.index()),
    {
        out.push(c);
        assert(s@.take(it.index() + 1) =~= s@.take(it.index()).push(c));
    }
    assert(s@.take(s@.len() as int) =~= s@);
    out
}

fn starts_at(s: &Vec<char>, at: usize, pattern: &Vec<char>) -> (yes: bool)
    requires
        at + pattern.len() <= s.len(),
    ensures
        yes == (s@.skip(at as int).take(pattern.len() as int) == pattern@),
{
    let ghost window = s@.skip(at as int).take(pattern.len() as int);
    let mut j: usize = 0;
    while j < pattern.len()
        invariant
            j <= pattern.len(),
            at + pattern.len() <= s.len(),
            window == s@.skip(at as int).take(pattern.len() as int),
            forall|k: int| 0 <= k < j ==> window[k] == pattern@[k],
        decreases pattern.len() - j,
    {
        if s[at + j] != pattern[j] {
            assert(window[j as int] != pattern@[j as int]);
            return false;
        }
        j = j + 1;
    }
    assert(window =~= pattern@);
    true
}

/// `text` without the occurrences of `pattern`.
pub fn remove_text(text: &str, pattern: &str) -> (out: String)
    ensures
        out@ == remove_all(text@, pattern@),
{
    let s = chars_of(text);
    let p = chars_of(pattern);
    let mut out = String::new();
    let mut i: usize = 0;
    if p.len() == 0 {
        return String::from_str(text);
    }
    proof {
        assert(s@.skip(0) =~= s@);
        assert(out@ + remove_all(s@, p@) =~= remove_all(s@, p@));
    }
    while i < s.len() && s.len() - i >= p.len()
        invariant
            i <= s.len(),
            p.len() > 0,
            s@ == text@,
            p@ == pattern@,
            out@ + remove_all(s@.skip(i as int), p@) == remove_all(s@, p@),
        decreases s.len() - i,
    {
        let ghost rest = s@.skip(i as int);
        if starts_at(&s, i, &p) {
            proof {
                assert(rest.skip(p.len() as int) =~= s@.skip(i + p.len()));
            }
            i = i + p.len();
        } else {
            proof {
                assert(rest.skip(1) =~= s@.skip(i + 1));
                assert(out@.push(s@[i as int]) + remove_all(s@.skip(i + 1), p@) =~= out@ + (
                seq![rest[0]] + remove_all(rest.skip(1), p@)));
            }
            out.push(s[i]);
            i = i + 1;
        }
    }
    while i < s.len()
        invariant
            i <= s.len(),
            p.len() > 0,
            s.len() - i < p.len(),
            s@ == text@,
            p@ == pattern@,
            out@ + s@.skip(i as int) == remove_all(s@, p@),
        decreases s.len() - i,
    {
        proof {
            assert(out@.push(s@[i as int]) + s@.skip(i + 1) =~= out@ + s@.skip(i as int));
        }
        out.push(s[i]);
        i = i + 1;
    }
    assert(out@ + s@.skip(i as int) =~= out@);
    out
}

} // verus!
