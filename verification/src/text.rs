//! Byte-level line model: how content splits into lines, each line keeping its
//! terminating newline byte, where each line starts, and what it means to
//! splice a replacement over a 1-based line range.

use vstd::prelude::*;

verus! {

/// Line feed byte.
pub const NL: u8 = 10;

/// Carriage return byte.
pub const CR: u8 = 13;

/// Index of the first occurrence of `b` in `s` at or after `from`.
pub open spec fn find_byte(s: Seq<u8>, b: u8, from: int) -> Option<int>
    decreases s.len() - from,
{
    if from < 0 || from >= s.len() {
        None
    } else if s[from] == b {
        Some(from)
    } else {
        find_byte(s, b, from + 1)
    }
}

pub proof fn lemma_find_byte(s: Seq<u8>, b: u8, from: int)
    requires
        0 <= from <= s.len(),
    ensures
        match find_byte(s, b, from) {
            Some(k) => from <= k < s.len() && s[k] == b && (forall|j: int|
                from <= j < k ==> s[j] != b),
            None => forall|j: int| from <= j < s.len() ==> s[j] != b,
        },
    decreases s.len() - from,
{
    if from < s.len() && s[from] != b {
        lemma_find_byte(s, b, from + 1);
    }
}

/// End of the line that starts at `from`: one past its newline byte, or the
/// end of the content for an unterminated final line.
pub open spec fn line_end(s: Seq<u8>, from: int) -> int {
    match find_byte(s, NL, from) {
        Some(k) => k + 1,
        None => s.len() as int,
    }
}

pub proof fn lemma_line_end(s: Seq<u8>, from: int)
    requires
        0 <= from <= s.len(),
    ensures
        from <= line_end(s, from) <= s.len(),
        from < s.len() ==> from < line_end(s, from),
{
    lemma_find_byte(s, NL, from);
}

/// The lines of the suffix of `s` that starts at `i`, each line including its
/// terminating newline byte if it has one.
pub open spec fn lines_from(s: Seq<u8>, i: int) -> Seq<Seq<u8>>
    decreases s.len() - i,
{
    if i < 0 || i >= s.len() {
        Seq::empty()
    } else {
        let e = line_end(s, i);
        if i < e <= s.len() {
            seq![s.subrange(i, e)] + lines_from(s, e)
        } else {
            Seq::empty()
        }
    }
}

/// The lines of `s`, in order. Indexed from 0 here; a suggestion's range is
/// 1-based, so its line `n` is `lines_of(s)[n - 1]`.
pub open spec fn lines_of(s: Seq<u8>) -> Seq<Seq<u8>> {
    lines_from(s, 0)
}

/// Offset at which the line with 0-based index `n` starts; saturates at
/// `s.len()` once `n` is past the last line.
pub open spec fn line_start(s: Seq<u8>, n: int) -> int
    decreases n,
{
    if n <= 0 {
        0
    } else {
        line_end(s, line_start(s, n - 1))
    }
}

pub proof fn lemma_line_start_bounds(s: Seq<u8>, n: int)
    requires
        n >= 0,
    ensures
        0 <= line_start(s, n) <= s.len(),
    decreases n,
{
    if n > 0 {
        lemma_line_start_bounds(s, n - 1);
        lemma_line_end(s, line_start(s, n - 1));
    }
}

pub proof fn lemma_line_start_monotone(s: Seq<u8>, m: int, n: int)
    requires
        0 <= m <= n,
    ensures
        line_start(s, m) <= line_start(s, n),
    decreases n - m,
{
    if m < n {
        lemma_line_start_monotone(s, m, n - 1);
        lemma_line_start_bounds(s, n - 1);
        lemma_line_end(s, line_start(s, n - 1));
    }
}

/// The lines from the start of line `n` are exactly the lines of `s` with the
/// first `n` dropped.
pub proof fn lemma_lines_suffix(s: Seq<u8>, n: int)
    requires
        0 <= n <= lines_of(s).len(),
    ensures
        0 <= line_start(s, n) <= s.len(),
        lines_from(s, line_start(s, n)) =~= lines_of(s).skip(n),
    decreases n,
{
    lemma_line_start_bounds(s, n);
    if n == 0 {
        assert(lines_of(s).skip(0) =~= lines_of(s));
    } else {
        lemma_lines_suffix(s, n - 1);
        let p = line_start(s, n - 1);
        let tail = lines_of(s).skip(n - 1);
        assert(tail.len() > 0);
        assert(lines_from(s, p).len() > 0);
        // A suffix with lines left must start strictly inside the content.
        assert(p < s.len());
        lemma_line_end(s, p);
        let e = line_end(s, p);
        assert(lines_from(s, p) =~= seq![s.subrange(p, e)] + lines_from(s, e));
        assert(line_start(s, n) == e);
        assert forall|k: int| 0 <= k < lines_of(s).len() - n implies lines_from(
            s,
            e,
        )[k] == lines_of(s).skip(n)[k] by {
            assert(lines_from(s, p)[k + 1] == lines_from(s, e)[k]);
            assert(tail[k + 1] == lines_of(s).skip(n)[k]);
        }
        assert(lines_from(s, e).len() == lines_of(s).skip(n).len());
    }
}

/// There is a line with index `n` exactly when its start offset lies strictly
/// inside the content.
pub proof fn lemma_line_exists(s: Seq<u8>, n: int)
    requires
        0 <= n,
    ensures
        n < lines_of(s).len() <==> line_start(s, n) < s.len(),
        n >= lines_of(s).len() ==> line_start(s, n) == s.len(),
    decreases n,
{
    let count = lines_of(s).len() as int;
    lemma_line_start_bounds(s, n);
    if n <= count {
        lemma_lines_suffix(s, n);
        if n < count {
            assert(lines_from(s, line_start(s, n)).len() > 0);
        } else {
            if line_start(s, n) < s.len() {
                lemma_line_end(s, line_start(s, n));
                assert(lines_from(s, line_start(s, n)).len() > 0);
            }
        }
    } else {
        lemma_line_exists(s, n - 1);
        assert(line_start(s, n - 1) == s.len());
        lemma_find_byte(s, NL, s.len() as int);
        assert(line_end(s, s.len() as int) == s.len());
    }
}

/// The line with 0-based index `n` occupies `[line_start(s, n), line_start(s, n + 1))`.
pub proof fn lemma_line_at(s: Seq<u8>, n: int)
    requires
        0 <= n < lines_of(s).len(),
    ensures
        0 <= line_start(s, n) < line_start(s, n + 1) <= s.len(),
        lines_of(s)[n] == s.subrange(line_start(s, n), line_start(s, n + 1)),
{
    lemma_lines_suffix(s, n);
    let p = line_start(s, n);
    lemma_line_exists(s, n);
    lemma_line_end(s, p);
    let e = line_end(s, p);
    assert(lines_from(s, p) =~= seq![s.subrange(p, e)] + lines_from(s, e));
    assert(lines_of(s).skip(n)[0] == lines_of(s)[n]);
    assert(line_start(s, n + 1) == e);
}

/// Replace the 1-based line range `[first, last]` of `c` with `repl`:
/// everything before line `first` and after line `last` is kept byte-for-byte,
/// and `repl` is written in between, exactly as given.
pub open spec fn splice_bytes(c: Seq<u8>, first: int, last: int, repl: Seq<u8>) -> Seq<u8> {
    c.take(line_start(c, first - 1)) + repl + c.skip(line_start(c, last))
}

/// A 1-based line range `[first, last]` addresses existing lines of `c`.
pub open spec fn range_in_lines(c: Seq<u8>, first: int, last: int) -> bool {
    1 <= first && first <= last && last <= lines_of(c).len()
}

/// Splicing preserves every line outside the replaced range `[first, last]`
/// verbatim, terminator included: each earlier line sits at its original
/// offset, and each later line is shifted by the difference `d` between the
/// replacement's length and the replaced range's length.
pub proof fn lemma_splice_preserves_outside(c: Seq<u8>, first: int, last: int, repl: Seq<u8>)
    requires
        range_in_lines(c, first, last),
    ensures
        ({
            let r = splice_bytes(c, first, last, repl);
            let d = line_start(c, first - 1) + repl.len() - line_start(c, last);
            &&& forall|k: int|
                0 <= k < first - 1 ==> lines_of(c)[k] =~= r.subrange(
                    line_start(c, k),
                    line_start(c, k + 1),
                )
            &&& forall|k: int|
                last <= k < lines_of(c).len() ==> lines_of(c)[k] =~= r.subrange(
                    line_start(c, k) + d,
                    line_start(c, k + 1) + d,
                )
        }),
{
    let r = splice_bytes(c, first, last, repl);
    let a = line_start(c, first - 1);
    let b = line_start(c, last);
    let d = a + repl.len() - b;
    lemma_line_start_bounds(c, first - 1);
    lemma_line_start_bounds(c, last);
    lemma_line_start_monotone(c, first - 1, last);
    assert forall|k: int| 0 <= k < first - 1 implies lines_of(c)[k] =~= r.subrange(
        line_start(c, k),
        line_start(c, k + 1),
    ) by {
        lemma_line_at(c, k);
        lemma_line_start_monotone(c, k + 1, first - 1);
    }
    assert forall|k: int| last <= k < lines_of(c).len() implies lines_of(c)[k] =~= r.subrange(
        line_start(c, k) + d,
        line_start(c, k + 1) + d,
    ) by {
        lemma_line_at(c, k);
        lemma_line_start_monotone(c, last, k);
    }
}

/// First occurrence of `b` in `v` at or after `from`, as executable code.
pub fn find_byte_in(v: &[u8], b: u8, from: usize) -> (r: Option<usize>)
    requires
        from <= v@.len(),
    ensures
        r matches Some(k) ==> find_byte(v@, b, from as int) == Some(k as int) && from <= k
            < v@.len(),
        r is None ==> find_byte(v@, b, from as int) is None,
{
    let mut i: usize = from;
    while i < v.len()
        invariant
            from <= i <= v@.len(),
            forall|j: int| from <= j < i ==> v@[j] != b,
        decreases v@.len() - i,
    {
        if v[i] == b {
            proof {
                lemma_find_byte(v@, b, from as int);
            }
            return Some(i);
        }
        i = i + 1;
    }
    proof {
        lemma_find_byte(v@, b, from as int);
    }
    None
}

/// Offsets at which the lines of `v` start, with `v.len()` appended: entry `k`
/// is `line_start(v@, k)`, and there is one entry per line plus the final one.
pub fn line_start_offsets(v: &[u8]) -> (starts: Vec<usize>)
    ensures
        starts@.len() == lines_of(v@).len() + 1,
        forall|k: int| 0 <= k < starts@.len() ==> starts@[k] == line_start(v@, k),
{
    let mut starts: Vec<usize> = Vec::new();
    starts.push(0);
    let mut i: usize = 0;
    while i < v.len()
        invariant
            starts@.len() >= 1,
            i == starts@[starts@.len() - 1],
            i <= v@.len(),
            forall|k: int| 0 <= k < starts@.len() ==> starts@[k] == line_start(v@, k),
            forall|k: int| 0 <= k < starts@.len() - 1 ==> starts@[k] < v@.len(),
        decreases v@.len() - i,
    {
        let e: usize = match find_byte_in(v, NL, i) {
            Some(k) => k + 1,
            None => v.len(),
        };
        proof {
            lemma_find_byte(v@, NL, i as int);
            assert(e == line_end(v@, i as int));
            assert(e == line_start(v@, starts@.len() as int));
            lemma_line_end(v@, i as int);
        }
        starts.push(e);
        i = e;
    }
    proof {
        let m = starts@.len() - 1;
        lemma_line_exists(v@, m);
        if m > 0 {
            lemma_line_exists(v@, m - 1);
        }
        assert(starts@[m] == v@.len());
        assert(m == lines_of(v@).len());
    }
    starts
}

} // verus!
