//! Suggestion block extractor: find the first fenced block tagged
//! `suggestion` in a free-form comment body and return its exact interior.
//!
//! The opening marker is the byte sequence `` ``` `` followed by optional
//! spaces or tabs and the word `suggestion`; the replacement text starts
//! after that marker line's newline and runs to the first following line that
//! holds nothing but `` ``` `` (optionally with a carriage return). When the
//! block is never closed, the remainder after the marker line is the
//! replacement, bare fence markers stripped; when no complete opening marker
//! line exists, the whole body is treated the same way.

use vstd::prelude::*;

use crate::text::find_byte;
use crate::text::find_byte_in;
use crate::text::lemma_find_byte;
use crate::text::CR;
use crate::text::NL;

verus! {

/// Backtick byte, three of which form a fence.
pub const BACKTICK: u8 = 96;

/// Space or horizontal tab.
pub open spec fn is_blank(b: u8) -> bool {
    b == 32 || b == 9
}

/// Three backticks start at `i`.
pub open spec fn fence_at(s: Seq<u8>, i: int) -> bool {
    &&& 0 <= i
    &&& i + 3 <= s.len()
    &&& s[i] == BACKTICK
    &&& s[i + 1] == BACKTICK
    &&& s[i + 2] == BACKTICK
}

/// First index at or after `i` holding neither a space nor a tab.
pub open spec fn blank_end(s: Seq<u8>, i: int) -> int
    decreases s.len() - i,
{
    if i < 0 || i >= s.len() {
        i
    } else if is_blank(s[i]) {
        blank_end(s, i + 1)
    } else {
        i
    }
}

pub proof fn lemma_blank_end(s: Seq<u8>, i: int)
    requires
        0 <= i <= s.len(),
    ensures
        i <= blank_end(s, i) <= s.len(),
    decreases s.len() - i,
{
    if i < s.len() && is_blank(s[i]) {
        lemma_blank_end(s, i + 1);
    }
}

/// The bytes of the word `suggestion` start at `j`.
pub open spec fn suggestion_tag_at(s: Seq<u8>, j: int) -> bool {
    &&& 0 <= j
    &&& j + 10 <= s.len()
    &&& s[j] == 115  // s
    &&& s[j + 1] == 117  // u
    &&& s[j + 2] == 103  // g
    &&& s[j + 3] == 103  // g
    &&& s[j + 4] == 101  // e
    &&& s[j + 5] == 115  // s
    &&& s[j + 6] == 116  // t
    &&& s[j + 7] == 105  // i
    &&& s[j + 8] == 111  // o
    &&& s[j + 9] == 110  // n
}

/// An opening marker starts at `i`: a fence, optional blanks, the tag.
pub open spec fn open_at(s: Seq<u8>, i: int) -> bool {
    fence_at(s, i) && suggestion_tag_at(s, blank_end(s, i + 3))
}

/// Position of the first opening marker at or after `i`.
pub open spec fn find_open(s: Seq<u8>, i: int) -> Option<int>
    decreases s.len() - i,
{
    if i < 0 || i >= s.len() {
        None
    } else if open_at(s, i) {
        Some(i)
    } else {
        find_open(s, i + 1)
    }
}

/// End of the text of the line starting at `c`, excluding its newline.
pub open spec fn line_text_end(s: Seq<u8>, c: int) -> int {
    match find_byte(s, NL, c) {
        Some(k) => k,
        None => s.len() as int,
    }
}

/// The line starting at `c` holds only a fence, optionally ending in a
/// carriage return: it closes a block.
pub open spec fn close_at(s: Seq<u8>, c: int) -> bool {
    let e = line_text_end(s, c);
    fence_at(s, c) && (e == c + 3 || (e == c + 4 && s[c + 3] == CR))
}

/// Start of the first closing line at or after the line start `c`.
pub open spec fn find_close(s: Seq<u8>, c: int) -> Option<int>
    decreases s.len() - c,
{
    if c < 0 || c >= s.len() {
        None
    } else if close_at(s, c) {
        Some(c)
    } else {
        let e = line_text_end(s, c);
        if c <= e < s.len() {
            find_close(s, e + 1)
        } else {
            None
        }
    }
}

/// `s` from `i` on, with every (non-overlapping, left-to-right) triple of
/// backticks removed.
pub open spec fn strip_fences_from(s: Seq<u8>, i: int) -> Seq<u8>
    decreases s.len() - i,
{
    if i < 0 || i >= s.len() {
        Seq::empty()
    } else if fence_at(s, i) {
        strip_fences_from(s, i + 3)
    } else {
        seq![s[i]] + strip_fences_from(s, i + 1)
    }
}

/// The replacement text a comment body yields: the interior of the first
/// `suggestion` block, fences removed and nothing else changed. When the
/// block is never closed, everything after the marker line is kept, with
/// bare fence markers stripped; when no complete opening marker line exists,
/// the whole body is kept the same way.
pub open spec fn extract_spec(s: Seq<u8>) -> Seq<u8> {
    match find_open(s, 0) {
        None => strip_fences_from(s, 0),
        Some(i) => {
            let j = blank_end(s, i + 3);
            match find_byte(s, NL, j + 10) {
                None => strip_fences_from(s, 0),
                Some(nl) => {
                    let cs = nl + 1;
                    match find_close(s, cs) {
                        None => strip_fences_from(s, cs),
                        Some(c) => s.subrange(cs, c),
                    }
                },
            }
        },
    }
}

/// `s` from `i` on, with every carriage return removed.
pub open spec fn strip_cr_from(s: Seq<u8>, i: int) -> Seq<u8>
    decreases s.len() - i,
{
    if i < 0 || i >= s.len() {
        Seq::empty()
    } else if s[i] == CR {
        strip_cr_from(s, i + 1)
    } else {
        seq![s[i]] + strip_cr_from(s, i + 1)
    }
}

/// Every carriage return removed from `s`.
pub open spec fn strip_cr(s: Seq<u8>) -> Seq<u8> {
    strip_cr_from(s, 0)
}

pub proof fn lemma_find_open(s: Seq<u8>, i: int)
    requires
        0 <= i <= s.len(),
    ensures
        find_open(s, i) matches Some(k) ==> i <= k < s.len() && open_at(s, k),
    decreases s.len() - i,
{
    if i < s.len() && !open_at(s, i) {
        lemma_find_open(s, i + 1);
    }
}

/// Three backticks start at `i`, as executable code.
fn has_fence_at(v: &[u8], i: usize) -> (r: bool)
    ensures
        r == fence_at(v@, i as int),
{
    if v.len() < 3 || i > v.len() - 3 {
        false
    } else {
        v[i] == BACKTICK && v[i + 1] == BACKTICK && v[i + 2] == BACKTICK
    }
}

/// First non-blank index at or after `i`, as executable code.
fn blank_run_end(v: &[u8], i: usize) -> (e: usize)
    requires
        i <= v@.len(),
    ensures
        e == blank_end(v@, i as int),
        i <= e <= v@.len(),
{
    let mut e: usize = i;
    while e < v.len() && (v[e] == 32 || v[e] == 9)
        invariant
            i <= e <= v@.len(),
            blank_end(v@, i as int) == blank_end(v@, e as int),
        decreases v@.len() - e,
    {
        e = e + 1;
    }
    e
}

/// The word `suggestion` starts at `j`, as executable code.
fn has_suggestion_at(v: &[u8], j: usize) -> (r: bool)
    ensures
        r == suggestion_tag_at(v@, j as int),
{
    if v.len() < 10 || j > v.len() - 10 {
        false
    } else {
        v[j] == 115 && v[j + 1] == 117 && v[j + 2] == 103 && v[j + 3] == 103 && v[j + 4] == 101
            && v[j + 5] == 115 && v[j + 6] == 116 && v[j + 7] == 105 && v[j + 8] == 111 && v[j + 9]
            == 110
    }
}

/// An opening marker starts at `i`, as executable code.
fn has_open_at(v: &[u8], i: usize) -> (r: bool)
    requires
        i <= v@.len(),
    ensures
        r == open_at(v@, i as int),
{
    let n = v.len();
    if !has_fence_at(v, i) {
        return false;
    }
    assert(i + 3 <= n);
    let j = blank_run_end(v, i + 3);
    has_suggestion_at(v, j)
}

/// Position of the first opening marker, as executable code.
fn find_open_in(v: &[u8]) -> (r: Option<usize>)
    ensures
        r matches Some(i) ==> find_open(v@, 0) == Some(i as int) && i < v@.len(),
        r is None ==> find_open(v@, 0) is None,
{
    let mut i: usize = 0;
    while i < v.len()
        invariant
            i <= v@.len(),
            find_open(v@, 0) == find_open(v@, i as int),
        decreases v@.len() - i,
    {
        if has_open_at(v, i) {
            return Some(i);
        }
        i = i + 1;
    }
    None
}

/// End of the text of the line starting at `c`, as executable code.
fn line_text_end_in(v: &[u8], c: usize) -> (e: usize)
    requires
        c <= v@.len(),
    ensures
        e == line_text_end(v@, c as int),
        c <= e <= v@.len(),
{
    proof {
        lemma_find_byte(v@, NL, c as int);
    }
    match find_byte_in(v, NL, c) {
        Some(k) => k,
        None => v.len(),
    }
}

/// The line starting at `c` closes a block, as executable code.
fn is_close_at(v: &[u8], c: usize) -> (r: bool)
    requires
        c < v@.len(),
    ensures
        r == close_at(v@, c as int),
{
    if !has_fence_at(v, c) {
        return false;
    }
    let e = line_text_end_in(v, c);
    let w = e - c;
    w == 3 || (w == 4 && v[c + 3] == CR)
}

/// Start of the first closing line at or after `cs`, as executable code.
fn find_close_in(v: &[u8], cs: usize) -> (r: Option<usize>)
    requires
        cs <= v@.len(),
    ensures
        r matches Some(c) ==> find_close(v@, cs as int) == Some(c as int) && cs <= c < v@.len(),
        r is None ==> find_close(v@, cs as int) is None,
{
    let mut c: usize = cs;
    while c < v.len()
        invariant
            cs <= c <= v@.len(),
            find_close(v@, cs as int) == find_close(v@, c as int),
        decreases v@.len() - c,
    {
        if is_close_at(v, c) {
            return Some(c);
        }
        let e = line_text_end_in(v, c);
        if e >= v.len() {
            return None;
        }
        c = e + 1;
    }
    None
}

/// The body from `from` on with bare fence markers removed, as executable
/// code.
fn strip_fences(v: &[u8], from: usize) -> (out: Vec<u8>)
    requires
        from <= v@.len(),
    ensures
        out@ == strip_fences_from(v@, from as int),
{
    let mut out: Vec<u8> = Vec::new();
    let mut i: usize = from;
    while i < v.len()
        invariant
            from <= i <= v@.len(),
            strip_fences_from(v@, from as int) == out@ + strip_fences_from(v@, i as int),
        decreases v@.len() - i,
    {
        if has_fence_at(v, i) {
            i = i + 3;
        } else {
            out.push(v[i]);
            i = i + 1;
        }
    }
    assert(strip_fences_from(v@, i as int) =~= Seq::empty());
    assert(strip_fences_from(v@, from as int) =~= out@);
    out
}

/// Extract the replacement text from a comment body: the interior of the
/// first `suggestion` fence block, or the fence-stripped body when no such
/// block exists.
pub fn extract(v: &[u8]) -> (out: Vec<u8>)
    ensures
        out@ == extract_spec(v@),
{
    let i = match find_open_in(v) {
        None => {
            return strip_fences(v, 0);
        },
        Some(i) => i,
    };
    let n = v.len();
    proof {
        lemma_find_open(v@, 0);
        lemma_blank_end(v@, i as int + 3);
    }
    assert(i + 3 <= n);
    let j = blank_run_end(v, i + 3);
    assert(j + 10 <= n);
    let nl = match find_byte_in(v, NL, j + 10) {
        None => {
            return strip_fences(v, 0);
        },
        Some(nl) => nl,
    };
    let cs = nl + 1;
    match find_close_in(v, cs) {
        None => strip_fences(v, cs),
        Some(c) => {
            let mut out: Vec<u8> = Vec::new();
            out.extend_from_slice(vstd::slice::slice_subrange(v, cs, c));
            assert(out@ =~= v@.subrange(cs as int, c as int));
            out
        },
    }
}

/// Every carriage return removed, as executable code.
pub fn remove_cr(v: &[u8]) -> (out: Vec<u8>)
    ensures
        out@ == strip_cr(v@),
{
    let mut out: Vec<u8> = Vec::new();
    let mut i: usize = 0;
    while i < v.len()
        invariant
            i <= v@.len(),
            strip_cr(v@) == out@ + strip_cr_from(v@, i as int),
        decreases v@.len() - i,
    {
        if v[i] != CR {
            out.push(v[i]);
        }
        i = i + 1;
    }
    assert(strip_cr_from(v@, i as int) =~= Seq::empty());
    assert(strip_cr(v@) =~= out@);
    out
}

} // verus!
