//! The suggestion model: what one review comment proposes for a contiguous,
//! 1-based line range of one file at one historical revision, and the
//! operations that splice that proposal into the file's content.

use vstd::prelude::*;
use vstd::string::StrSliceExecFns;
use vstd::utf8::encode_utf8;

use crate::fence::extract;
use crate::fence::extract_spec;
use crate::fence::remove_cr;
use crate::fence::strip_cr;
use crate::text::find_byte;
use crate::text::find_byte_in;
use crate::text::lemma_find_byte;
use crate::text::lemma_line_start_bounds;
use crate::text::line_start;
use crate::text::line_start_offsets;
use crate::text::lines_of;
use crate::text::lemma_splice_preserves_outside;
use crate::text::range_in_lines;
use crate::text::splice_bytes;
use crate::text::CR;
use crate::text::NL;

verus! {

/// The line-ending convention of a piece of content, decided once per
/// operation from the first line and never stored.
#[derive(Debug, PartialEq, Eq, Structural, Clone, Copy)]
pub enum LineEnding {
    Lf,
    CrLf,
}

/// How splicing a suggestion can fail.
#[derive(Debug)]
pub enum Error {
    /// The version-control layer reported a failure; the payload is its
    /// message.
    Git(String),
    /// The generated diff was not valid UTF-8.
    InvalidUtf8,
    /// The suggestion's line range does not address lines that exist in the
    /// content: the range ends beyond the last line, starts before the first,
    /// or starts after it ends.
    RangeInvalid,
}

/// The text of the first line of `c`, without its newline.
pub open spec fn first_line_text(c: Seq<u8>) -> Seq<u8> {
    match find_byte(c, NL, 0) {
        Some(k) => c.take(k),
        None => c,
    }
}

/// A line, already stripped of its newline, still ends in a carriage return:
/// the mark of CRLF content.
pub open spec fn line_is_crlf(line: Seq<u8>) -> bool {
    line.len() > 0 && line.last() == CR
}

/// The whole content classifies as CRLF exactly when its first line does.
pub open spec fn content_is_crlf(c: Seq<u8>) -> bool {
    line_is_crlf(first_line_text(c))
}

/// The line-ending convention sniffed from the first line of `c`.
pub open spec fn ending_of(c: Seq<u8>) -> LineEnding {
    if content_is_crlf(c) {
        LineEnding::CrLf
    } else {
        LineEnding::Lf
    }
}

/// Replacement text conformed to the target convention: suggestion blocks
/// arrive CRLF-encoded, so for an LF target every carriage return is removed,
/// and for a CRLF target the text is used unchanged.
pub open spec fn conform_spec(s: Seq<u8>, ending: LineEnding) -> Seq<u8> {
    match ending {
        LineEnding::Lf => strip_cr(s),
        LineEnding::CrLf => s,
    }
}

/// Decide whether `line` (the first line of some content, newline already
/// stripped) marks the content as CRLF.
pub fn is_line_crlf(line: &[u8]) -> (r: bool)
    ensures
        r == line_is_crlf(line@),
{
    line.len() > 0 && line[line.len() - 1] == CR
}

/// One suggested change, as fetched from a review comment.
#[derive(Debug)]
pub struct Suggestion {
    /// The unified-diff fragment the comment was anchored to (context only;
    /// not used by the splice).
    pub diff: String,
    /// The raw comment body, which carries the fenced replacement text.
    pub comment: String,
    /// The revision the suggestion was made against.
    pub commit: String,
    /// Path of the file, relative to the repository root.
    pub path: String,
    /// First affected line, 1-based; absent means the range is exactly the
    /// one line `original_end_line`.
    pub original_start_line: Option<usize>,
    /// Last affected line, 1-based, always present.
    pub original_end_line: usize,
}

impl Suggestion {
    /// The first line of the affected range: the explicit start, or the end
    /// line when no start was given.
    pub open spec fn effective_start(&self) -> int {
        match self.original_start_line {
            Some(v) => v as int,
            None => self.original_end_line as int,
        }
    }

    /// The suggestion's range addresses lines that exist in `c`.
    pub open spec fn range_valid_for(&self, c: Seq<u8>) -> bool {
        range_in_lines(c, self.effective_start(), self.original_end_line as int)
    }

    /// The comment body as UTF-8 bytes.
    pub open spec fn body_bytes(&self) -> Seq<u8> {
        encode_utf8(self.comment@)
    }

    /// The replacement text for content `c`: the extracted block interior,
    /// conformed to `c`'s line-ending convention.
    pub open spec fn replacement_spec(&self, c: Seq<u8>) -> Seq<u8> {
        conform_spec(extract_spec(self.body_bytes()), ending_of(c))
    }

    /// The content that splicing this suggestion into `c` produces.
    pub open spec fn spliced(&self, c: Seq<u8>) -> Seq<u8> {
        splice_bytes(
            c,
            self.effective_start(),
            self.original_end_line as int,
            self.replacement_spec(c),
        )
    }

    /// Extract the replacement text from the comment body and conform it to
    /// the given line-ending convention.
    pub fn suggestion_with_line_ending(&self, line_ending: &LineEnding) -> (out: Vec<u8>)
        ensures
            out@ == conform_spec(extract_spec(self.body_bytes()), *line_ending),
    {
        let body = self.comment.as_str().as_bytes_vec();
        let extracted = extract(body.as_slice());
        match line_ending {
            LineEnding::Lf => remove_cr(extracted.as_slice()),
            LineEnding::CrLf => extracted,
        }
    }

    /// Splice this suggestion into `original`: keep every line outside the
    /// affected range byte-for-byte, and write the replacement text exactly
    /// once in place of lines `[effective_start, original_end_line]`. A range
    /// that addresses lines `original` does not have is refused, never
    /// truncated or appended.
    pub fn apply_to(&self, original: &[u8]) -> (r: Result<Vec<u8>, Error>)
        ensures
            r is Ok <==> self.range_valid_for(original@),
            r matches Ok(out) ==> out@ == self.spliced(original@),
            r is Err ==> r == Err::<Vec<u8>, Error>(Error::RangeInvalid),
    {
        let last = self.original_end_line;
        let first = match self.original_start_line {
            Some(v) => v,
            None => last,
        };
        if first < 1 || last < first {
            return Err(Error::RangeInvalid);
        }
        let starts = line_start_offsets(original);
        let count = starts.len() - 1;
        if last > count {
            return Err(Error::RangeInvalid);
        }
        let first_line_end = match find_byte_in(original, NL, 0) {
            Some(k) => k,
            None => original.len(),
        };
        let crlf = is_line_crlf(vstd::slice::slice_subrange(original, 0, first_line_end));
        proof {
            lemma_find_byte(original@, NL, 0);
            if find_byte(original@, NL, 0) is None {
                assert(original@.take(original@.len() as int) =~= original@);
            }
            assert(crlf == content_is_crlf(original@));
        }
        let ending = if crlf {
            LineEnding::CrLf
        } else {
            LineEnding::Lf
        };
        let repl = self.suggestion_with_line_ending(&ending);
        proof {
            lemma_line_start_bounds(original@, first - 1);
            lemma_line_start_bounds(original@, last as int);
        }
        let a = starts[first - 1];
        let b = starts[last];
        let mut out: Vec<u8> = Vec::new();
        out.extend_from_slice(vstd::slice::slice_subrange(original, 0, a));
        out.extend_from_slice(repl.as_slice());
        out.extend_from_slice(vstd::slice::slice_subrange(original, b, original.len()));
        proof {
            assert(out@ =~= original@.take(a as int) + repl@ + original@.skip(b as int));
        }
        Ok(out)
    }
}

/// Law: the sniffed line-ending classification is a function of the first
/// line alone.
pub proof fn lemma_sniff_first_line_only(c1: Seq<u8>, c2: Seq<u8>)
    requires
        first_line_text(c1) == first_line_text(c2),
    ensures
        ending_of(c1) == ending_of(c2),
{
}

/// Law: LF-normalized content (no carriage return anywhere) always sniffs as
/// LF, so sniffing it again after conforming text to it changes nothing.
pub proof fn lemma_sniff_lf_normalized(c: Seq<u8>)
    requires
        forall|i: int| 0 <= i < c.len() ==> c[i] != CR,
    ensures
        ending_of(c) == LineEnding::Lf,
{
    lemma_find_byte(c, NL, 0);
}

/// Law: CRLF-normalized content (every newline preceded by a carriage
/// return) sniffs as CRLF whenever its first line is terminated.
pub proof fn lemma_sniff_crlf_normalized(c: Seq<u8>)
    requires
        forall|i: int| 0 <= i < c.len() && #[trigger] c[i] == NL ==> i > 0 && c[i - 1] == CR,
        exists|i: int| 0 <= i < c.len() && #[trigger] c[i] == NL,
    ensures
        ending_of(c) == LineEnding::CrLf,
{
    lemma_find_byte(c, NL, 0);
    let k = choose|k: int| find_byte(c, NL, 0) == Some(k);
    assert(c[k] == NL);
    assert(first_line_text(c) == c.take(k));
    assert(c.take(k).last() == c[k - 1]);
}

/// Law: for content its range is valid for, splicing a suggestion preserves
/// every line outside `[effective_start, original_end_line]` verbatim,
/// terminator included: each earlier line sits at its original offset, and
/// each later line is shifted by `d`, the difference between the length of
/// the replacement text and that of the replaced range.
pub proof fn lemma_apply_preserves_other_lines(s: Suggestion, c: Seq<u8>)
    requires
        s.range_valid_for(c),
    ensures
        ({
            let r = s.spliced(c);
            let first = s.effective_start();
            let last = s.original_end_line as int;
            let d = line_start(c, first - 1) + s.replacement_spec(c).len() - line_start(c, last);
            &&& forall|k: int|
                0 <= k < first - 1 ==> lines_of(c)[k] =~= r.subrange(
                    line_start(c, k),
                    line_start(c, k + 1),
                )
            &&& forall|k: int|
                last <= k < lines_of(c).len() ==> lines_of(c)[k] =~= r.subrange(
                    line_start(c, k) + d,
                    line_start(c, k + 1) + d,
                )
        }),
{
    lemma_splice_preserves_outside(
        c,
        s.effective_start(),
        s.original_end_line as int,
        s.replacement_spec(c),
    );
}

/// Law: a suggestion whose start line is absent behaves exactly like one
/// whose start line equals its end line — the same ranges are valid and the
/// same content is produced.
pub proof fn lemma_absent_start_is_single_line(s1: Suggestion, s2: Suggestion, c: Seq<u8>)
    requires
        s1.original_start_line is None,
        s2.original_start_line == Some(s2.original_end_line),
        s1.original_end_line == s2.original_end_line,
        s1.comment == s2.comment,
    ensures
        s1.range_valid_for(c) == s2.range_valid_for(c),
        s1.spliced(c) == s2.spliced(c),
{
}

} // verus!
