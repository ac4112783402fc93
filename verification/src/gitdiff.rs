//! Diff generation: the canonical unified diff between the original content
//! and the spliced content, with both sides named by the suggestion's path.
//!
//! The diff text itself comes from the version-control library's
//! buffer-vs-buffer diff primitive; this module performs no diff algorithm of
//! its own, it only hands the primitive the two buffers and checks the text.

use vstd::prelude::*;

use crate::suggestion::Error;
use crate::suggestion::Suggestion;

verus! {

/// The unified diff text libgit2 produces for the given old bytes, new bytes
/// and path (the `diff --git`/`index`/`---`/`+++` headers followed by `@@`
/// hunks). It is a function of the two buffers and the path alone: libgit2
/// reads no clock, configuration or file system for a buffer diff.
pub uninterp spec fn unified_diff_of(old: Seq<u8>, new: Seq<u8>, path: Seq<char>) -> Seq<char>;

/// Whether the diff primitive yields a valid UTF-8 diff text for the given
/// old bytes, new bytes and path. Like the text itself this is a function of
/// the three arguments alone (memory exhaustion aside): libgit2 computes the
/// diff from the buffers, and the UTF-8 check depends only on that text.
pub uninterp spec fn unified_diff_ok(old: Seq<u8>, new: Seq<u8>, path: Seq<char>) -> bool;

/// Relies on `git2::Patch::from_buffers` (libgit2's buffer-vs-buffer diff,
/// with default options and the same path on both sides) and
/// `git2::Patch::to_buf` / `git2::Buf::as_str` (the patch printed as text,
/// which must be valid UTF-8).
#[verifier::external_body]
fn git_unified_diff(old: &[u8], new: &[u8], path: &str) -> (r: Result<String, Error>)
    ensures
        r is Ok <==> unified_diff_ok(old@, new@, path@),
        r matches Ok(d) ==> d@ == unified_diff_of(old@, new@, path@),
        r matches Err(e) ==> e matches Error::Git(_) || e is InvalidUtf8,
{
    let p = std::path::Path::new(path);
    let mut patch = match git2::Patch::from_buffers(old, Some(p), new, Some(p), None) {
        Ok(patch) => patch,
        Err(e) => return Err(Error::Git(e.message().to_string())),
    };
    let buf = match patch.to_buf() {
        Ok(b) => b,
        Err(e) => return Err(Error::Git(e.message().to_string())),
    };
    match buf.as_str() {
        Ok(s) => Ok(s.to_string()),
        Err(_) => Err(Error::InvalidUtf8),
    }
}

impl Suggestion {
    /// Produce the unified diff that turns `original` (the file's content at
    /// the suggestion's revision) into the spliced content. A range that
    /// addresses lines `original` does not have is refused; for a valid
    /// range, the diff is produced whenever the primitive yields one, and any
    /// other failure comes from the primitive itself.
    pub fn diff_with_original(&self, original: &[u8]) -> (r: Result<String, Error>)
        ensures
            r == Err::<String, Error>(Error::RangeInvalid) <==> !self.range_valid_for(original@),
            r is Ok <==> self.range_valid_for(original@) && unified_diff_ok(
                original@,
                self.spliced(original@),
                self.path@,
            ),
            r matches Ok(d) ==> d@ == unified_diff_of(
                original@,
                self.spliced(original@),
                self.path@,
            ),
    {
        let new = match self.apply_to(original) {
            Ok(new) => new,
            Err(_) => {
                return Err(Error::RangeInvalid);
            },
        };
        match git_unified_diff(original, new.as_slice(), self.path.as_str()) {
            Ok(d) => Ok(d),
            Err(Error::Git(m)) => Err(Error::Git(m)),
            Err(_) => Err(Error::InvalidUtf8),
        }
    }
}

} // verus!
