//! The important parts of a suggestion comment URL
//! (`scheme://host/{owner}/{repo}/…#discussion_r{id}`): repository owner,
//! repository name, and the comment id carried by the fragment.

use vstd::prelude::*;
use vstd::string::StrSliceExecFns;

use crate::urlparse::first_two_nonempty;
use crate::urlparse::owner_repo_segments;
use crate::urlparse::parse_url;
use crate::urlparse::url_fragment;
use crate::urlparse::url_parse_ok;
use crate::urlparse::url_path_segments;
use crate::urlparse::UrlParts;

verus! {

/// Errors parsing a suggestion URL.
#[derive(Debug)]
pub enum Error {
    /// The string is not an absolute URL.
    Url,
    /// The URL has no path to take segments from.
    NoPath,
    /// The URL has no usable fragment: it is absent, or does not carry a
    /// `discussion_r` comment id.
    NoFragment,
    /// The path has fewer than two non-empty segments.
    NoOwnerRepo,
}

/// The important parts of a suggestion comment URL.
#[derive(Debug)]
pub struct SuggestionUrl {
    pub owner: String,
    pub repo: String,
    pub comment_id: String,
}

/// The fragment carries a comment id exactly when it starts with the literal
/// prefix `discussion_r`; the id is what follows that prefix.
pub open spec fn fragment_comment_id(f: Seq<char>) -> Option<Seq<char>> {
    if f.len() >= 12 && f[0] == 'd' && f[1] == 'i' && f[2] == 's' && f[3] == 'c' && f[4] == 'u'
        && f[5] == 's' && f[6] == 's' && f[7] == 'i' && f[8] == 'o' && f[9] == 'n' && f[10] == '_'
        && f[11] == 'r' {
        Some(f.skip(12))
    } else {
        None
    }
}

/// Strip the `discussion_r` prefix from a fragment, as executable code.
fn strip_discussion_prefix(f: &str) -> (r: Option<String>)
    ensures
        r matches Some(id) ==> fragment_comment_id(f@) == Some(id@),
        r is None ==> fragment_comment_id(f@) is None,
{
    let n = f.unicode_len();
    if n < 12 {
        return None;
    }
    if f.get_char(0) != 'd' || f.get_char(1) != 'i' || f.get_char(2) != 's' || f.get_char(3) != 'c'
        || f.get_char(4) != 'u' || f.get_char(5) != 's' || f.get_char(6) != 's' || f.get_char(7)
        != 'i' || f.get_char(8) != 'o' || f.get_char(9) != 'n' || f.get_char(10) != '_'
        || f.get_char(11) != 'r' {
        return None;
    }
    Some(f.substring_char(12, n).to_owned())
}

impl SuggestionUrl {
    /// Parse a suggestion comment URL: the first two non-empty path segments
    /// name owner and repository, and the fragment, which must start with
    /// `discussion_r`, carries the comment id after that prefix.
    pub fn from_str(s: &str) -> (r: Result<SuggestionUrl, Error>)
        ensures
            !url_parse_ok(s@) ==> r == Err::<SuggestionUrl, Error>(Error::Url),
            url_parse_ok(s@) && url_path_segments(s@) is None ==> r == Err::<
                SuggestionUrl,
                Error,
            >(Error::NoPath),
            url_parse_ok(s@) ==> (url_path_segments(s@) matches Some(segs) ==> match owner_repo_segments(
                segs,
            ) {
                None => r == Err::<SuggestionUrl, Error>(Error::NoOwnerRepo),
                Some(pair) => match url_fragment(s@) {
                    None => r == Err::<SuggestionUrl, Error>(Error::NoFragment),
                    Some(f) => match fragment_comment_id(f) {
                        None => r == Err::<SuggestionUrl, Error>(Error::NoFragment),
                        Some(id) => r matches Ok(u) && u.owner@ == pair.0 && u.repo@ == pair.1
                            && u.comment_id@ == id,
                    },
                },
            }),
    {
        let (segments, fragment) = match parse_url(s) {
            UrlParts::Parsed { segments, fragment } => (segments, fragment),
            UrlParts::RelativeWithoutBase => {
                return Err(Error::Url);
            },
            UrlParts::Invalid => {
                return Err(Error::Url);
            },
        };
        let segs = match segments {
            Some(v) => v,
            None => {
                return Err(Error::NoPath);
            },
        };
        let (owner, repo) = match first_two_nonempty(&segs) {
            Some(p) => p,
            None => {
                return Err(Error::NoOwnerRepo);
            },
        };
        let frag = match fragment {
            Some(f) => f,
            None => {
                return Err(Error::NoFragment);
            },
        };
        let comment_id = match strip_discussion_prefix(frag.as_str()) {
            Some(id) => id,
            None => {
                return Err(Error::NoFragment);
            },
        };
        Ok(SuggestionUrl { owner, repo, comment_id })
    }
}

} // verus!
