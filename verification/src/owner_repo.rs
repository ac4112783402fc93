//! The owner / repository pair named by a Git remote: either an HTTP(S) URL
//! (`https://host/owner/repo.git`) or an SSH-style reference
//! (`user@host:owner/repo.git`).

use vstd::prelude::*;
use vstd::string::StrSliceExecFns;

use crate::urlparse::first_two_nonempty;
use crate::urlparse::owner_repo_segments;
use crate::urlparse::parse_url;
use crate::urlparse::url_parse_ok;
use crate::urlparse::url_path_segments;
use crate::urlparse::url_relative_without_base;
use crate::urlparse::UrlParts;

verus! {

/// Errors resolving an `OwnerRepo` from a repository's remote configuration.
#[derive(Debug)]
pub enum Error {
    /// The version-control layer reported a failure; the payload is its
    /// message.
    Git(String),
    /// The remote's URL did not parse as an owner / repository pair.
    OwnerRepo(OwnerRepoError),
    /// The named remote has no URL; the payload is the remote's name.
    NoRemote(String),
}

/// Errors parsing an `OwnerRepo` from a single reference string.
#[derive(Debug)]
pub enum OwnerRepoError {
    /// The string is neither an absolute URL nor an SSH-style reference.
    Url,
    /// The URL has no path to take segments from.
    NoPath,
    /// No owner / repository pair could be read from the reference.
    NoOwnerRepo,
}

/// A repository's owner and name.
#[derive(Debug)]
pub struct OwnerRepo {
    pub owner: String,
    pub repo: String,
}

/// Index of the first occurrence of `c` in `s` at or after `from`.
pub open spec fn find_char(s: Seq<char>, c: char, from: int) -> Option<int>
    decreases s.len() - from,
{
    if from < 0 || from >= s.len() {
        None
    } else if s[from] == c {
        Some(from)
    } else {
        find_char(s, c, from + 1)
    }
}

pub proof fn lemma_find_char(s: Seq<char>, c: char, from: int)
    requires
        0 <= from <= s.len(),
    ensures
        match find_char(s, c, from) {
            Some(k) => from <= k < s.len() && s[k] == c && (forall|j: int|
                from <= j < k ==> s[j] != c),
            None => forall|j: int| from <= j < s.len() ==> s[j] != c,
        },
    decreases s.len() - from,
{
    if from < s.len() && s[from] != c {
        lemma_find_char(s, c, from + 1);
    }
}

/// `p` ends with the four characters `.git`.
pub open spec fn ends_dot_git(p: Seq<char>) -> bool {
    p.len() >= 4 && p[p.len() - 4] == '.' && p[p.len() - 3] == 'g' && p[p.len() - 2] == 'i'
        && p[p.len() - 1] == 't'
}

/// `p` with a trailing `.git` stripped, if it has one.
pub open spec fn strip_dot_git(p: Seq<char>) -> Seq<char> {
    if ends_dot_git(p) {
        p.take(p.len() - 4)
    } else {
        p
    }
}

/// The owner / repository pair an SSH-style reference names: the text after
/// the first colon, a trailing `.git` stripped, split on `/`, first two
/// pieces. `None` when there is no colon or no slash after it.
pub open spec fn ssh_owner_repo(s: Seq<char>) -> Option<(Seq<char>, Seq<char>)> {
    match find_char(s, ':', 0) {
        None => None,
        Some(k) => {
            let p = strip_dot_git(s.skip(k + 1));
            match find_char(p, '/', 0) {
                None => None,
                Some(m) => {
                    let rest = p.skip(m + 1);
                    let repo = match find_char(rest, '/', 0) {
                        None => rest,
                        Some(q) => rest.take(q),
                    };
                    Some((p.take(m), repo))
                },
            }
        },
    }
}

/// First occurrence of `c` in `s` at or after `from`, as executable code.
fn find_char_in(s: &str, c: char, from: usize) -> (r: Option<usize>)
    requires
        from <= s@.len(),
    ensures
        r matches Some(k) ==> find_char(s@, c, from as int) == Some(k as int) && from <= k
            < s@.len(),
        r is None ==> find_char(s@, c, from as int) is None,
{
    let n = s.unicode_len();
    let mut i: usize = from;
    while i < n
        invariant
            n == s@.len(),
            from <= i <= n,
            forall|j: int| from <= j < i ==> s@[j] != c,
        decreases n - i,
    {
        if s.get_char(i) == c {
            proof {
                lemma_find_char(s@, c, from as int);
            }
            return Some(i);
        }
        i = i + 1;
    }
    proof {
        lemma_find_char(s@, c, from as int);
    }
    None
}

/// Whether `s` ends with `.git`, as executable code.
fn has_git_suffix(s: &str) -> (r: bool)
    ensures
        r == ends_dot_git(s@),
{
    let n = s.unicode_len();
    n >= 4 && s.get_char(n - 4) == '.' && s.get_char(n - 3) == 'g' && s.get_char(n - 2) == 'i'
        && s.get_char(n - 1) == 't'
}

impl OwnerRepo {
    /// Parse an owner / repository pair from an SSH-style reference
    /// (`user@host:owner/repo.git`): everything after the first colon is a
    /// path; a trailing `.git` is stripped; the first two `/`-separated
    /// pieces are owner and repository.
    pub fn from_ssh(ssh: &str) -> (r: Result<OwnerRepo, OwnerRepoError>)
        ensures
            r matches Ok(o) ==> ssh_owner_repo(ssh@) == Some((o.owner@, o.repo@)),
            r is Err ==> r == Err::<OwnerRepo, OwnerRepoError>(OwnerRepoError::NoOwnerRepo)
                && ssh_owner_repo(ssh@) is None,
    {
        let n = ssh.unicode_len();
        let k = match find_char_in(ssh, ':', 0) {
            Some(k) => k,
            None => {
                return Err(OwnerRepoError::NoOwnerRepo);
            },
        };
        let tail = ssh.substring_char(k + 1, n);
        let tn = tail.unicode_len();
        let p: &str = if has_git_suffix(tail) {
            tail.substring_char(0, tn - 4)
        } else {
            tail
        };
        proof {
            assert(p@ =~= strip_dot_git(ssh@.skip(k + 1)));
        }
        let pn = p.unicode_len();
        let m = match find_char_in(p, '/', 0) {
            Some(m) => m,
            None => {
                return Err(OwnerRepoError::NoOwnerRepo);
            },
        };
        let owner = p.substring_char(0, m).to_owned();
        let rest = p.substring_char(m + 1, pn);
        let rn = rest.unicode_len();
        let repo = match find_char_in(rest, '/', 0) {
            Some(q) => rest.substring_char(0, q).to_owned(),
            None => rest.to_owned(),
        };
        proof {
            assert(rest@ =~= p@.skip(m + 1));
        }
        Ok(OwnerRepo { owner, repo })
    }

    /// Parse an owner / repository pair from a remote reference: an absolute
    /// URL is read like a suggestion URL (first two non-empty path segments,
    /// a trailing `.git` stripped from the repository), and a string that is
    /// no absolute URL for want of a scheme is read as an SSH-style
    /// reference.
    pub fn from_str(s: &str) -> (r: Result<OwnerRepo, OwnerRepoError>)
        ensures
            !url_parse_ok(s@) && url_relative_without_base(s@) ==> match ssh_owner_repo(s@) {
                Some(pair) => r matches Ok(o) && o.owner@ == pair.0 && o.repo@ == pair.1,
                None => r == Err::<OwnerRepo, OwnerRepoError>(OwnerRepoError::NoOwnerRepo),
            },
            !url_parse_ok(s@) && !url_relative_without_base(s@) ==> r == Err::<
                OwnerRepo,
                OwnerRepoError,
            >(OwnerRepoError::Url),
            url_parse_ok(s@) && url_path_segments(s@) is None ==> r == Err::<
                OwnerRepo,
                OwnerRepoError,
            >(OwnerRepoError::NoPath),
            url_parse_ok(s@) ==> (url_path_segments(s@) matches Some(segs) ==> match owner_repo_segments(
                segs,
            ) {
                None => r == Err::<OwnerRepo, OwnerRepoError>(OwnerRepoError::NoOwnerRepo),
                Some(pair) => r matches Ok(o) && o.owner@ == pair.0 && o.repo@ == strip_dot_git(
                    pair.1,
                ),
            }),
    {
        let (segments, _fragment) = match parse_url(s) {
            UrlParts::Parsed { segments, fragment } => (segments, fragment),
            UrlParts::RelativeWithoutBase => {
                return Self::from_ssh(s);
            },
            UrlParts::Invalid => {
                return Err(OwnerRepoError::Url);
            },
        };
        let segs = match segments {
            Some(v) => v,
            None => {
                return Err(OwnerRepoError::NoPath);
            },
        };
        let (owner, repo_raw) = match first_two_nonempty(&segs) {
            Some(p) => p,
            None => {
                return Err(OwnerRepoError::NoOwnerRepo);
            },
        };
        let rn = repo_raw.as_str().unicode_len();
        let repo = if has_git_suffix(repo_raw.as_str()) {
            repo_raw.as_str().substring_char(0, rn - 4).to_owned()
        } else {
            repo_raw
        };
        Ok(OwnerRepo { owner, repo })
    }
}

} // verus!
