//! What the URL parser says about a string: whether it is an absolute URL,
//! and if so its path segments and fragment, handed over as plain values.

use vstd::prelude::*;

verus! {

/// Outcome of parsing one string as an absolute URL.
pub enum UrlParts {
    /// The string parses. Cannot-be-a-base URLs (such as `mailto:` ones) have
    /// no path segments.
    Parsed { segments: Option<Vec<String>>, fragment: Option<String> },
    /// The string is a relative reference without a base: not an absolute
    /// URL, but possibly meaningful to a caller with a fallback.
    RelativeWithoutBase,
    /// The string fails to parse for any other reason.
    Invalid,
}

/// `url::Url::parse` accepts `s`.
pub uninterp spec fn url_parse_ok(s: Seq<char>) -> bool;

/// `url::Url::parse` rejects `s` specifically as a relative URL without a
/// base.
pub uninterp spec fn url_relative_without_base(s: Seq<char>) -> bool;

/// The `/`-separated path segments of the URL `s`; `None` when `s` is a
/// cannot-be-a-base URL.
pub uninterp spec fn url_path_segments(s: Seq<char>) -> Option<Seq<Seq<char>>>;

/// The fragment of the URL `s` (the part after `#`), if any.
pub uninterp spec fn url_fragment(s: Seq<char>) -> Option<Seq<char>>;

/// The views of a sequence of strings.
pub open spec fn views_of(v: Seq<String>) -> Seq<Seq<char>> {
    v.map(|i: int, x: String| x@)
}

/// Relies on `url::Url::parse`, `url::Url::path_segments` and
/// `url::Url::fragment`: parse `s` once as an absolute URL and hand back the
/// path segments and fragment as owned plain values, keeping the
/// relative-URL-without-a-base failure apart from every other failure.
#[verifier::external_body]
pub fn parse_url(s: &str) -> (r: UrlParts)
    ensures
        r is Parsed <==> url_parse_ok(s@),
        r is RelativeWithoutBase <==> (!url_parse_ok(s@) && url_relative_without_base(s@)),
        r matches UrlParts::Parsed { segments, fragment } ==> {
            &&& (segments matches Some(v) <==> url_path_segments(s@) is Some)
            &&& (segments matches Some(v) ==> Some(views_of(v@)) == url_path_segments(s@))
            &&& (fragment matches Some(f) <==> url_fragment(s@) is Some)
            &&& (fragment matches Some(f) ==> Some(f@) == url_fragment(s@))
        },
{
    match url::Url::parse(s) {
        Ok(u) => UrlParts::Parsed {
            segments: u.path_segments().map(|it| it.map(|x| x.to_string()).collect()),
            fragment: u.fragment().map(|f| f.to_string()),
        },
        Err(url::ParseError::RelativeUrlWithoutBase) => UrlParts::RelativeWithoutBase,
        Err(_) => UrlParts::Invalid,
    }
}

/// Index of the first non-empty segment at or after `from`.
pub open spec fn first_nonempty(segs: Seq<Seq<char>>, from: int) -> Option<int>
    decreases segs.len() - from,
{
    if from < 0 || from >= segs.len() {
        None
    } else if segs[from].len() > 0 {
        Some(from)
    } else {
        first_nonempty(segs, from + 1)
    }
}

/// The owner and repository named by a segment list: its first two non-empty
/// segments, in order, when it has two.
pub open spec fn owner_repo_segments(segs: Seq<Seq<char>>) -> Option<(Seq<char>, Seq<char>)> {
    match first_nonempty(segs, 0) {
        None => None,
        Some(i) => match first_nonempty(segs, i + 1) {
            None => None,
            Some(j) => Some((segs[i], segs[j])),
        },
    }
}

/// Find the first non-empty segment at or after `from`, as executable code.
fn first_nonempty_in(segs: &Vec<String>, from: usize) -> (r: Option<usize>)
    requires
        from <= segs@.len(),
    ensures
        r matches Some(i) ==> first_nonempty(views_of(segs@), from as int) == Some(i as int) && i
            < segs@.len(),
        r is None ==> first_nonempty(views_of(segs@), from as int) is None,
{
    let mut i: usize = from;
    while i < segs.len()
        invariant
            from <= i <= segs@.len(),
            first_nonempty(views_of(segs@), from as int) == first_nonempty(
                views_of(segs@),
                i as int,
            ),
        decreases segs@.len() - i,
    {
        assert(views_of(segs@)[i as int] == segs@[i as int]@);
        if !segs[i].as_str().is_empty() {
            return Some(i);
        }
        i = i + 1;
    }
    None
}

/// The first two non-empty segments, copied out, when the list has two.
pub fn first_two_nonempty(segs: &Vec<String>) -> (r: Option<(String, String)>)
    ensures
        r matches Some(p) ==> owner_repo_segments(views_of(segs@)) == Some((p.0@, p.1@)),
        r is None ==> owner_repo_segments(views_of(segs@)) is None,
{
    let n = segs.len();
    let i = match first_nonempty_in(segs, 0) {
        Some(i) => i,
        None => {
            return None;
        },
    };
    assert(i < n);
    let j = match first_nonempty_in(segs, i + 1) {
        Some(j) => j,
        None => {
            return None;
        },
    };
    proof {
        assert(views_of(segs@)[i as int] == segs@[i as int]@);
        assert(views_of(segs@)[j as int] == segs@[j as int]@);
    }
    Some((segs[i].clone(), segs[j].clone()))
}

} // verus!
