//! Git diff options: split an argument list into the arguments this program
//! consumes and the options it forwards to the diff it runs.

use vstd::prelude::*;
use vstd::string::StrSliceExecFns;

use crate::urlparse::views_of;

verus! {

/// `s` starts with one of Git's diff options.
pub open spec fn is_diff_option(s: Seq<char>) -> bool {
    ||| "--abbrev"@.is_prefix_of(s)
    ||| "--anchored"@.is_prefix_of(s)
    ||| "--binary"@.is_prefix_of(s)
    ||| "--break-rewrites"@.is_prefix_of(s)
    ||| "--check"@.is_prefix_of(s)
    ||| "--color"@.is_prefix_of(s)
    ||| "--color-moved"@.is_prefix_of(s)
    ||| "--color-moved-ws"@.is_prefix_of(s)
    ||| "--color-words"@.is_prefix_of(s)
    ||| "--compact-summary"@.is_prefix_of(s)
    ||| "--cumulative"@.is_prefix_of(s)
    ||| "--diff-algorithm"@.is_prefix_of(s)
    ||| "--diff-filter"@.is_prefix_of(s)
    ||| "--dirstat"@.is_prefix_of(s)
    ||| "--dirstat-by-file"@.is_prefix_of(s)
    ||| "--dst-prefix"@.is_prefix_of(s)
    ||| "--exit-code"@.is_prefix_of(s)
    ||| "--ext-diff"@.is_prefix_of(s)
    ||| "--find-copies"@.is_prefix_of(s)
    ||| "--find-copies-harder"@.is_prefix_of(s)
    ||| "--find-object"@.is_prefix_of(s)
    ||| "--find-renames"@.is_prefix_of(s)
    ||| "--full-index"@.is_prefix_of(s)
    ||| "--function-context"@.is_prefix_of(s)
    ||| "--histogram"@.is_prefix_of(s)
    ||| "--ignore-all-space"@.is_prefix_of(s)
    ||| "--ignore-blank-lines"@.is_prefix_of(s)
    ||| "--ignore-cr-at-eol"@.is_prefix_of(s)
    ||| "--ignore-space-at-eol"@.is_prefix_of(s)
    ||| "--ignore-space-change"@.is_prefix_of(s)
    ||| "--ignore-submodules"@.is_prefix_of(s)
    ||| "--indent-heuristic"@.is_prefix_of(s)
    ||| "--inter-hunk-context"@.is_prefix_of(s)
    ||| "--irreversible-delete"@.is_prefix_of(s)
    ||| "--ita-invisible-in-index"@.is_prefix_of(s)
    ||| "--line-prefix"@.is_prefix_of(s)
    ||| "--minimal"@.is_prefix_of(s)
    ||| "--name-only"@.is_prefix_of(s)
    ||| "--name-status"@.is_prefix_of(s)
    ||| "--no-color"@.is_prefix_of(s)
    ||| "--no-color-moved"@.is_prefix_of(s)
    ||| "--no-color-moved-ws"@.is_prefix_of(s)
    ||| "--no-ext-diff"@.is_prefix_of(s)
    ||| "--no-indent-heuristic"@.is_prefix_of(s)
    ||| "--no-patch"@.is_prefix_of(s)
    ||| "--no-prefix"@.is_prefix_of(s)
    ||| "--no-relative"@.is_prefix_of(s)
    ||| "--no-rename-empty"@.is_prefix_of(s)
    ||| "--no-renames"@.is_prefix_of(s)
    ||| "--no-stat"@.is_prefix_of(s)
    ||| "--no-textconv"@.is_prefix_of(s)
    ||| "--numstat"@.is_prefix_of(s)
    ||| "--output"@.is_prefix_of(s)
    ||| "--output-indicator-context"@.is_prefix_of(s)
    ||| "--output-indicator-new"@.is_prefix_of(s)
    ||| "--output-indicator-old"@.is_prefix_of(s)
    ||| "--patch"@.is_prefix_of(s)
    ||| "--patch-with-raw"@.is_prefix_of(s)
    ||| "--patch-with-stat"@.is_prefix_of(s)
    ||| "--patience"@.is_prefix_of(s)
    ||| "--pickaxe-all"@.is_prefix_of(s)
    ||| "--pickaxe-regex"@.is_prefix_of(s)
    ||| "--quiet"@.is_prefix_of(s)
    ||| "--raw"@.is_prefix_of(s)
    ||| "--relative"@.is_prefix_of(s)
    ||| "--rename-empty"@.is_prefix_of(s)
    ||| "--shortstat"@.is_prefix_of(s)
    ||| "--src-prefix"@.is_prefix_of(s)
    ||| "--stat"@.is_prefix_of(s)
    ||| "--submodule"@.is_prefix_of(s)
    ||| "--summary"@.is_prefix_of(s)
    ||| "--text"@.is_prefix_of(s)
    ||| "--textconv"@.is_prefix_of(s)
    ||| "--unified"@.is_prefix_of(s)
    ||| "--word-diff"@.is_prefix_of(s)
    ||| "--word-diff-regex"@.is_prefix_of(s)
    ||| "--ws-error-highlight"@.is_prefix_of(s)
    ||| "-B"@.is_prefix_of(s)
    ||| "-C"@.is_prefix_of(s)
    ||| "-D"@.is_prefix_of(s)
    ||| "-G"@.is_prefix_of(s)
    ||| "-M"@.is_prefix_of(s)
    ||| "-O"@.is_prefix_of(s)
    ||| "-R"@.is_prefix_of(s)
    ||| "-S"@.is_prefix_of(s)
    ||| "-U"@.is_prefix_of(s)
    ||| "-W"@.is_prefix_of(s)
    ||| "-X"@.is_prefix_of(s)
    ||| "-a"@.is_prefix_of(s)
    ||| "-b"@.is_prefix_of(s)
    ||| "-l"@.is_prefix_of(s)
    ||| "-p"@.is_prefix_of(s)
    ||| "-s"@.is_prefix_of(s)
    ||| "-t"@.is_prefix_of(s)
    ||| "-u"@.is_prefix_of(s)
    ||| "-w"@.is_prefix_of(s)
    ||| "-z"@.is_prefix_of(s)
}

/// The arguments of `args` from index `i` on that are not diff options, in
/// order.
pub open spec fn program_args_from(args: Seq<Seq<char>>, i: int) -> Seq<Seq<char>>
    decreases args.len() - i,
{
    if i < 0 || i >= args.len() {
        Seq::empty()
    } else if is_diff_option(args[i]) {
        program_args_from(args, i + 1)
    } else {
        seq![args[i]] + program_args_from(args, i + 1)
    }
}

/// The arguments of `args` from index `i` on that are diff options, in order.
pub open spec fn diff_args_from(args: Seq<Seq<char>>, i: int) -> Seq<Seq<char>>
    decreases args.len() - i,
{
    if i < 0 || i >= args.len() {
        Seq::empty()
    } else if is_diff_option(args[i]) {
        seq![args[i]] + diff_args_from(args, i + 1)
    } else {
        diff_args_from(args, i + 1)
    }
}

/// `p` is a prefix of `s`, comparing characters.
pub fn str_has_prefix(s: &str, p: &str) -> (r: bool)
    ensures
        r == p@.is_prefix_of(s@),
{
    let n = s.unicode_len();
    let m = p.unicode_len();
    if m > n {
        return false;
    }
    let mut i: usize = 0;
    while i < m
        invariant
            n == s@.len(),
            m == p@.len(),
            m <= n,
            i <= m,
            forall|j: int| 0 <= j < i ==> s@[j] == p@[j],
        decreases m - i,
    {
        if s.get_char(i) != p.get_char(i) {
            assert(!p@.is_prefix_of(s@));
            return false;
        }
        i = i + 1;
    }
    assert(p@ =~= s@.subrange(0, m as int));
    true
}

/// `arg` starts with one of Git's diff options, as executable code.
fn is_diff_option_arg(arg: &str) -> (r: bool)
    ensures
        r == is_diff_option(arg@),
{
    str_has_prefix(arg, "--abbrev")
        || str_has_prefix(arg, "--anchored")
        || str_has_prefix(arg, "--binary")
        || str_has_prefix(arg, "--break-rewrites")
        || str_has_prefix(arg, "--check")
        || str_has_prefix(arg, "--color")
        || str_has_prefix(arg, "--color-moved")
        || str_has_prefix(arg, "--color-moved-ws")
        || str_has_prefix(arg, "--color-words")
        || str_has_prefix(arg, "--compact-summary")
        || str_has_prefix(arg, "--cumulative")
        || str_has_prefix(arg, "--diff-algorithm")
        || str_has_prefix(arg, "--diff-filter")
        || str_has_prefix(arg, "--dirstat")
        || str_has_prefix(arg, "--dirstat-by-file")
        || str_has_prefix(arg, "--dst-prefix")
        || str_has_prefix(arg, "--exit-code")
        || str_has_prefix(arg, "--ext-diff")
        || str_has_prefix(arg, "--find-copies")
        || str_has_prefix(arg, "--find-copies-harder")
        || str_has_prefix(arg, "--find-object")
        || str_has_prefix(arg, "--find-renames")
        || str_has_prefix(arg, "--full-index")
        || str_has_prefix(arg, "--function-context")
        || str_has_prefix(arg, "--histogram")
        || str_has_prefix(arg, "--ignore-all-space")
        || str_has_prefix(arg, "--ignore-blank-lines")
        || str_has_prefix(arg, "--ignore-cr-at-eol")
        || str_has_prefix(arg, "--ignore-space-at-eol")
        || str_has_prefix(arg, "--ignore-space-change")
        || str_has_prefix(arg, "--ignore-submodules")
        || str_has_prefix(arg, "--indent-heuristic")
        || str_has_prefix(arg, "--inter-hunk-context")
        || str_has_prefix(arg, "--irreversible-delete")
        || str_has_prefix(arg, "--ita-invisible-in-index")
        || str_has_prefix(arg, "--line-prefix")
        || str_has_prefix(arg, "--minimal")
        || str_has_prefix(arg, "--name-only")
        || str_has_prefix(arg, "--name-status")
        || str_has_prefix(arg, "--no-color")
        || str_has_prefix(arg, "--no-color-moved")
        || str_has_prefix(arg, "--no-color-moved-ws")
        || str_has_prefix(arg, "--no-ext-diff")
        || str_has_prefix(arg, "--no-indent-heuristic")
        || str_has_prefix(arg, "--no-patch")
        || str_has_prefix(arg, "--no-prefix")
        || str_has_prefix(arg, "--no-relative")
        || str_has_prefix(arg, "--no-rename-empty")
        || str_has_prefix(arg, "--no-renames")
        || str_has_prefix(arg, "--no-stat")
        || str_has_prefix(arg, "--no-textconv")
        || str_has_prefix(arg, "--numstat")
        || str_has_prefix(arg, "--output")
        || str_has_prefix(arg, "--output-indicator-context")
        || str_has_prefix(arg, "--output-indicator-new")
        || str_has_prefix(arg, "--output-indicator-old")
        || str_has_prefix(arg, "--patch")
        || str_has_prefix(arg, "--patch-with-raw")
        || str_has_prefix(arg, "--patch-with-stat")
        || str_has_prefix(arg, "--patience")
        || str_has_prefix(arg, "--pickaxe-all")
        || str_has_prefix(arg, "--pickaxe-regex")
        || str_has_prefix(arg, "--quiet")
        || str_has_prefix(arg, "--raw")
        || str_has_prefix(arg, "--relative")
        || str_has_prefix(arg, "--rename-empty")
        || str_has_prefix(arg, "--shortstat")
        || str_has_prefix(arg, "--src-prefix")
        || str_has_prefix(arg, "--stat")
        || str_has_prefix(arg, "--submodule")
        || str_has_prefix(arg, "--summary")
        || str_has_prefix(arg, "--text")
        || str_has_prefix(arg, "--textconv")
        || str_has_prefix(arg, "--unified")
        || str_has_prefix(arg, "--word-diff")
        || str_has_prefix(arg, "--word-diff-regex")
        || str_has_prefix(arg, "--ws-error-highlight")
        || str_has_prefix(arg, "-B")
        || str_has_prefix(arg, "-C")
        || str_has_prefix(arg, "-D")
        || str_has_prefix(arg, "-G")
        || str_has_prefix(arg, "-M")
        || str_has_prefix(arg, "-O")
        || str_has_prefix(arg, "-R")
        || str_has_prefix(arg, "-S")
        || str_has_prefix(arg, "-U")
        || str_has_prefix(arg, "-W")
        || str_has_prefix(arg, "-X")
        || str_has_prefix(arg, "-a")
        || str_has_prefix(arg, "-b")
        || str_has_prefix(arg, "-l")
        || str_has_prefix(arg, "-p")
        || str_has_prefix(arg, "-s")
        || str_has_prefix(arg, "-t")
        || str_has_prefix(arg, "-u")
        || str_has_prefix(arg, "-w")
        || str_has_prefix(arg, "-z")
}

/// Parse Git diff options from `args`: the first component holds the
/// arguments that are not diff options, the second the diff options, both in
/// their original order.
pub fn parse(args: &[String]) -> (r: (Vec<String>, Vec<String>))
    ensures
        views_of(r.0@) == program_args_from(views_of(args@), 0),
        views_of(r.1@) == diff_args_from(views_of(args@), 0),
{
    let ghost vs = views_of(args@);
    let mut program_args: Vec<String> = Vec::new();
    let mut diff_args: Vec<String> = Vec::new();
    let mut i: usize = 0;
    while i < args.len()
        invariant
            i <= args@.len(),
            vs == views_of(args@),
            program_args_from(vs, 0) == views_of(program_args@) + program_args_from(vs, i as int),
            diff_args_from(vs, 0) == views_of(diff_args@) + diff_args_from(vs, i as int),
        decreases args@.len() - i,
    {
        proof {
            assert(vs[i as int] == args@[i as int]@);
        }
        if is_diff_option_arg(args[i].as_str()) {
            diff_args.push(args[i].clone());
            proof {
                assert(views_of(diff_args@) =~= views_of(diff_args@.drop_last()) + seq![
                    vs[i as int],
                ]);
            }
        } else {
            program_args.push(args[i].clone());
            proof {
                assert(views_of(program_args@) =~= views_of(program_args@.drop_last()) + seq![
                    vs[i as int],
                ]);
            }
        }
        i = i + 1;
    }
    assert(views_of(program_args@) =~= program_args_from(vs, 0));
    assert(views_of(diff_args@) =~= diff_args_from(vs, 0));
    (program_args, diff_args)
}

} // verus!
