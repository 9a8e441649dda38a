//! Reading the owner and the name of a GitHub repository out of the URL of a
//! git remote.
//!
//! Two shapes are understood: the SSH shorthand `git@github.com:owner/repo`
//! and the web address `http(s)://github.com/owner/repo`, each with or
//! without a trailing `.git`. The host part is removed once, a trailing
//! `.git` is removed once, and the first two `/`-separated segments of what
//! is left are the owner and the name.

use vstd::prelude::*;
use crate::text::{
    chars_of, ends_with, find_from, lemma_run_len, lemma_run_len_unique, run_len, slice_of,
    starts_with,
};

verus! {

/// The host part of the SSH shorthand.
pub open spec fn ssh_prefix() -> Seq<char> {
    "git@github.com:"@
}

/// The host part of a secure web address.
pub open spec fn https_prefix() -> Seq<char> {
    "https://github.com/"@
}

/// The host part of a plain web address.
pub open spec fn http_prefix() -> Seq<char> {
    "http://github.com/"@
}

/// The ending that git hosting adds to repository names.
pub open spec fn git_suffix() -> Seq<char> {
    ".git"@
}

/// Whether `prefix` is one of the three host parts that are understood.
pub open spec fn is_supported_prefix(prefix: Seq<char>) -> bool {
    prefix == ssh_prefix() || prefix == https_prefix() || prefix == http_prefix()
}

/// `path` without one trailing `.git`, if it has one.
pub open spec fn without_git_suffix(path: Seq<char>) -> Seq<char> {
    if git_suffix().is_suffix_of(path) {
        path.take(path.len() - git_suffix().len())
    } else {
        path
    }
}

/// Owner and name in an `owner/repo` path: the first two segments of the path
/// once a trailing `.git` is gone; nothing where the path has no `/`.
pub open spec fn repo_of_path(path: Seq<char>) -> Option<(Seq<char>, Seq<char>)> {
    let p = without_git_suffix(path);
    let i = run_len(p, '/');
    if i == p.len() {
        None
    } else {
        let rest = p.skip(i + 1);
        Some((p.take(i), rest.take(run_len(rest, '/'))))
    }
}

/// What follows the host part of `url`; nothing where `url` begins with none
/// of the supported host parts.
pub open spec fn path_of_url(url: Seq<char>) -> Option<Seq<char>> {
    if ssh_prefix().is_prefix_of(url) {
        Some(url.skip(ssh_prefix().len() as int))
    } else if https_prefix().is_prefix_of(url) {
        Some(url.skip(https_prefix().len() as int))
    } else if http_prefix().is_prefix_of(url) {
        Some(url.skip(http_prefix().len() as int))
    } else {
        None
    }
}

/// Owner and name that a remote URL points to.
pub open spec fn repo_of_url(url: Seq<char>) -> Option<(Seq<char>, Seq<char>)> {
    match path_of_url(url) {
        Some(path) => repo_of_path(path),
        None => None,
    }
}

/// Whether an executable result holds the owner and name of a specified one.
pub open spec fn repo_matches(
    found: Option<(String, String)>,
    expected: Option<(Seq<char>, Seq<char>)>,
) -> bool {
    match found {
        Some((owner, name)) => expected == Some((owner@, name@)),
        None => expected is None,
    }
}

/// Splits `owner/repo(.git)` into owner and name.
pub fn parse_github_path(path: &str) -> (found: Option<(String, String)>)
    ensures
        repo_matches(found, repo_of_path(path@)),
{
    let mut chars = chars_of(path);
    let suffix = chars_of(".git");
    if ends_with(&chars, &suffix) {
        chars.truncate(chars.len() - suffix.len());
    }
    assert(chars@ == without_git_suffix(path@));
    let i = find_from(&chars, 0, '/');
    assert(chars@.skip(0) =~= chars@);
    if i == chars.len() {
        return None;
    }
    let j = find_from(&chars, i + 1, '/');
    let owner = slice_of(path, 0, i);
    let name = slice_of(path, i + 1, j);
    proof {
        let p = chars@;
        assert(owner@ =~= p.take(i as int));
        assert(name@ =~= p.skip(i + 1).take(run_len(p.skip(i + 1), '/')));
    }
    Some((owner, name))
}

/// Reads owner and name out of a remote URL.
///
/// Returns `None` exactly when the URL begins with none of the supported
/// host parts or when nothing that follows the host part holds a `/`.
pub fn parse_github_url(url: &str) -> (found: Option<(String, String)>)
    ensures
        repo_matches(found, repo_of_url(url@)),
{
    let chars = chars_of(url);
    let ssh = chars_of("git@github.com:");
    let https = chars_of("https://github.com/");
    let http = chars_of("http://github.com/");
    let skip: usize = if starts_with(&chars, &ssh) {
        ssh.len()
    } else if starts_with(&chars, &https) {
        https.len()
    } else if starts_with(&chars, &http) {
        http.len()
    } else {
        return None;
    };
    let path = url.substring_char(skip, chars.len());
    parse_github_path(path)
}

/// What separates the segments of a path.
pub open spec fn slash() -> Seq<char> {
    seq!['/']
}

/// A path `owner/name` reads as that owner and name once the host part and
/// the `.git` ending are gone, whenever neither holds a `/`.
proof fn lemma_plain_path(owner: Seq<char>, name: Seq<char>)
    requires
        !owner.contains('/'),
        !name.contains('/'),
    ensures
        ({
            let p = owner + slash() + name;
            let i = run_len(p, '/');
            &&& i == owner.len()
            &&& p.take(i) == owner
            &&& p.skip(i + 1).take(run_len(p.skip(i + 1), '/')) == name
        }),
{
    let p = owner + slash() + name;
    let n = owner.len() as int;
    assert forall|k: int| 0 <= k < n implies p[k] != '/' by {
        assert(p[k] == owner[k]);
    }
    assert(p[n] == '/');
    lemma_run_len_unique(p, '/', n);
    assert(p.take(n) =~= owner);
    assert(p.skip(n + 1) =~= name);
    lemma_run_len(name, '/');
    assert(name.take(name.len() as int) =~= name);
}

/// The three host parts exclude one another: a URL that begins with one of
/// them has what follows it as its path.
proof fn lemma_path_after_prefix(prefix: Seq<char>, path: Seq<char>)
    requires
        is_supported_prefix(prefix),
    ensures
        path_of_url(prefix + path) == Some(path),
{
    reveal_strlit("git@github.com:");
    reveal_strlit("https://github.com/");
    reveal_strlit("http://github.com/");
    let url = prefix + path;
    assert(prefix.is_prefix_of(url)) by {
        assert(url.subrange(0, prefix.len() as int) =~= prefix);
    }
    assert(url.skip(prefix.len() as int) =~= path);
    assert(url[0] == prefix[0]);
    assert(url[4] == prefix[4]);
    if prefix != ssh_prefix() {
        if ssh_prefix().is_prefix_of(url) {
            assert(url.subrange(0, ssh_prefix().len() as int)[0] == 'g');
        }
    }
    if prefix == http_prefix() {
        if https_prefix().is_prefix_of(url) {
            assert(url.subrange(0, https_prefix().len() as int)[4] == 's');
        }
    }
}

/// Every URL `<host part><owner>/<name>.git` reads as `(owner, name)`,
/// whatever the owner and the name are, as long as neither holds a `/`: the
/// host part and the `.git` ending are each removed exactly once.
pub proof fn law_url_with_git_suffix(prefix: Seq<char>, owner: Seq<char>, name: Seq<char>)
    requires
        is_supported_prefix(prefix),
        !owner.contains('/'),
        !name.contains('/'),
    ensures
        repo_of_url(prefix + (owner + slash() + name + git_suffix())) == Some((owner, name)),
{
    let plain = owner + slash() + name;
    let path = plain + git_suffix();
    lemma_path_after_prefix(prefix, path);
    assert(git_suffix().is_suffix_of(path)) by {
        assert(path.subrange(path.len() - git_suffix().len(), path.len() as int)
            =~= git_suffix());
    }
    assert(without_git_suffix(path) =~= plain);
    lemma_plain_path(owner, name);
}

/// Every URL `<host part><owner>/<name>` reads as `(owner, name)`, as long as
/// neither holds a `/` and the name does not itself end in `.git`.
pub proof fn law_url_without_git_suffix(prefix: Seq<char>, owner: Seq<char>, name: Seq<char>)
    requires
        is_supported_prefix(prefix),
        !owner.contains('/'),
        !name.contains('/'),
        !git_suffix().is_suffix_of(name),
    ensures
        repo_of_url(prefix + (owner + slash() + name)) == Some((owner, name)),
{
    reveal_strlit(".git");
    let path = owner + slash() + name;
    lemma_path_after_prefix(prefix, path);
    if git_suffix().is_suffix_of(path) {
        let tail = path.subrange(path.len() - 4, path.len() as int);
        assert(tail =~= git_suffix());
        if name.len() >= 4 {
            assert(name.subrange(name.len() - 4, name.len() as int) =~= tail);
        } else {
            let k = 3 - name.len();
            assert(tail[k] == path[owner.len() as int]);
            assert(tail[k] == '/');
        }
    }
    lemma_plain_path(owner, name);
}

/// A URL that begins with none of the supported host parts reads as nothing.
pub proof fn law_unsupported_url(url: Seq<char>)
    requires
        !ssh_prefix().is_prefix_of(url),
        !https_prefix().is_prefix_of(url),
        !http_prefix().is_prefix_of(url),
    ensures
        repo_of_url(url) is None,
{
}

/// Owner and name that were read hold no `/`.
pub proof fn law_segments_hold_no_slash(url: Seq<char>)
    ensures
        repo_of_url(url) matches Some((owner, name)) ==> !owner.contains('/') && !name.contains(
            '/',
        ),
{
    if let Some(path) = path_of_url(url) {
        let p = without_git_suffix(path);
        lemma_run_len(p, '/');
        let i = run_len(p, '/');
        if i < p.len() {
            let rest = p.skip(i + 1);
            lemma_run_len(rest, '/');
            let owner = p.take(i);
            let name = rest.take(run_len(rest, '/'));
            if owner.contains('/') {
                let k = choose|k: int| 0 <= k < owner.len() && owner[k] == '/';
                assert(p[k] == '/');
            }
            if name.contains('/') {
                let k = choose|k: int| 0 <= k < name.len() && name[k] == '/';
                assert(rest[k] == '/');
            }
        }
    }
}

} // verus!
