//! Git repository facts: remote URLs from `git remote -v`, and path handling
//! for finding a repository root.
use vstd::prelude::*;

use crate::exec_policy::bash::nonempty_trimmed;
use crate::strmap::{sort_strings, sorted_strs, str_views, StrMap};
use crate::text::{
    chars_eq, ends_with, ends_with_spec, extend_str, find_from, find_from_spec, from_chars, lines, lines_spec,
    parse_i64, parse_i64_spec, parse_usize, parse_usize_spec, split, split_spec, starts_with, starts_with_spec,
    str_eq, sub_chars, to_chars, trim, trim_spec, trim_start, trim_start_spec, trim_str, vviews,
};

verus! {

/// Commit, branch and remote of a repository.
#[derive(Debug, Clone, Default)]
pub struct GitInfo {
    pub commit_hash: Option<String>,
    pub branch: Option<String>,
    pub repository_url: Option<String>,
}

/// The diff from HEAD to the closest remote commit.
#[derive(Debug, Clone)]
pub struct GitDiffToRemote {
    pub sha: String,
    pub diff: String,
}

/// A commit summary.
#[derive(Debug, Clone)]
pub struct CommitLogEntry {
    pub sha: String,
    pub timestamp: i64,
    pub subject: String,
}

/// `s` split at the first occurrence of the one-character `sep`.
pub open spec fn split_once_spec(s: Seq<char>, sep: char) -> Option<(Seq<char>, Seq<char>)> {
    match find_from_spec(s, seq![sep], 0) {
        Some(i) => Some((s.take(i), s.skip(i + 1))),
        None => None,
    }
}

/// The remote a line of `git remote -v` names for fetching: the line must end
/// with ` (fetch)`; name and URL are split at the first tab, else the first
/// space; the URL loses its leading whitespace and must not be empty.
pub open spec fn fetch_remote(line: Seq<char>) -> Option<(Seq<char>, Seq<char>)> {
    if !ends_with_spec(line, " (fetch)"@) {
        None
    } else {
        let f = line.take(line.len() - 8);
        let parts = match split_once_spec(f, '\t') {
            Some(p) => Some(p),
            None => split_once_spec(f, ' '),
        };
        match parts {
            Some((name, rest)) => if trim_start_spec(rest).len() > 0 {
                Some((name, trim_start_spec(rest)))
            } else {
                None
            },
            None => None,
        }
    }
}

/// The fetch URL of every remote named in `lines` (a later line wins).
pub open spec fn remotes_of(lines: Seq<Seq<char>>) -> Map<Seq<char>, Seq<char>>
    decreases lines.len(),
{
    if lines.len() == 0 {
        Map::empty()
    } else {
        let prev = remotes_of(lines.drop_last());
        match fetch_remote(lines.last()) {
            Some((name, url)) => prev.insert(name, url),
            None => prev,
        }
    }
}

fn split_once_exec(s: &Vec<char>, sep: char) -> (r: Option<(Vec<char>, Vec<char>)>)
    ensures
        match split_once_spec(s@, sep) {
            Some((a, b)) => r matches Some((x, y)) && x@ == a && y@ == b,
            None => r is None,
        },
{
    let pat: Vec<char> = vec![sep];
    assert(pat@ =~= seq![sep]);
    match find_from(s.as_slice(), pat.as_slice(), 0) {
        Some(i) => {
            proof {
                crate::text::lemma_find_from_sound(s@, pat@, 0);
                assert(crate::text::occurs_at(s@, pat@, i as int));
            }
            assert(i + 1 <= s.len());
            let a = sub_chars(s.as_slice(), 0, i);
            let b = sub_chars(s.as_slice(), i + 1, s.len());
            assert(a@ =~= s@.take(i as int));
            assert(b@ =~= s@.skip(i + 1));
            Some((a, b))
        },
        None => None,
    }
}

fn fetch_remote_exec(line: &Vec<char>) -> (r: Option<(String, String)>)
    ensures
        match fetch_remote(line@) {
            Some((n, u)) => r matches Some((a, b)) && a@ == n && b@ == u,
            None => r is None,
        },
{
    let suffix = to_chars(" (fetch)");
    proof {
        reveal_strlit(" (fetch)");
    }
    if !ends_with(line.as_slice(), suffix.as_slice()) {
        return None;
    }
    let f = sub_chars(line.as_slice(), 0, line.len() - 8);
    assert(f@ =~= line@.take(line@.len() - 8));
    let parts = match split_once_exec(&f, '\t') {
        Some(p) => Some(p),
        None => split_once_exec(&f, ' '),
    };
    match parts {
        Some((name, rest)) => {
            let url = trim_start(rest.as_slice());
            if url.len() > 0 {
                Some((from_chars(name.as_slice()), from_chars(url.as_slice())))
            } else {
                None
            }
        },
        None => None,
    }
}

/// The fetch URLs that `git remote -v` lists, by remote; `None` when it lists none.
pub fn parse_git_remote_urls(stdout: &str) -> (r: Option<StrMap<String>>)
    ensures
        (remotes_of(lines_spec(stdout@)).dom() == Set::<Seq<char>>::empty()) <==> r is None,
        r matches Some(m) ==> m.to_map().dom() == remotes_of(lines_spec(stdout@)).dom() && forall|
            k: Seq<char>,
        | #[trigger] m.to_map().contains_key(k) ==> m.to_map()[k]@ == remotes_of(lines_spec(stdout@))[k],
{
    let chars = to_chars(stdout);
    let ls = lines(chars.as_slice());
    let ghost lv = vviews(ls@);
    let mut remotes: StrMap<String> = StrMap::new();
    proof {
        remotes.lemma_view();
    }
    let mut i: usize = 0;
    while i < ls.len()
        invariant
            i <= ls@.len(),
            lv == vviews(ls@),
            lv == lines_spec(stdout@),
            remotes.to_map().dom() == remotes_of(lv.take(i as int)).dom(),
            forall|k: Seq<char>|
                #[trigger] remotes.to_map().contains_key(k) ==> remotes.to_map()[k]@ == remotes_of(
                    lv.take(i as int),
                )[k],
        decreases ls@.len() - i,
    {
        assert(lv.take(i + 1).drop_last() =~= lv.take(i as int));
        assert(lv.take(i + 1).last() == ls@[i as int]@);
        if let Some((name, url)) = fetch_remote_exec(&ls[i]) {
            remotes.insert(name, url);
        }
        i = i + 1;
    }
    assert(lv.take(i as int) =~= lv);
    let _ = remotes.sorted();
    if remotes.len() == 0 {
        proof {
            remotes.lemma_view();
            assert(remotes.to_map().dom() =~= Set::<Seq<char>>::empty());
        }
        None
    } else {
        proof {
            remotes.lemma_view();
            assert(remotes.to_map().contains_key(remotes.keys()[0]));
            assert(remotes.to_map().dom() != Set::<Seq<char>>::empty());
        }
        Some(remotes)
    }
}

/// `relative` taken from `base`: an absolute path stands as it is; otherwise
/// it is joined to `base` with one `/`.
pub open spec fn resolved_path(base: Seq<char>, relative: Seq<char>) -> Seq<char> {
    if relative.len() > 0 && relative[0] == '/' {
        relative
    } else if base.len() == 0 {
        relative
    } else if base.last() == '/' {
        base + relative
    } else {
        base + "/"@ + relative
    }
}

/// Resolves a path against a base directory.
pub fn resolve_path(base: &str, relative: &str) -> (r: String)
    ensures
        r@ == resolved_path(base@, relative@),
{
    let b = to_chars(base);
    let rel = to_chars(relative);
    if rel.len() > 0 && rel[0] == '/' {
        return from_chars(rel.as_slice());
    }
    if b.len() == 0 {
        return from_chars(rel.as_slice());
    }
    let mut out = b.clone();
    assert(out@ =~= b@);
    if b[b.len() - 1] != '/' {
        out.push('/');
    }
    crate::text::extend_chars(&mut out, rel.as_slice());
    proof {
        reveal_strlit("/");
    }
    assert(b@.last() != '/' ==> b@.push('/') + rel@ =~= b@ + "/"@ + rel@);
    from_chars(out.as_slice())
}

/// Where a repository marker of `dir` would be: `dir/.git`.
pub fn git_marker_path(dir: &str) -> (r: String)
    ensures
        r@ == resolved_path(dir@, ".git"@),
{
    resolve_path(dir, ".git")
}

/// What `Path::parent` gives for a path: the path without its last component,
/// or `None` for a root or empty path.
pub uninterp spec fn path_parent(path: Seq<char>) -> Option<Seq<char>>;

/// Wraps `std::path::Path::parent` (the parent of a path given as text is text).
#[verifier::external_body]
fn parent_of(path: &str) -> (r: Option<String>)
    ensures
        match r {
            Some(p) => path_parent(path@) == Some(p@),
            None => path_parent(path@) is None,
        },
{
    std::path::Path::new(path).parent().map(|p| p.to_string_lossy().into_owned())
}

/// One step of the search for the repository root, upwards from a directory.
#[derive(Debug, Clone, PartialEq, Eq)]
pub enum GitRootStep {
    /// The directory holds a repository marker: it is the root.
    Found(String),
    /// No marker here: look in the parent directory next.
    Ascend(String),
    /// No marker and no parent: there is no repository.
    NotFound,
}

/// The next step of the search at `dir`, given whether `dir/.git` exists: the
/// directory itself when it does, else its parent, else the end of the search.
pub fn git_root_step(dir: &str, marker_exists: bool) -> (r: GitRootStep)
    ensures
        marker_exists ==> (r matches GitRootStep::Found(d) && d@ == dir@),
        !marker_exists ==> match path_parent(dir@) {
            Some(p) => (r matches GitRootStep::Ascend(q) && q@ == p),
            None => r is NotFound,
        },
{
    if marker_exists {
        return GitRootStep::Found(dir.to_owned());
    }
    match parent_of(dir) {
        Some(p) => GitRootStep::Ascend(p),
        None => GitRootStep::NotFound,
    }
}

// ── Reading the output of git commands ───────────────────────────

/// The views of a list of strings.
pub open spec fn string_views(v: Seq<String>) -> Seq<Seq<char>> {
    Seq::new(v.len(), |i: int| v[i]@)
}

/// Output of a git command, trimmed, when something is left.
pub open spec fn trimmed_value(out: Seq<char>) -> Option<Seq<char>> {
    if trim_spec(out).len() > 0 {
        Some(trim_spec(out))
    } else {
        None
    }
}

/// The trimmed output of a git command, unless it is empty (as for a commit
/// hash or the current branch).
pub fn trimmed_output(out: &str) -> (r: Option<String>)
    ensures
        match trimmed_value(out@) {
            Some(v) => r matches Some(s) && s@ == v,
            None => r is None,
        },
{
    let t = trim_str(out);
    if t.len() == 0 {
        None
    } else {
        Some(from_chars(t.as_slice()))
    }
}

/// The trimmed output of a command that succeeded, if it did.
pub open spec fn trimmed_opt(out: Option<Seq<char>>) -> Option<Seq<char>> {
    match out {
        Some(o) => Some(trim_spec(o)),
        None => None,
    }
}

/// The facts of a repository from the outputs of `git rev-parse HEAD`,
/// `git rev-parse --abbrev-ref HEAD` and `git remote get-url origin` (each
/// given when the command succeeded): trimmed, and no branch for a detached
/// `HEAD`.
pub fn git_info_from(commit_out: Option<&str>, branch_out: Option<&str>, url_out: Option<&str>) -> (r: GitInfo)
    ensures
        match commit_out {
            Some(o) => r.commit_hash matches Some(h) && h@ == trim_spec(o@),
            None => r.commit_hash is None,
        },
        match branch_out {
            Some(o) => if trim_spec(o@) == "HEAD"@ {
                r.branch is None
            } else {
                r.branch matches Some(b) && b@ == trim_spec(o@)
            },
            None => r.branch is None,
        },
        match url_out {
            Some(o) => r.repository_url matches Some(u) && u@ == trim_spec(o@),
            None => r.repository_url is None,
        },
{
    let commit_hash = match commit_out {
        Some(o) => Some(from_chars(trim_str(o).as_slice())),
        None => None,
    };
    let branch = match branch_out {
        Some(o) => {
            let b = from_chars(trim_str(o).as_slice());
            if str_eq(b.as_str(), "HEAD") {
                None
            } else {
                Some(b)
            }
        },
        None => None,
    };
    let repository_url = match url_out {
        Some(o) => Some(from_chars(trim_str(o).as_slice())),
        None => None,
    };
    GitInfo { commit_hash, branch, repository_url }
}

/// Field `i` of a `git log` line whose fields are separated by the unit
/// separator, trimmed; empty when the line has no such field.
pub open spec fn log_field(line: Seq<char>, i: int) -> Seq<char> {
    let parts = split_spec(line, seq!['\u{1f}']);
    if i < parts.len() {
        trim_spec(parts[i])
    } else {
        Seq::empty()
    }
}

/// The commit a line of `git log --pretty=format:%H%x1f%ct%x1f%s` describes:
/// hash, commit time and subject; none when the hash or the time is empty. A
/// time that is not a number counts as 0.
pub open spec fn commit_of_line(line: Seq<char>) -> Option<(Seq<char>, i64, Seq<char>)> {
    let sha = log_field(line, 0);
    let ts = log_field(line, 1);
    if sha.len() == 0 || ts.len() == 0 {
        None
    } else {
        Some(
            (
                sha,
                match parse_i64_spec(ts) {
                    Some(t) => t,
                    None => 0,
                },
                log_field(line, 2),
            ),
        )
    }
}

/// The commits that a list of log lines describe, in order.
pub open spec fn commits_of(ls: Seq<Seq<char>>) -> Seq<(Seq<char>, i64, Seq<char>)>
    decreases ls.len(),
{
    if ls.len() == 0 {
        Seq::empty()
    } else {
        match commit_of_line(ls.last()) {
            Some(c) => commits_of(ls.drop_last()).push(c),
            None => commits_of(ls.drop_last()),
        }
    }
}

/// `e` records the commit `c`.
pub open spec fn records_commit(e: CommitLogEntry, c: (Seq<char>, i64, Seq<char>)) -> bool {
    e.sha@ == c.0 && e.timestamp == c.1 && e.subject@ == c.2
}

/// The commits listed by `git log --pretty=format:%H%x1f%ct%x1f%s`.
pub fn parse_commit_log(text: &str) -> (r: Vec<CommitLogEntry>)
    ensures
        r@.len() == commits_of(lines_spec(text@)).len(),
        forall|i: int| 0 <= i < r@.len() ==> records_commit(#[trigger] r@[i], commits_of(lines_spec(text@))[i]),
{
    let chars = to_chars(text);
    let ls = lines(chars.as_slice());
    let ghost lv = vviews(ls@);
    let sep = vec!['\u{1f}'];
    assert(sep@ =~= seq!['\u{1f}']);
    let mut out: Vec<CommitLogEntry> = Vec::new();
    let mut i: usize = 0;
    while i < ls.len()
        invariant
            i <= ls@.len(),
            lv == vviews(ls@),
            lv == lines_spec(text@),
            sep@ == seq!['\u{1f}'],
            out@.len() == commits_of(lv.take(i as int)).len(),
            forall|j: int| 0 <= j < out@.len() ==> records_commit(#[trigger] out@[j], commits_of(lv.take(i as int))[j]),
        decreases ls@.len() - i,
    {
        let line = &ls[i];
        assert(lv.take(i + 1).drop_last() =~= lv.take(i as int));
        assert(lv.take(i + 1).last() == line@);
        let parts = split(line.as_slice(), sep.as_slice());
        let sha = trim(parts[0].as_slice());
        let ts = if parts.len() > 1 {
            trim(parts[1].as_slice())
        } else {
            Vec::new()
        };
        let subject = if parts.len() > 2 {
            trim(parts[2].as_slice())
        } else {
            Vec::new()
        };
        assert(sha@ == log_field(line@, 0));
        assert(ts@ == log_field(line@, 1));
        assert(subject@ == log_field(line@, 2));
        if sha.len() > 0 && ts.len() > 0 {
            let ts_s = from_chars(ts.as_slice());
            let timestamp = match parse_i64(ts_s.as_str()) {
                Some(t) => t,
                None => 0,
            };
            out.push(CommitLogEntry {
                sha: from_chars(sha.as_slice()),
                timestamp,
                subject: from_chars(subject.as_slice()),
            });
        }
        i = i + 1;
    }
    assert(lv.take(i as int) =~= lv);
    out
}

/// The position of the first `x` in `s` (meaningful when `s` contains `x`).
pub open spec fn first_index_of(s: Seq<Seq<char>>, x: Seq<char>) -> int {
    choose|i: int| 0 <= i < s.len() && s[i] == x && forall|j: int| 0 <= j < i ==> s[j] != x
}

/// `rs` with its first `x` moved to the front, when it holds one.
pub open spec fn moved_to_front(rs: Seq<Seq<char>>, x: Seq<char>) -> Seq<Seq<char>> {
    if rs.contains(x) {
        seq![x] + rs.remove(first_index_of(rs, x))
    } else {
        rs
    }
}

/// The remotes with the first `origin` moved to the front, when there is one.
pub open spec fn origin_first(rs: Seq<Seq<char>>) -> Seq<Seq<char>> {
    moved_to_front(rs, "origin"@)
}

/// Moves the first `x` of `v` to the front, when `v` holds one.
pub fn move_to_front(v: &mut Vec<String>, x: &str)
    ensures
        string_views(final(v)@) == moved_to_front(string_views(old(v)@), x@),
{
    let ghost sv = string_views(v@);
    let mut pos: Option<usize> = None;
    let mut i: usize = 0;
    while i < v.len()
        invariant
            i <= v@.len(),
            sv == string_views(v@),
            match pos {
                Some(p) => p < i && sv[p as int] == x@ && forall|j: int| 0 <= j < p ==> sv[j] != x@,
                None => forall|j: int| 0 <= j < i ==> sv[j] != x@,
            },
        decreases v@.len() - i,
    {
        if pos.is_none() && str_eq(v[i].as_str(), x) {
            pos = Some(i);
        }
        i = i + 1;
    }
    match pos {
        Some(p) => {
            assert(sv.contains(x@));
            let item = v.remove(p);
            v.insert(0, item);
            assert(first_index_of(sv, x@) == p) by {
                assert(0 <= p < sv.len() && sv[p as int] == x@ && forall|j: int| 0 <= j < p ==> sv[j] != x@);
                let k = first_index_of(sv, x@);
                if k < p {
                    assert(sv[k] == x@);
                } else if k > p {
                    assert(sv[p as int] == x@);
                }
            }
            assert(string_views(v@) =~= seq![x@] + sv.remove(p as int));
        },
        None => {
            assert(!sv.contains(x@));
        },
    }
}

/// The remotes that `git remote` lists, `origin` first.
pub fn parse_git_remotes(stdout: &str) -> (r: Vec<String>)
    ensures
        string_views(r@) == origin_first(lines_spec(stdout@)),
{
    let chars = to_chars(stdout);
    let ls = lines(chars.as_slice());
    let ghost lv = vviews(ls@);
    let mut names: Vec<String> = Vec::new();
    let mut i: usize = 0;
    while i < ls.len()
        invariant
            i <= ls@.len(),
            lv == vviews(ls@),
            lv == lines_spec(stdout@),
            string_views(names@) == lv.take(i as int),
        decreases ls@.len() - i,
    {
        let ghost before = string_views(names@);
        names.push(from_chars(ls[i].as_slice()));
        assert(string_views(names@) =~= before.push(lv[i as int]));
        assert(lv.take(i + 1) =~= lv.take(i as int).push(lv[i as int]));
        i = i + 1;
    }
    assert(lv.take(i as int) =~= lv);
    move_to_front(&mut names, "origin");
    names
}

/// The local branches that `git branch --format=%(refname:short)` lists:
/// lines trimmed, empty ones dropped, in ascending order, and the default
/// branch moved to the front when it is among them.
pub fn order_local_branches(out: &str, default_branch: Option<&str>) -> (r: Vec<String>)
    ensures
        exists|s: Seq<Seq<char>>|
            sorted_strs(s) && s.to_multiset() == nonempty_trimmed(lines_spec(out@)).to_multiset() && string_views(r@)
                == match default_branch {
                Some(d) => moved_to_front(s, d@),
                None => s,
            },
{
    let chars = to_chars(out);
    let ls = lines(chars.as_slice());
    let ghost lv = vviews(ls@);
    let mut names: Vec<String> = Vec::new();
    let mut i: usize = 0;
    while i < ls.len()
        invariant
            i <= ls@.len(),
            lv == vviews(ls@),
            lv == lines_spec(out@),
            string_views(names@) == nonempty_trimmed(lv.take(i as int)),
        decreases ls@.len() - i,
    {
        assert(lv.take(i + 1).drop_last() =~= lv.take(i as int));
        assert(lv.take(i + 1).last() == lv[i as int]);
        let t = trim(ls[i].as_slice());
        if t.len() > 0 {
            let ghost before = string_views(names@);
            names.push(from_chars(t.as_slice()));
            assert(string_views(names@) =~= before.push(t@));
        }
        i = i + 1;
    }
    assert(lv.take(i as int) =~= lv);
    let mut sorted = sort_strings(names);
    assert(str_views(sorted@) =~= string_views(sorted@));
    match default_branch {
        Some(d) => {
            move_to_front(&mut sorted, d);
        },
        None => {},
    }
    sorted
}

/// The index of the last `c` in `s`, if any.
pub open spec fn last_index_of(s: Seq<char>, c: char) -> Option<int>
    decreases s.len(),
{
    if s.len() == 0 {
        None
    } else if s.last() == c {
        Some(s.len() - 1)
    } else {
        last_index_of(s.drop_last(), c)
    }
}

/// The branch that `git symbolic-ref refs/remotes/<remote>/HEAD` names: what
/// follows the last `/` of the trimmed output.
pub open spec fn symref_branch_spec(out: Seq<char>) -> Option<Seq<char>> {
    let t = trim_spec(out);
    match last_index_of(t, '/') {
        Some(j) => Some(t.skip(j + 1)),
        None => None,
    }
}

/// The branch named by the output of `git symbolic-ref` for a remote's `HEAD`.
pub fn symref_branch(out: &str) -> (r: Option<String>)
    ensures
        match symref_branch_spec(out@) {
            Some(b) => r matches Some(s) && s@ == b,
            None => r is None,
        },
{
    let t = trim_str(out);
    let mut j = t.len();
    assert(t@.take(j as int) =~= t@);
    while j > 0
        invariant
            j <= t@.len(),
            t@ == trim_spec(out@),
            last_index_of(t@, '/') == last_index_of(t@.take(j as int), '/'),
        decreases j,
    {
        assert(t@.take(j as int).drop_last() =~= t@.take(j - 1));
        assert(t@.take(j as int).last() == t@[j - 1]);
        if t[j - 1] == '/' {
            assert(last_index_of(t@.take(j as int), '/') == Some(j - 1));
            let name = sub_chars(t.as_slice(), j, t.len());
            assert(name@ =~= t@.skip(j as int));
            return Some(from_chars(name.as_slice()));
        }
        j = j - 1;
    }
    None
}

/// The branch that a line of `git remote show <remote>` gives as `HEAD branch:`.
pub open spec fn head_branch_line(line: Seq<char>) -> Option<Seq<char>> {
    let t = trim_spec(line);
    if starts_with_spec(t, "HEAD branch:"@) && trim_spec(t.skip(12)).len() > 0 {
        Some(trim_spec(t.skip(12)))
    } else {
        None
    }
}

/// The first `HEAD branch:` that the lines give.
pub open spec fn first_head_branch(ls: Seq<Seq<char>>) -> Option<Seq<char>>
    decreases ls.len(),
{
    if ls.len() == 0 {
        None
    } else {
        match head_branch_line(ls[0]) {
            Some(b) => Some(b),
            None => first_head_branch(ls.drop_first()),
        }
    }
}

/// The default branch that `git remote show <remote>` reports.
pub fn remote_show_head_branch(text: &str) -> (r: Option<String>)
    ensures
        match first_head_branch(lines_spec(text@)) {
            Some(b) => r matches Some(s) && s@ == b,
            None => r is None,
        },
{
    let chars = to_chars(text);
    let ls = lines(chars.as_slice());
    let ghost lv = vviews(ls@);
    let prefix = to_chars("HEAD branch:");
    proof {
        reveal_strlit("HEAD branch:");
    }
    let mut i: usize = 0;
    assert(lv.skip(0) =~= lv);
    assert(prefix@.len() == 12);
    while i < ls.len()
        invariant
            i <= ls@.len(),
            lv == vviews(ls@),
            lv == lines_spec(text@),
            prefix@ == "HEAD branch:"@,
            prefix@.len() == 12,
            first_head_branch(lv) == first_head_branch(lv.skip(i as int)),
        decreases ls@.len() - i,
    {
        assert(lv.skip(i as int)[0] == lv[i as int]);
        assert(lv.skip(i as int).drop_first() =~= lv.skip(i + 1));
        let t = trim(ls[i].as_slice());
        if starts_with(t.as_slice(), prefix.as_slice()) {
            let rest = sub_chars(t.as_slice(), 12, t.len());
            assert(rest@ =~= t@.skip(12));
            let name = trim(rest.as_slice());
            if name.len() > 0 {
                return Some(from_chars(name.as_slice()));
            }
        }
        i = i + 1;
    }
    None
}

/// The commit count that `git rev-list --count` prints.
pub fn parse_distance(out: &str) -> (r: Option<usize>)
    ensures
        r == parse_usize_spec(trim_spec(out@)),
{
    let t = from_chars(trim_str(out).as_slice());
    parse_usize(t.as_str())
}

/// The index of the candidate with a remote commit at the least distance,
/// the first of equals; candidates without a remote commit do not count.
pub open spec fn closest_index(cs: Seq<Option<(Option<String>, usize)>>) -> Option<int>
    decreases cs.len(),
{
    if cs.len() == 0 {
        None
    } else {
        let best = closest_index(cs.drop_last());
        match cs.last() {
            Some((Some(_), d)) => match best {
                Some(j) => if d < cs[j]->Some_0.1 {
                    Some(cs.len() - 1)
                } else {
                    Some(j)
                },
                None => Some(cs.len() - 1),
            },
            _ => best,
        }
    }
}

/// What `closest_index` picks is a candidate with a remote commit.
pub proof fn lemma_closest_index(cs: Seq<Option<(Option<String>, usize)>>)
    ensures
        closest_index(cs) matches Some(j) ==> 0 <= j < cs.len() && cs[j] matches Some((Some(_), _)),
    decreases cs.len(),
{
    if cs.len() > 0 {
        lemma_closest_index(cs.drop_last());
    }
}

/// The remote commit closest to `HEAD`, given for each branch (in the order
/// tried) its remote commit and distance, when they could be found.
pub fn find_closest_sha(candidates: &[Option<(Option<String>, usize)>]) -> (r: Option<String>)
    ensures
        match closest_index(candidates@) {
            Some(j) => r == candidates@[j]->Some_0.0,
            None => r is None,
        },
{
    let mut best: Option<usize> = None;
    let mut i: usize = 0;
    while i < candidates.len()
        invariant
            i <= candidates@.len(),
            best == match closest_index(candidates@.take(i as int)) {
                Some(j) => Some(j as usize),
                None => None::<usize>,
            },
            closest_index(candidates@.take(i as int)) matches Some(j) ==> 0 <= j < i,
        decreases candidates@.len() - i,
    {
        proof {
            lemma_closest_index(candidates@.take(i as int));
        }
        assert(candidates@.take(i + 1).drop_last() =~= candidates@.take(i as int));
        assert(candidates@.take(i + 1).last() == candidates@[i as int]);
        match &candidates[i] {
            Some((Some(_), d)) => {
                match best {
                    Some(j) => {
                        assert(candidates@.take(i + 1)[j as int] == candidates@[j as int]);
                        match &candidates[j] {
                            Some((_, bd)) => {
                                if *d < *bd {
                                    best = Some(i);
                                }
                            },
                            None => {},
                        }
                    },
                    None => {
                        best = Some(i);
                    },
                }
            },
            _ => {},
        }
        i = i + 1;
    }
    assert(candidates@.take(i as int) =~= candidates@);
    proof {
        lemma_closest_index(candidates@);
    }
    match best {
        Some(j) => match &candidates[j] {
            Some((Some(sha), _)) => Some(sha.clone()),
            _ => None,
        },
        None => None,
    }
}

/// The branch that a line listing refs of `<remote>` (as `git for-each-ref
/// --format=%(refname:short)` prints them) names: the trimmed line without
/// `<remote>/`, when that leaves something.
pub open spec fn remote_branch_of_line(remote: Seq<char>, line: Seq<char>) -> Option<Seq<char>> {
    let t = trim_spec(line);
    let p = remote + seq!['/'];
    if starts_with_spec(t, p) && t.len() > p.len() {
        Some(t.skip(p.len() as int))
    } else {
        None
    }
}

/// The branches that the lines of a remote's ref listing name, in order.
pub open spec fn remote_branches(remote: Seq<char>, ls: Seq<Seq<char>>) -> Seq<Seq<char>>
    decreases ls.len(),
{
    if ls.len() == 0 {
        Seq::empty()
    } else {
        let rest = remote_branches(remote, ls.drop_last());
        match remote_branch_of_line(remote, ls.last()) {
            Some(b) => rest.push(b),
            None => rest,
        }
    }
}

/// The branches named by ref listings, each given with its remote, in order.
pub open spec fn listed_branches(listings: Seq<(Seq<char>, Seq<char>)>) -> Seq<Seq<char>>
    decreases listings.len(),
{
    if listings.len() == 0 {
        Seq::empty()
    } else {
        listed_branches(listings.drop_last()) + remote_branches(
            listings.last().0,
            lines_spec(listings.last().1),
        )
    }
}

/// The first occurrence of each element, in order.
pub open spec fn dedup(s: Seq<Seq<char>>) -> Seq<Seq<char>>
    decreases s.len(),
{
    if s.len() == 0 {
        s
    } else {
        let d = dedup(s.drop_last());
        if d.contains(s.last()) {
            d
        } else {
            d.push(s.last())
        }
    }
}

/// Remote and listing text of each ref listing.
pub open spec fn listing_views(l: Seq<(String, String)>) -> Seq<(Seq<char>, Seq<char>)> {
    Seq::new(l.len(), |i: int| (l[i].0@, l[i].1@))
}

/// The candidates for the branches `HEAD` descends from: the current branch
/// (the trimmed output of `git rev-parse --abbrev-ref HEAD`, unless detached),
/// the default branch, then the remote branches that contain `HEAD`.
pub open spec fn ancestry_candidates(
    current: Option<Seq<char>>,
    default: Option<Seq<char>>,
    listings: Seq<(Seq<char>, Seq<char>)>,
) -> Seq<Seq<char>> {
    let cur = match current {
        Some(c) => if trim_spec(c) != "HEAD"@ {
            seq![trim_spec(c)]
        } else {
            Seq::empty()
        },
        None => Seq::empty(),
    };
    let def = match default {
        Some(d) => seq![d],
        None => Seq::empty(),
    };
    cur + def + listed_branches(listings)
}

/// An optional string slice by its contents.
pub open spec fn opt_str(o: Option<&str>) -> Option<Seq<char>> {
    match o {
        Some(s) => Some(s@),
        None => None,
    }
}

fn holds_string(v: &Vec<String>, c: &[char]) -> (r: bool)
    ensures
        r == string_views(v@).contains(c@),
{
    let mut i: usize = 0;
    while i < v.len()
        invariant
            i <= v@.len(),
            forall|j: int| 0 <= j < i ==> v@[j]@ != c@,
        decreases v@.len() - i,
    {
        let e = to_chars(v[i].as_str());
        if chars_eq(e.as_slice(), c) {
            assert(string_views(v@)[i as int] == c@);
            return true;
        }
        i = i + 1;
    }
    assert forall|j: int| 0 <= j < string_views(v@).len() implies string_views(v@)[j] != c@ by {
        assert(v@[j]@ != c@);
    }
    false
}

/// The branches `HEAD` descends from, each once, in order of preference: the
/// current branch, the default branch, and the branches of the listings of
/// remote refs that contain `HEAD` (`git for-each-ref --contains=HEAD`).
pub fn branch_ancestry(
    current_out: Option<&str>,
    default_branch: Option<&str>,
    listings: &[(String, String)],
) -> (r: Vec<String>)
    ensures
        string_views(r@) == dedup(ancestry_candidates(opt_str(current_out), opt_str(default_branch), listing_views(listings@))),
{
    let ghost lvs = listing_views(listings@);
    let mut cands: Vec<Vec<char>> = Vec::new();
    proof {
        reveal_strlit("HEAD");
    }
    match current_out {
        Some(c) => {
            let t = trim_str(c);
            let head = to_chars("HEAD");
            if !chars_eq(t.as_slice(), head.as_slice()) {
                cands.push(t);
            }
        },
        None => {},
    }
    match default_branch {
        Some(d) => {
            cands.push(to_chars(d));
        },
        None => {},
    }
    let ghost head_part = vviews(cands@);
    assert(listed_branches(lvs.take(0)) =~= Seq::<Seq<char>>::empty());
    assert(vviews(cands@) =~= head_part + listed_branches(lvs.take(0)));
    let mut i: usize = 0;
    while i < listings.len()
        invariant
            i <= listings@.len(),
            lvs == listing_views(listings@),
            vviews(cands@) == head_part + listed_branches(lvs.take(i as int)),
        decreases listings@.len() - i,
    {
        let (remote, text) = &listings[i];
        let mut prefix = to_chars(remote.as_str());
        prefix.push('/');
        let chars = to_chars(text.as_str());
        let ls = lines(chars.as_slice());
        let ghost lv = vviews(ls@);
        let ghost base = vviews(cands@);
        assert(remote_branches(remote@, lv.take(0)) =~= Seq::<Seq<char>>::empty());
        assert(base + remote_branches(remote@, lv.take(0)) =~= base);
        let mut k: usize = 0;
        while k < ls.len()
            invariant
                k <= ls@.len(),
                lv == vviews(ls@),
                prefix@ == remote@ + seq!['/'],
                vviews(cands@) == base + remote_branches(remote@, lv.take(k as int)),
            decreases ls@.len() - k,
        {
            assert(lv.take(k + 1).drop_last() =~= lv.take(k as int));
            assert(lv.take(k + 1).last() == lv[k as int]);
            let t = trim(ls[k].as_slice());
            if starts_with(t.as_slice(), prefix.as_slice()) && t.len() > prefix.len() {
                let b = sub_chars(t.as_slice(), prefix.len(), t.len());
                assert(b@ =~= t@.skip(prefix@.len() as int));
                let ghost before = vviews(cands@);
                cands.push(b);
                assert(vviews(cands@) =~= before.push(b@));
            }
            k = k + 1;
        }
        assert(lv.take(k as int) =~= lv);
        assert(lvs.take(i + 1).drop_last() =~= lvs.take(i as int));
        assert(lvs.take(i + 1).last() == (remote@, text@));
        assert(vviews(cands@) =~= head_part + listed_branches(lvs.take(i + 1)));
        i = i + 1;
    }
    assert(lvs.take(i as int) =~= lvs);
    assert(head_part + listed_branches(lvs) =~= ancestry_candidates(opt_str(current_out), opt_str(default_branch), lvs));
    let ghost cv = vviews(cands@);
    let mut out: Vec<String> = Vec::new();
    let mut j: usize = 0;
    while j < cands.len()
        invariant
            j <= cands@.len(),
            cv == vviews(cands@),
            string_views(out@) == dedup(cv.take(j as int)),
        decreases cands@.len() - j,
    {
        assert(cv.take(j + 1).drop_last() =~= cv.take(j as int));
        assert(cv.take(j + 1).last() == cv[j as int]);
        if !holds_string(&out, cands[j].as_slice()) {
            let ghost before = string_views(out@);
            out.push(from_chars(cands[j].as_slice()));
            assert(string_views(out@) =~= before.push(cv[j as int]));
        }
        j = j + 1;
    }
    assert(cv.take(j as int) =~= cv);
    out
}

} // verus!
