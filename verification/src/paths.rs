//! Paths as strings, joined the way `PathBuf::push` joins them on Unix, and the
//! workspace: a directory that the tool keeps its files under.

use vstd::prelude::*;
use crate::text::push_char;

verus! {

/// Whether `p` is an absolute path (it starts at the root `/`).
pub open spec fn is_absolute(p: Seq<char>) -> bool {
    p.len() > 0 && p[0] == '/'
}

/// `base` with `p` pushed onto it: an absolute `p` replaces `base`; otherwise
/// `p` is appended, with a `/` in between unless `base` is empty or already
/// ends with one.
pub open spec fn join(base: Seq<char>, p: Seq<char>) -> Seq<char> {
    if is_absolute(p) {
        p
    } else if base.len() == 0 || base.last() == '/' {
        base + p
    } else {
        base + seq!['/'] + p
    }
}

/// Pushes each of `parts` in turn onto `base`.
pub open spec fn join_all(base: Seq<char>, parts: Seq<Seq<char>>) -> Seq<char>
    decreases parts.len(),
{
    if parts.len() == 0 {
        base
    } else {
        join(join_all(base, parts.drop_last()), parts.last())
    }
}

/// Joining onto an absolute path gives an absolute path.
pub proof fn lemma_join_keeps_absolute(base: Seq<char>, p: Seq<char>)
    requires
        is_absolute(base),
    ensures
        is_absolute(join(base, p)),
{
    if !is_absolute(p) {
        if base.last() == '/' {
            assert((base + p)[0] == base[0]);
        } else {
            assert((base + seq!['/'] + p)[0] == base[0]);
        }
    }
}

/// Pushing an absolute path onto anything gives that path back.
pub proof fn lemma_join_absolute(base: Seq<char>, p: Seq<char>)
    requires
        is_absolute(p),
    ensures
        join(base, p) == p,
{
}

/// Pushes `p` onto `base` (`PathBuf::push` on Unix).
pub fn join_path(base: &str, p: &str) -> (r: String)
    ensures
        r@ == join(base@, p@),
{
    let plen = p.unicode_len();
    if plen > 0 && p.get_char(0) == '/' {
        return String::from_str(p);
    }
    let blen = base.unicode_len();
    let mut r = String::from_str(base);
    if blen > 0 && base.get_char(blen - 1) != '/' {
        push_char(&mut r, '/');
    }
    r.append(p);
    r
}

/// The index of the last `/` in `p`, or -1 where there is none.
pub open spec fn last_slash(p: Seq<char>) -> int
    decreases p.len(),
{
    if p.len() == 0 {
        -1
    } else if p.last() == '/' {
        p.len() - 1
    } else {
        last_slash(p.drop_last())
    }
}

/// The parent directory of a path in normal form (no `/` at its end but for
/// the root, no empty or `.` components): the path without its last
/// component; the root for a top-level path, the empty path for a relative
/// path of one component, and none for the root and the empty path.
pub open spec fn parent(p: Seq<char>) -> Option<Seq<char>> {
    if p.len() == 0 || p == seq!['/'] {
        None
    } else if last_slash(p) < 0 {
        Some(Seq::empty())
    } else if last_slash(p) == 0 {
        Some(seq!['/'])
    } else {
        Some(p.subrange(0, last_slash(p)))
    }
}

pub proof fn lemma_last_slash_bounds(p: Seq<char>)
    ensures
        -1 <= last_slash(p) < p.len(),
        last_slash(p) >= 0 ==> p[last_slash(p)] == '/',
        forall|j: int| last_slash(p) < j < p.len() ==> p[j] != '/',
    decreases p.len(),
{
    if p.len() > 0 && p.last() != '/' {
        let q = p.drop_last();
        lemma_last_slash_bounds(q);
        assert forall|j: int| last_slash(p) < j < p.len() implies p[j] != '/' by {
            if j < q.len() {
                assert(p[j] == q[j]);
            }
        }
    }
}

pub proof fn lemma_parent_shorter(p: Seq<char>)
    ensures
        parent(p) matches Some(q) ==> q.len() < p.len(),
{
    lemma_last_slash_bounds(p);
    if p.len() == 1 && last_slash(p) == 0 {
        assert(p =~= seq!['/']);
    }
}

/// `p`, its parent, its parent's parent, and so on, up to the root.
pub open spec fn ancestors(p: Seq<char>) -> Seq<Seq<char>>
    decreases p.len(),
{
    match parent(p) {
        Some(q) => if q.len() < p.len() {
            seq![p] + ancestors(q)
        } else {
            seq![p]
        },
        None => seq![p],
    }
}

/// Where a workspace called `dir_name` is looked for from the directory
/// `cwd`: in `cwd`, then in each directory above it, up to the root.
pub open spec fn discovery_candidates(cwd: Seq<char>, dir_name: Seq<char>) -> Seq<Seq<char>> {
    ancestors(cwd).map_values(|a: Seq<char>| join(a, dir_name))
}

/// The last `/` of `p`, found by a scan.
fn find_last_slash(p: &str) -> (r: Option<usize>)
    ensures
        match r {
            Some(i) => last_slash(p@) == i,
            None => last_slash(p@) == -1,
        },
{
    let n = p.unicode_len();
    let mut i: usize = n;
    assert(p@.subrange(0, n as int) == p@);
    while i > 0
        invariant
            n == p@.len(),
            i <= n,
            last_slash(p@) == last_slash(p@.subrange(0, i as int)),
        decreases i,
    {
        let ghost pre = p@.subrange(0, i as int);
        assert(pre.drop_last() == p@.subrange(0, i - 1));
        if p.get_char(i - 1) == '/' {
            return Some(i - 1);
        }
        i = i - 1;
    }
    None
}

/// The parent directory of `p` (see `parent`).
pub fn parent_dir(p: &str) -> (r: Option<String>)
    ensures
        match (r, parent(p@)) {
            (Some(a), Some(b)) => a@ == b,
            (None, None) => true,
            _ => false,
        },
{
    let n = p.unicode_len();
    if n == 0 || (n == 1 && p.get_char(0) == '/') {
        proof {
            if n == 1 && p@[0] == '/' {
                assert(p@ =~= seq!['/']);
            }
        }
        return None;
    }
    proof {
        if p@ == seq!['/'] {
            assert(p@.len() == 1 && p@[0] == '/');
        }
    }
    let last = find_last_slash(p);
    proof {
        lemma_last_slash_bounds(p@);
    }
    match last {
        None => Some(String::new()),
        Some(0) => {
            let mut root = String::new();
            push_char(&mut root, '/');
            Some(root)
        },
        Some(i) => Some(String::from_str(p.substring_char(0, i))),
    }
}

/// Where a workspace called `dir_name` is looked for, nearest first: in
/// `cwd`, then in each directory above it, up to the root (`cwd` in normal
/// form).
pub fn discovery_paths(cwd: &str, dir_name: &str) -> (r: Vec<String>)
    ensures
        r@.map_values(|s: String| s@) == discovery_candidates(cwd@, dir_name@),
{
    let mut r: Vec<String> = Vec::new();
    let mut cur = String::from_str(cwd);
    loop
        invariant
            r@.map_values(|s: String| s@) + ancestors(cur@).map_values(|a: Seq<char>| join(a, dir_name@))
                == discovery_candidates(cwd@, dir_name@),
        decreases cur@.len(),
    {
        proof {
            lemma_parent_shorter(cur@);
        }
        let ghost before = r@.map_values(|s: String| s@);
        let ghost anc = ancestors(cur@);
        let candidate = join_path(cur.as_str(), dir_name);
        r.push(candidate);
        assert(r@.map_values(|s: String| s@) == before.push(join(cur@, dir_name@)));
        match parent_dir(cur.as_str()) {
            Some(q) => {
                assert(anc == seq![cur@] + ancestors(q@));
                assert(anc.map_values(|a: Seq<char>| join(a, dir_name@)) == seq![join(cur@, dir_name@)]
                    + ancestors(q@).map_values(|a: Seq<char>| join(a, dir_name@)));
                cur = q;
            },
            None => {
                assert(anc == seq![cur@]);
                assert(anc.map_values(|a: Seq<char>| join(a, dir_name@)) == seq![join(cur@, dir_name@)]);
                assert(r@.map_values(|s: String| s@) + Seq::<Seq<char>>::empty() == r@.map_values(|s: String| s@));
                return r;
            },
        }
    }
}

/// Which of the places a workspace is looked for is taken: the first that
/// exists (`exists[i]` says whether candidate `i` is a directory).
pub fn first_existing(exists: &[bool]) -> (r: Option<usize>)
    ensures
        match r {
            Some(i) => i < exists@.len() && exists@[i as int] && forall|j: int|
                0 <= j < i ==> !exists@[j],
            None => forall|j: int| 0 <= j < exists@.len() ==> !exists@[j],
        },
{
    let n = exists.len();
    let mut i: usize = 0;
    while i < n
        invariant
            n == exists@.len(),
            i <= n,
            forall|j: int| 0 <= j < i ==> !exists@[j],
        decreases n - i,
    {
        if exists[i] {
            return Some(i);
        }
        i = i + 1;
    }
    None
}

/// The search for a workspace goes up to the root: the last place looked in
/// is the root's `dir_name`, and the first is the working directory's.
pub proof fn lemma_discovery_ends_at_root(cwd: Seq<char>, dir_name: Seq<char>)
    requires
        is_absolute(cwd),
    ensures
        discovery_candidates(cwd, dir_name).len() > 0,
        discovery_candidates(cwd, dir_name)[0] == join(cwd, dir_name),
        discovery_candidates(cwd, dir_name).last() == join(seq!['/'], dir_name),
    decreases cwd.len(),
{
    lemma_parent_shorter(cwd);
    lemma_last_slash_bounds(cwd);
    match parent(cwd) {
        Some(q) => {
            assert(is_absolute(q)) by {
                if last_slash(cwd) > 0 {
                    assert(q[0] == cwd[0]);
                }
            }
            lemma_discovery_ends_at_root(q, dir_name);
            assert(ancestors(cwd) == seq![cwd] + ancestors(q));
            let m = |a: Seq<char>| join(a, dir_name);
            assert(ancestors(cwd).map_values(m) == seq![join(cwd, dir_name)] + ancestors(q).map_values(m));
        },
        None => {
            assert(cwd =~= seq!['/']);
        },
    }
}

/// A directory that the tool keeps its files in. Every path handed to a
/// workspace is taken relative to its directory.
pub struct Workspace {
    path: String,
}

impl View for Workspace {
    type V = Seq<char>;

    closed spec fn view(&self) -> Seq<char> {
        self.path@
    }
}

impl Workspace {
    /// The workspace rooted at `path`. Creating the directory on disk is the
    /// caller's part.
    pub fn new(path: &str) -> (ws: Workspace)
        ensures
            ws@ == path@,
    {
        Workspace { path: String::from_str(path) }
    }

    /// The workspace rooted at `path` inside this one.
    pub fn child_workspace(&self, path: &str) -> (ws: Workspace)
        ensures
            ws@ == join(self@, path@),
    {
        let p = join_path(self.path.as_str(), path);
        Workspace { path: p }
    }

    /// Where `path` lies in this workspace.
    pub fn get_path(&self, path: &str) -> (r: String)
        ensures
            r@ == join(self@, path@),
    {
        join_path(self.path.as_str(), path)
    }

    /// The workspace's own directory.
    pub fn workdir_path(&self) -> (r: String)
        ensures
            r@ == self@,
    {
        self.path.clone()
    }
}

} // verus!
