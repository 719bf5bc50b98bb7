//! Where the tool keeps its files in the workspace: the issue cache, and what
//! it makes of the files it reads back.

use vstd::prelude::*;
use crate::context::{empty_context, Context};
use crate::paths::{is_absolute, join, join_path, lemma_join_absolute, lemma_join_keeps_absolute, Workspace};

verus! {

/// The directory of the issue cache, inside the workspace.
pub open spec fn cache_dir_name() -> Seq<char> {
    "issue-cache"@
}

/// The name of the cache file of the issue with key `key`.
pub open spec fn cache_file_name(key: Seq<char>) -> Seq<char> {
    key + ".yml"@
}

/// The directory of the issue cache of the workspace `ws`.
pub open spec fn cache_dir(ws: Seq<char>) -> Seq<char> {
    join(ws, cache_dir_name())
}

/// Saving an issue writes to the workspace's path of the cache file's path in
/// the cache workspace.
pub open spec fn cache_write_path(ws: Seq<char>, key: Seq<char>) -> Seq<char> {
    join(ws, join(cache_dir(ws), cache_file_name(key)))
}

/// Loading an issue reads the cache workspace's path of the cache file's path
/// in the cache workspace.
pub open spec fn cache_read_path(ws: Seq<char>, key: Seq<char>) -> Seq<char> {
    join(cache_dir(ws), join(cache_dir(ws), cache_file_name(key)))
}

/// The workspace of the issue cache.
pub fn cache_workspace(workspace: &Workspace) -> (ws: Workspace)
    ensures
        ws@ == cache_dir(workspace@),
{
    workspace.child_workspace("issue-cache")
}

/// The file name of the cached issue with key `key`.
pub fn cache_file_name_of(key: &str) -> (s: String)
    ensures
        s@ == cache_file_name(key@),
{
    String::from_str(key).concat(".yml")
}

/// The file that saving the issue with key `key` writes.
pub fn issue_write_path(workspace: &Workspace, key: &str) -> (p: String)
    ensures
        p@ == cache_write_path(workspace@, key@),
{
    let cache = cache_workspace(workspace);
    let in_cache = join_path(cache.workdir_path().as_str(), cache_file_name_of(key).as_str());
    workspace.get_path(in_cache.as_str())
}

/// The file that loading the issue with key `key` reads.
pub fn issue_read_path(workspace: &Workspace, key: &str) -> (p: String)
    ensures
        p@ == cache_read_path(workspace@, key@),
{
    let cache = cache_workspace(workspace);
    let in_cache = join_path(cache.workdir_path().as_str(), cache_file_name_of(key).as_str());
    cache.get_path(in_cache.as_str())
}

/// In a workspace at an absolute path, loading an issue reads the very file
/// that saving it wrote: the issue's file in the cache directory.
pub proof fn lemma_cache_read_after_write(ws: Seq<char>, key: Seq<char>)
    requires
        is_absolute(ws),
    ensures
        cache_read_path(ws, key) == cache_write_path(ws, key),
        cache_write_path(ws, key) == join(cache_dir(ws), cache_file_name(key)),
{
    lemma_join_keeps_absolute(ws, cache_dir_name());
    lemma_join_keeps_absolute(cache_dir(ws), cache_file_name(key));
    lemma_join_absolute(ws, join(cache_dir(ws), cache_file_name(key)));
    lemma_join_absolute(cache_dir(ws), join(cache_dir(ws), cache_file_name(key)));
}

/// Two issues with different keys (neither of which starts with `/`) are
/// cached in different files.
pub proof fn lemma_cache_files_distinct(ws: Seq<char>, k1: Seq<char>, k2: Seq<char>)
    requires
        is_absolute(ws),
        !is_absolute(k1),
        !is_absolute(k2),
        k1 != k2,
    ensures
        cache_write_path(ws, k1) != cache_write_path(ws, k2),
{
    lemma_cache_read_after_write(ws, k1);
    lemma_cache_read_after_write(ws, k2);
    let d = cache_dir(ws);
    let f1 = cache_file_name(k1);
    let f2 = cache_file_name(k2);
    reveal_strlit(".yml");
    if f1 == f2 {
        assert(f1.len() == k1.len() + 4 && f2.len() == k2.len() + 4);
        assert(k1 =~= f1.subrange(0, k1.len() as int));
        assert(k2 =~= f2.subrange(0, k2.len() as int));
    }
    assert(f1 != f2);
    lemma_join_keeps_absolute(ws, cache_dir_name());
    assert(!is_absolute(f1) && !is_absolute(f2)) by {
        if k1.len() > 0 {
            assert(f1[0] == k1[0]);
        } else {
            assert(f1[0] == '.');
        }
        if k2.len() > 0 {
            assert(f2[0] == k2[0]);
        } else {
            assert(f2[0] == '.');
        }
    }
    if d.last() == '/' {
        assert((d + f1).subrange(d.len() as int, (d + f1).len() as int) == f1);
        assert((d + f2).subrange(d.len() as int, (d + f2).len() as int) == f2);
    } else {
        assert((d + seq!['/'] + f1).subrange(d.len() + 1int, (d + seq!['/'] + f1).len() as int)
            == f1);
        assert((d + seq!['/'] + f2).subrange(d.len() + 1int, (d + seq!['/'] + f2).len() as int)
            == f2);
    }
}

/// The values of the `Some`s of `s`, in order.
pub open spec fn somes<T>(s: Seq<Option<T>>) -> Seq<T>
    decreases s.len(),
{
    if s.len() == 0 {
        Seq::empty()
    } else {
        let rest = somes(s.drop_first());
        match s[0] {
            Some(x) => seq![x] + rest,
            None => rest,
        }
    }
}

/// The cache files that could be read and parsed, in the order they were
/// listed; the others are skipped.
pub fn parsed_issues<T>(files: Vec<Option<T>>) -> (r: Vec<T>)
    ensures
        r@ == somes(files@),
{
    let mut files = files;
    let mut r: Vec<T> = Vec::new();
    let ghost all = files@;
    while files.len() > 0
        invariant
            somes(all) == r@ + somes(files@),
        decreases files@.len(),
    {
        let ghost before = files@;
        let f = files.remove(0);
        assert(files@ == before.drop_first());
        match f {
            Some(x) => {
                r.push(x);
                assert(somes(before) == seq![x] + somes(files@));
            },
            None => {
                assert(somes(before) == somes(files@));
            },
        }
        assert(somes(all) == r@ + somes(files@));
    }
    assert(r@ + somes(files@) == r@);
    r
}

/// The context read from the context file, or, where the file held none, a
/// fresh context, which is then to be saved (the flag).
pub fn context_or_default(parsed: Option<Context>) -> (r: (Context, bool))
    ensures
        match parsed {
            Some(c) => r.0@ == c@ && !r.1,
            None => r.0@ == empty_context() && r.1,
        },
{
    match parsed {
        Some(c) => (c, false),
        None => (Context::empty(), true),
    }
}

} // verus!
