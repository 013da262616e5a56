//! The background task that loads the project's C++ types.
//!
//! The task gathers the project's header files, then hands them one by one
//! to the type crawler on a worker, which can be asked to stop between two
//! files. This module decides which files are gathered, when a worker is
//! started or stopped, and what the worker does at each step; the caller
//! reads the file system, runs the worker and calls the crawler.
use vstd::prelude::*;
use crate::text::{clone_strings, str_equal};

verus! {

/// Whether `path` begins with the whole components of `base`, as
/// `std::path::Path::starts_with` decides it.
pub uninterp spec fn path_starts_with(path: Seq<char>, base: Seq<char>) -> bool;

/// The extension of the last component of `path`, as
/// `std::path::Path::extension` gives it.
pub uninterp spec fn path_extension(path: Seq<char>) -> Option<Seq<char>>;

/// Calls `std::path::Path::starts_with`; its result is named
/// `path_starts_with` and depends on the two paths alone. As std documents,
/// a path starts with itself.
#[verifier::external_body]
fn starts_with(path: &str, base: &str) -> (starts: bool)
    ensures
        starts == path_starts_with(path@, base@),
        path@ == base@ ==> starts,
{
    std::path::Path::new(path).starts_with(base)
}

/// Calls `std::path::Path::extension`; its result is named
/// `path_extension` and depends on the path alone. An extension taken from
/// a path given as text is text itself, so it converts without loss.
#[verifier::external_body]
fn extension(path: &str) -> (ext: Option<String>)
    ensures
        match ext {
            Some(e) => path_extension(path@) == Some(e@),
            None => path_extension(path@) is None,
        },
{
    match std::path::Path::new(path).extension() {
        Some(e) => Some(e.to_string_lossy().into_owned()),
        None => None,
    }
}

/// Whether some ignore path lies at or below `dir`.
pub open spec fn dir_ignored(ignore_paths: Seq<Seq<char>>, dir: Seq<char>) -> bool {
    exists|i: int| 0 <= i < ignore_paths.len() && path_starts_with(#[trigger] ignore_paths[i], dir)
}

/// Whether an extension marks a C or C++ header.
pub open spec fn is_header_ext(ext: Option<Seq<char>>) -> bool {
    match ext {
        Some(e) => e == "hpp"@ || e == "h"@,
        None => false,
    }
}

/// A file is a header exactly when its extension is `h` or `hpp`.
pub proof fn header_extensions_are_h_and_hpp(ext: Option<Seq<char>>)
    ensures
        is_header_ext(ext) == (ext == Some("h"@) || ext == Some("hpp"@)),
{
}

/// Whether `ext`, the extension of a file, marks a C or C++ header.
pub fn is_header_extension(ext: Option<&str>) -> (header: bool)
    ensures
        header == is_header_ext(
            match ext {
                Some(e) => Some(e@),
                None => None,
            },
        ),
        header == (ext matches Some(e) && (e@ == "h"@ || e@ == "hpp"@)),
{
    match ext {
        Some(e) => str_equal(e, "hpp") || str_equal(e, "h"),
        None => false,
    }
}

/// Whether the file at `path` is a C or C++ header, by its extension.
pub fn is_header_file(path: &str) -> (header: bool)
    ensures
        header == is_header_ext(path_extension(path@)),
{
    match extension(path) {
        Some(e) => is_header_extension(Some(e.as_str())),
        None => is_header_extension(None),
    }
}

/// Whether the directory `dir` is skipped because some of `ignore_paths`
/// lies at or below it.
pub fn is_ignored(ignore_paths: &Vec<String>, dir: &str) -> (ignored: bool)
    ensures
        ignored == dir_ignored(ignore_paths.deep_view(), dir@),
        (exists|i: int| 0 <= i < ignore_paths@.len() && #[trigger] ignore_paths@[i]@ == dir@) ==> ignored,
{
    let ghost ignore = ignore_paths.deep_view();
    for i in 0..ignore_paths.len()
        invariant
            ignore == ignore_paths.deep_view(),
            forall|j: int| 0 <= j < i ==> !path_starts_with(#[trigger] ignore[j], dir@),
            forall|j: int| 0 <= j < i ==> #[trigger] ignore_paths@[j]@ != dir@,
    {
        if starts_with(ignore_paths[i].as_str(), dir) {
            assert(path_starts_with(ignore[i as int], dir@));
            return true;
        }
    }
    false
}

/// A path as the file system showed it: a directory with the entries read
/// from it, in the order they were read, or anything else.
pub enum FsEntry {
    Dir { path: String, entries: Vec<FsEntry> },
    Other { path: String },
}

/// The header files found under `entry`: none when it is not a directory or
/// is ignored, else those of its entries, in order.
pub open spec fn tree_headers(ignore_paths: Seq<Seq<char>>, entry: FsEntry) -> Seq<Seq<char>>
    decreases entry, 0nat,
{
    match entry {
        FsEntry::Dir { path, entries } => if dir_ignored(ignore_paths, path@) {
            Seq::empty()
        } else {
            entries_headers(ignore_paths, entries@, entries@.len())
        },
        FsEntry::Other { .. } => Seq::empty(),
    }
}

/// The header files found among the first `n` of `entries`: those under
/// each directory, and each other entry that is a header.
pub open spec fn entries_headers(ignore_paths: Seq<Seq<char>>, entries: Seq<FsEntry>, n: nat) -> Seq<
    Seq<char>,
>
    decreases entries, n,
{
    if n == 0 || n > entries.len() {
        Seq::empty()
    } else {
        entries_headers(ignore_paths, entries, (n - 1) as nat) + match entries[n - 1] {
            FsEntry::Dir { .. } => tree_headers(ignore_paths, entries[n - 1]),
            FsEntry::Other { path } => if is_header_ext(path_extension(path@)) {
                seq![path@]
            } else {
                Seq::empty()
            },
        }
    }
}

/// Every file gathered under a directory is a header by its extension, and a
/// directory at or above an ignore path gives nothing.
pub proof fn gathered_files_are_headers(ignore_paths: Seq<Seq<char>>, entry: FsEntry)
    ensures
        forall|i: int|
            0 <= i < tree_headers(ignore_paths, entry).len() ==> is_header_ext(
                path_extension(#[trigger] tree_headers(ignore_paths, entry)[i]),
            ),
        entry matches FsEntry::Dir { path, .. } && dir_ignored(ignore_paths, path@) ==> tree_headers(
            ignore_paths,
            entry,
        ).len() == 0,
    decreases entry, 0nat,
{
    match entry {
        FsEntry::Dir { path, entries } => {
            if !dir_ignored(ignore_paths, path@) {
                entries_gathered_are_headers(ignore_paths, entries@, entries@.len());
            }
        },
        FsEntry::Other { .. } => {},
    }
}

/// Every file gathered among the first `n` entries is a header by its extension.
proof fn entries_gathered_are_headers(ignore_paths: Seq<Seq<char>>, entries: Seq<FsEntry>, n: nat)
    ensures
        forall|i: int|
            0 <= i < entries_headers(ignore_paths, entries, n).len() ==> is_header_ext(
                path_extension(#[trigger] entries_headers(ignore_paths, entries, n)[i]),
            ),
    decreases entries, n,
{
    if n == 0 || n > entries.len() {
    } else {
        let prefix = entries_headers(ignore_paths, entries, (n - 1) as nat);
        entries_gathered_are_headers(ignore_paths, entries, (n - 1) as nat);
        let last = entries[n - 1];
        let tail = match last {
            FsEntry::Dir { .. } => tree_headers(ignore_paths, last),
            FsEntry::Other { path } => if is_header_ext(path_extension(path@)) {
                seq![path@]
            } else {
                Seq::empty()
            },
        };
        match last {
            FsEntry::Dir { .. } => {
                gathered_files_are_headers(ignore_paths, last);
            },
            FsEntry::Other { .. } => {},
        }
        assert(entries_headers(ignore_paths, entries, n) == prefix + tail);
        assert forall|i: int|
            0 <= i < (prefix + tail).len() implies is_header_ext(
            path_extension(#[trigger] (prefix + tail)[i]),
        ) by {
            if i < prefix.len() {
                assert((prefix + tail)[i] == prefix[i]);
            } else {
                assert((prefix + tail)[i] == tail[i - prefix.len()]);
            }
        }
    }
}

/// The header files that one entry of a directory adds: those under it when
/// it is a directory, else itself when it is a header.
pub open spec fn contribution(ignore_paths: Seq<Seq<char>>, entry: FsEntry) -> Seq<Seq<char>> {
    match entry {
        FsEntry::Dir { .. } => tree_headers(ignore_paths, entry),
        FsEntry::Other { path } => if is_header_ext(path_extension(path@)) {
            seq![path@]
        } else {
            Seq::empty()
        },
    }
}

/// Something is in a concatenation exactly when it is in one of the parts.
proof fn contains_in_concat(a: Seq<Seq<char>>, b: Seq<Seq<char>>, x: Seq<char>)
    ensures
        (a + b).contains(x) <==> (a.contains(x) || b.contains(x)),
{
    if (a + b).contains(x) {
        let i = choose|i: int| 0 <= i < (a + b).len() && (a + b)[i] == x;
        if i < a.len() {
            assert(a[i] == x);
        } else {
            assert(b[i - a.len()] == x);
        }
    }
    if a.contains(x) {
        let i = choose|i: int| 0 <= i < a.len() && a[i] == x;
        assert((a + b)[i] == x);
    }
    if b.contains(x) {
        let i = choose|i: int| 0 <= i < b.len() && b[i] == x;
        assert((a + b)[a.len() + i] == x);
    }
}

/// The files gathered among the first `n` entries are those that some one
/// of them adds.
proof fn entries_headers_members(ignore_paths: Seq<Seq<char>>, entries: Seq<FsEntry>, n: nat)
    requires
        n <= entries.len(),
    ensures
        forall|x: Seq<char>|
            #[trigger] entries_headers(ignore_paths, entries, n).contains(x) <==> exists|k: int|
                0 <= k < n && #[trigger] contribution(ignore_paths, entries[k]).contains(x),
    decreases n,
{
    if n > 0 {
        entries_headers_members(ignore_paths, entries, (n - 1) as nat);
        let prefix = entries_headers(ignore_paths, entries, (n - 1) as nat);
        let tail = contribution(ignore_paths, entries[n - 1]);
        assert(entries_headers(ignore_paths, entries, n) == prefix + tail);
        assert forall|x: Seq<char>|
            #[trigger] entries_headers(ignore_paths, entries, n).contains(x) <==> exists|k: int|
                0 <= k < n && #[trigger] contribution(ignore_paths, entries[k]).contains(x) by {
            contains_in_concat(prefix, tail, x);
            if tail.contains(x) {
                assert(contribution(ignore_paths, entries[n - 1]).contains(x));
            }
            if exists|k: int| 0 <= k < n && #[trigger] contribution(ignore_paths, entries[k]).contains(x) {
                let k = choose|k: int|
                    0 <= k < n && #[trigger] contribution(ignore_paths, entries[k]).contains(x);
                if k < n - 1 {
                    assert(prefix.contains(x));
                }
            }
        }
    } else {
        assert forall|x: Seq<char>|
            !(#[trigger] entries_headers(ignore_paths, entries, n).contains(x)) by {}
    }
}

/// Gathering under a directory that is not ignored takes every entry that
/// is a file with extension `h` or `hpp`, and every file gathered under each
/// subdirectory; and it takes nothing else.
pub proof fn gathering_takes_every_header(
    ignore_paths: Seq<Seq<char>>,
    path: String,
    entries: Vec<FsEntry>,
)
    requires
        !dir_ignored(ignore_paths, path@),
    ensures
        forall|i: int|
            0 <= i < entries@.len() ==> (#[trigger] entries@[i] matches FsEntry::Other {
                path: p,
            } ==> ((path_extension(p@) == Some("h"@) || path_extension(p@) == Some("hpp"@))
                ==> tree_headers(ignore_paths, FsEntry::Dir { path, entries }).contains(p@))),
        forall|i: int, x: Seq<char>|
            0 <= i < entries@.len() && #[trigger] entries@[i] is Dir && #[trigger] tree_headers(
                ignore_paths,
                entries@[i],
            ).contains(x) ==> tree_headers(ignore_paths, FsEntry::Dir { path, entries }).contains(
                x,
            ),
        forall|x: Seq<char>|
            #[trigger] tree_headers(ignore_paths, FsEntry::Dir { path, entries }).contains(x)
                ==> exists|i: int|
                0 <= i < entries@.len() && ((#[trigger] entries@[i] matches FsEntry::Other {
                    path: p,
                } && p@ == x && (path_extension(p@) == Some("h"@) || path_extension(p@) == Some(
                    "hpp"@,
                ))) || (entries@[i] is Dir && tree_headers(ignore_paths, entries@[i]).contains(x))),
{
    let dir = FsEntry::Dir { path, entries };
    entries_headers_members(ignore_paths, entries@, entries@.len());
    assert(tree_headers(ignore_paths, dir) == entries_headers(ignore_paths, entries@, entries@.len()));
    assert forall|i: int|
        0 <= i < entries@.len() implies (#[trigger] entries@[i] matches FsEntry::Other { path: p }
        ==> ((path_extension(p@) == Some("h"@) || path_extension(p@) == Some("hpp"@))
        ==> tree_headers(ignore_paths, dir).contains(p@))) by {
        if let FsEntry::Other { path: p } = entries@[i] {
            if path_extension(p@) == Some("h"@) || path_extension(p@) == Some("hpp"@) {
                assert(contribution(ignore_paths, entries@[i])[0] == p@);
                assert(contribution(ignore_paths, entries@[i]).contains(p@));
            }
        }
    }
    assert forall|i: int, x: Seq<char>|
        0 <= i < entries@.len() && #[trigger] entries@[i] is Dir && #[trigger] tree_headers(
            ignore_paths,
            entries@[i],
        ).contains(x) implies tree_headers(ignore_paths, dir).contains(x) by {
        assert(contribution(ignore_paths, entries@[i]).contains(x));
    }
    assert forall|x: Seq<char>| #[trigger] tree_headers(ignore_paths, dir).contains(x) implies exists|
        i: int|
        0 <= i < entries@.len() && ((#[trigger] entries@[i] matches FsEntry::Other { path: p }
            && p@ == x && (path_extension(p@) == Some("h"@) || path_extension(p@) == Some("hpp"@)))
            || (entries@[i] is Dir && tree_headers(ignore_paths, entries@[i]).contains(x))) by {
        let k = choose|k: int|
            0 <= k < entries@.len() && #[trigger] contribution(ignore_paths, entries@[k]).contains(x);
        if let FsEntry::Other { path: p } = entries@[k] {
            let c = contribution(ignore_paths, entries@[k]);
            let j = choose|j: int| 0 <= j < c.len() && c[j] == x;
            assert(c.len() == 1 && c[0] == p@);
        }
    }
}

/// What is gathered among the first `n` entries is the start of what is
/// gathered among the first `m`, for `n <= m`.
proof fn entries_headers_grow(ignore_paths: Seq<Seq<char>>, entries: Seq<FsEntry>, n: nat, m: nat)
    requires
        n <= m <= entries.len(),
    ensures
        entries_headers(ignore_paths, entries, n).len() <= entries_headers(ignore_paths, entries, m).len(),
        forall|a: int|
            0 <= a < entries_headers(ignore_paths, entries, n).len() ==> entries_headers(
                ignore_paths,
                entries,
                m,
            )[a] == #[trigger] entries_headers(ignore_paths, entries, n)[a],
    decreases m - n,
{
    if n < m {
        entries_headers_grow(ignore_paths, entries, n, (m - 1) as nat);
        let prefix = entries_headers(ignore_paths, entries, (m - 1) as nat);
        let tail = contribution(ignore_paths, entries[m - 1]);
        assert(entries_headers(ignore_paths, entries, m) == prefix + tail);
    }
}

/// Gathering keeps the order of a directory's entries: whatever an earlier
/// entry adds comes before whatever a later one adds.
pub proof fn gathering_keeps_entry_order(
    ignore_paths: Seq<Seq<char>>,
    path: String,
    entries: Vec<FsEntry>,
    i: int,
    j: int,
    x: Seq<char>,
    y: Seq<char>,
)
    requires
        !dir_ignored(ignore_paths, path@),
        0 <= i < j < entries@.len(),
        contribution(ignore_paths, entries@[i]).contains(x),
        contribution(ignore_paths, entries@[j]).contains(y),
    ensures
        exists|a: int, b: int|
            0 <= a < b < tree_headers(ignore_paths, FsEntry::Dir { path, entries }).len()
                && #[trigger] tree_headers(ignore_paths, FsEntry::Dir { path, entries })[a] == x
                && #[trigger] tree_headers(ignore_paths, FsEntry::Dir { path, entries })[b] == y,
{
    let es = entries@;
    let len = es.len();
    let found = tree_headers(ignore_paths, FsEntry::Dir { path, entries });
    assert(found == entries_headers(ignore_paths, es, len));
    let before_i = entries_headers(ignore_paths, es, i as nat);
    let upto_i = entries_headers(ignore_paths, es, (i + 1) as nat);
    let before_j = entries_headers(ignore_paths, es, j as nat);
    let upto_j = entries_headers(ignore_paths, es, (j + 1) as nat);
    let ci = contribution(ignore_paths, es[i]);
    let cj = contribution(ignore_paths, es[j]);
    assert(upto_i == before_i + ci);
    assert(upto_j == before_j + cj);
    let ai = choose|ai: int| 0 <= ai < ci.len() && ci[ai] == x;
    let bj = choose|bj: int| 0 <= bj < cj.len() && cj[bj] == y;
    let a = before_i.len() + ai;
    let b = before_j.len() + bj;
    assert(upto_i[a] == x);
    assert(upto_j[b] == y);
    entries_headers_grow(ignore_paths, es, (i + 1) as nat, j as nat);
    entries_headers_grow(ignore_paths, es, (j + 1) as nat, len);
    assert(before_j[a] == x);
    assert(upto_j[a] == before_j[a]);
    assert(found[a] == upto_j[a]);
    assert(found[b] == upto_j[b]);
}

/// Gathering under an ignored directory, or under a path that is no
/// directory, finds nothing.
pub proof fn gathering_skips_ignored_and_plain(ignore_paths: Seq<Seq<char>>, entry: FsEntry)
    ensures
        entry is Other ==> tree_headers(ignore_paths, entry).len() == 0,
        entry matches FsEntry::Dir { path, .. } && dir_ignored(ignore_paths, path@) ==> tree_headers(
            ignore_paths,
            entry,
        ).len() == 0,
{
}

/// Whether the text of `path` begins with the text of `base`.
pub open spec fn has_prefix(path: Seq<char>, base: Seq<char>) -> bool {
    base.len() <= path.len() && forall|k: int| 0 <= k < base.len() ==> path[k] == base[k]
}

/// Whether `path` names something inside the directory `base`: `base`,
/// then a separator, then more.
pub open spec fn strictly_under(path: Seq<char>, base: Seq<char>) -> bool {
    &&& base.len() < path.len()
    &&& has_prefix(path, base)
    &&& path[base.len() as int] == '/'
}

/// Whether `path` is `base` or lies inside it.
pub open spec fn at_or_under(path: Seq<char>, base: Seq<char>) -> bool {
    path == base || strictly_under(path, base)
}

/// Whether `child` is `parent` joined with one more component: a separator
/// and a non-empty name without separators.
pub open spec fn child_path(child: Seq<char>, parent: Seq<char>) -> bool {
    &&& strictly_under(child, parent)
    &&& parent.len() + 1 < child.len()
    &&& forall|k: int| parent.len() < k < child.len() ==> child[k] != '/'
}

/// The path of an entry.
pub open spec fn entry_path(entry: FsEntry) -> Seq<char> {
    match entry {
        FsEntry::Dir { path, .. } => path@,
        FsEntry::Other { path } => path@,
    }
}

/// A tree as a directory listing gives it: the path of each entry is its
/// directory's path joined with one component, and no two entries of a
/// directory share a path.
pub open spec fn tree_wf(entry: FsEntry) -> bool
    decreases entry, 0nat,
{
    match entry {
        FsEntry::Dir { path, entries } => entries_wf(path@, entries@, entries@.len()),
        FsEntry::Other { .. } => true,
    }
}

/// The first `n` of `entries` are well-formed entries of the directory `parent`.
pub open spec fn entries_wf(parent: Seq<char>, entries: Seq<FsEntry>, n: nat) -> bool
    decreases entries, n,
{
    if n == 0 || n > entries.len() {
        true
    } else {
        &&& entries_wf(parent, entries, (n - 1) as nat)
        &&& child_path(entry_path(entries[n - 1]), parent)
        &&& tree_wf(entries[n - 1])
        &&& forall|k: int| 0 <= k < n - 1 ==> entry_path(#[trigger] entries[k]) != entry_path(
            entries[n - 1],
        )
    }
}

/// A path inside a child of `parent` lies inside `parent`.
proof fn under_child_is_under_parent(path: Seq<char>, child: Seq<char>, parent: Seq<char>)
    requires
        at_or_under(path, child),
        child_path(child, parent),
    ensures
        strictly_under(path, parent),
{
    if path != child {
        assert(path[parent.len() as int] == child[parent.len() as int]);
    }
}

/// Nothing lies both at or under one child of a directory and at or under
/// another.
proof fn distinct_children_are_disjoint(
    path: Seq<char>,
    c1: Seq<char>,
    c2: Seq<char>,
    parent: Seq<char>,
)
    requires
        child_path(c1, parent),
        child_path(c2, parent),
        c1 != c2,
        at_or_under(path, c1),
    ensures
        !at_or_under(path, c2),
{
    if at_or_under(path, c2) {
        if c1.len() == c2.len() {
            assert(c1 =~= c2);
        } else if c1.len() < c2.len() {
            assert(c2[c1.len() as int] == path[c1.len() as int]);
        } else {
            assert(c1[c2.len() as int] == path[c2.len() as int]);
        }
    }
}

/// Under a well-formed tree, every gathered file lies strictly inside the
/// root, and no file is gathered twice.
pub proof fn gathered_files_are_distinct_and_inside(ignore_paths: Seq<Seq<char>>, entry: FsEntry)
    requires
        tree_wf(entry),
    ensures
        forall|i: int|
            0 <= i < tree_headers(ignore_paths, entry).len() ==> strictly_under(
                #[trigger] tree_headers(ignore_paths, entry)[i],
                entry_path(entry),
            ),
        tree_headers(ignore_paths, entry).no_duplicates(),
    decreases entry, 0nat,
{
    match entry {
        FsEntry::Dir { path, entries } => {
            if !dir_ignored(ignore_paths, path@) {
                entries_gathered_are_distinct(ignore_paths, path@, entries@, entries@.len());
                let found = tree_headers(ignore_paths, entry);
                assert forall|i: int| 0 <= i < found.len() implies strictly_under(
                    #[trigger] found[i],
                    path@,
                ) by {
                    let k = choose|k: int|
                        0 <= k < entries@.len() && at_or_under(found[i], entry_path(entries@[k]))
                            && child_path(entry_path(entries@[k]), path@);
                    under_child_is_under_parent(found[i], entry_path(entries@[k]), path@);
                }
            } else {
                assert(tree_headers(ignore_paths, entry) =~= Seq::<Seq<char>>::empty());
            }
        },
        FsEntry::Other { .. } => {
            assert(tree_headers(ignore_paths, entry) =~= Seq::<Seq<char>>::empty());
        },
    }
}

/// Among the first `n` entries of a well-formed directory, each gathered
/// file lies at or under one of those entries, and none is gathered twice.
proof fn entries_gathered_are_distinct(
    ignore_paths: Seq<Seq<char>>,
    parent: Seq<char>,
    entries: Seq<FsEntry>,
    n: nat,
)
    requires
        entries_wf(parent, entries, n),
        n <= entries.len(),
    ensures
        forall|i: int|
            0 <= i < entries_headers(ignore_paths, entries, n).len() ==> exists|k: int|
                0 <= k < n && at_or_under(
                    #[trigger] entries_headers(ignore_paths, entries, n)[i],
                    entry_path(entries[k]),
                ) && child_path(entry_path(entries[k]), parent),
        entries_headers(ignore_paths, entries, n).no_duplicates(),
    decreases entries, n,
{
    if n == 0 {
        assert(entries_headers(ignore_paths, entries, n) =~= Seq::<Seq<char>>::empty());
    } else {
        let prefix = entries_headers(ignore_paths, entries, (n - 1) as nat);
        entries_gathered_are_distinct(ignore_paths, parent, entries, (n - 1) as nat);
        let last = entries[n - 1];
        let lp = entry_path(last);
        let tail = match last {
            FsEntry::Dir { .. } => tree_headers(ignore_paths, last),
            FsEntry::Other { path } => if is_header_ext(path_extension(path@)) {
                seq![path@]
            } else {
                Seq::empty()
            },
        };
        match last {
            FsEntry::Dir { .. } => {
                gathered_files_are_distinct_and_inside(ignore_paths, last);
            },
            FsEntry::Other { .. } => {},
        }
        assert forall|j: int| 0 <= j < tail.len() implies at_or_under(#[trigger] tail[j], lp) by {}
        assert(tail.no_duplicates());
        let all = prefix + tail;
        assert(entries_headers(ignore_paths, entries, n) == all);
        assert forall|i: int| 0 <= i < all.len() implies exists|k: int|
            0 <= k < n && at_or_under(#[trigger] all[i], entry_path(entries[k])) && child_path(
                entry_path(entries[k]),
                parent,
            ) by {
            if i < prefix.len() {
                assert(all[i] == prefix[i]);
                let k = choose|k: int|
                    0 <= k < n - 1 && at_or_under(prefix[i], entry_path(entries[k])) && child_path(
                        entry_path(entries[k]),
                        parent,
                    );
                assert(0 <= k < n && at_or_under(all[i], entry_path(entries[k])));
            } else {
                assert(all[i] == tail[i - prefix.len()]);
                assert(at_or_under(all[i], entry_path(entries[n - 1])));
            }
        }
        assert forall|a: int, b: int| 0 <= a < all.len() && 0 <= b < all.len() && a != b implies all[a]
            != all[b] by {
            if a < prefix.len() && b < prefix.len() {
                assert(all[a] == prefix[a] && all[b] == prefix[b]);
            } else if a >= prefix.len() && b >= prefix.len() {
                assert(all[a] == tail[a - prefix.len()] && all[b] == tail[b - prefix.len()]);
            } else {
                let (x, y) = if a < prefix.len() {
                    (a, b)
                } else {
                    (b, a)
                };
                assert(all[x] == prefix[x]);
                assert(all[y] == tail[y - prefix.len()]);
                let k = choose|k: int|
                    0 <= k < n - 1 && at_or_under(prefix[x], entry_path(entries[k])) && child_path(
                        entry_path(entries[k]),
                        parent,
                    );
                assert(entry_path(entries[k]) != lp);
                if all[x] == all[y] {
                    distinct_children_are_disjoint(all[x], entry_path(entries[k]), lp, parent);
                }
            }
        }
    }
}

/// A list of the header files found under `entry`, skipping directories at
/// or above an ignore path.
pub fn find_header_files(ignore_paths: &Vec<String>, entry: &FsEntry) -> (found: Vec<String>)
    ensures
        found.deep_view() == tree_headers(ignore_paths.deep_view(), *entry),
        tree_wf(*entry) ==> forall|i: int|
            0 <= i < found.deep_view().len() ==> strictly_under(
                #[trigger] found.deep_view()[i],
                entry_path(*entry),
            ),
        tree_wf(*entry) ==> found.deep_view().no_duplicates(),
    decreases entry,
{
    let ghost ignore = ignore_paths.deep_view();
    proof {
        if tree_wf(*entry) {
            gathered_files_are_distinct_and_inside(ignore, *entry);
        }
    }
    match entry {
        FsEntry::Other { .. } => Vec::new(),
        FsEntry::Dir { path, entries } => {
            if is_ignored(ignore_paths, path.as_str()) {
                return Vec::new();
            }
            let mut header_files: Vec<String> = Vec::new();
            for i in 0..entries.len()
                invariant
                    ignore == ignore_paths.deep_view(),
                    *entry == (FsEntry::Dir { path: *path, entries: *entries }),
                    header_files.deep_view() == entries_headers(ignore, entries@, i as nat),
            {
                let e = &entries[i];
                assert(decreases_to!(*entry => (*entry)->entries));
                assert(decreases_to!((*entry)->entries => ((*entry)->entries)@));
                assert(decreases_to!(((*entry)->entries)@ => ((*entry)->entries)@[i as int]));
                match e {
                    FsEntry::Dir { .. } => {
                        let mut found = find_header_files(ignore_paths, e);
                        header_files.append(&mut found);
                    },
                    FsEntry::Other { path } => {
                        if is_header_file(path.as_str()) {
                            header_files.push(path.clone());
                        }
                    },
                }
                assert(header_files.deep_view() =~= entries_headers(ignore, entries@, (i + 1) as nat));
            }
            header_files
        },
    }
}


/// What the task is created with.
pub struct LoadTypesTaskOptions {
    pub project_root: String,
    pub include_paths: Vec<String>,
    pub ignore_paths: Vec<String>,
    pub short_enums: bool,
}

/// The type-loading task: its settings, its status line, and whether a
/// worker was started and not yet stopped.
pub struct LoadTypesTask {
    status: String,
    worker_started: bool,
    project_root: String,
    include_paths: Vec<String>,
    ignore_paths: Vec<String>,
    short_enums: bool,
}

/// A type-loading task as values.
pub struct LoadTypesTaskView {
    pub status: Seq<char>,
    pub worker_started: bool,
    pub project_root: Seq<char>,
    pub include_paths: Seq<Seq<char>>,
    pub ignore_paths: Seq<Seq<char>>,
    pub short_enums: bool,
}

impl View for LoadTypesTask {
    type V = LoadTypesTaskView;

    closed spec fn view(&self) -> LoadTypesTaskView {
        LoadTypesTaskView {
            status: self.status@,
            worker_started: self.worker_started,
            project_root: self.project_root@,
            include_paths: self.include_paths.deep_view(),
            ignore_paths: self.ignore_paths.deep_view(),
            short_enums: self.short_enums,
        }
    }
}

/// What a worker is started with: the directory to gather headers under,
/// the include paths for the crawler, the paths to skip, and whether enums
/// are as short as their values allow.
pub struct WorkerPlan {
    pub project_root: String,
    pub include_paths: Vec<String>,
    pub ignore_paths: Vec<String>,
    pub short_enums: bool,
}

/// What `run` decided.
pub enum RunOutcome {
    /// A worker was started before and not stopped; nothing is done.
    AlreadyRunning,
    /// Start a worker with this plan.
    Start(WorkerPlan),
}

/// Whether `run` starts a worker for `task`: when none was started or the
/// last one was stopped.
pub open spec fn run_starts_worker(task: LoadTypesTaskView) -> bool {
    !task.worker_started
}

/// The task after `run`: marked as having a worker, all else unchanged.
pub open spec fn ran(task: LoadTypesTaskView) -> LoadTypesTaskView {
    LoadTypesTaskView { worker_started: true, ..task }
}

/// The task after `terminate`: marked as having no worker, all else unchanged.
pub open spec fn terminated(task: LoadTypesTaskView) -> LoadTypesTaskView {
    LoadTypesTaskView { worker_started: false, ..task }
}

/// The status line after the worker takes `action` on `headers`: the header
/// it crawls, or, for a stop or the end of the crawl, the line as it was.
pub open spec fn status_after(status: Seq<char>, action: CrawlAction, headers: Seq<Seq<char>>) -> Seq<
    char,
> {
    match action {
        CrawlAction::Parse(index) => headers[index as int],
        _ => status,
    }
}

/// The status line after the worker takes `action` on `headers`, from the
/// line `status` it showed before.
pub fn step_status(status: &String, action: CrawlAction, headers: &Vec<String>) -> (next: String)
    requires
        action matches CrawlAction::Parse(index) ==> index < headers@.len(),
    ensures
        next@ == status_after(status@, action, headers.deep_view()),
{
    match action {
        CrawlAction::Parse(index) => headers[index].clone(),
        _ => status.clone(),
    }
}

impl LoadTypesTask {
    /// A task with the given settings, an empty status and no worker.
    pub fn new(options: LoadTypesTaskOptions) -> (task: Self)
        ensures
            task@ == (LoadTypesTaskView {
                status: Seq::empty(),
                worker_started: false,
                project_root: options.project_root@,
                include_paths: options.include_paths.deep_view(),
                ignore_paths: options.ignore_paths.deep_view(),
                short_enums: options.short_enums,
            }),
    {
        LoadTypesTask {
            project_root: options.project_root,
            status: String::new(),
            worker_started: false,
            include_paths: options.include_paths,
            ignore_paths: options.ignore_paths,
            short_enums: options.short_enums,
        }
    }

    /// Starts a worker unless one was started before and not stopped: the
    /// worker gathers the headers under the project root and crawls them.
    pub fn run(&mut self) -> (outcome: RunOutcome)
        ensures
            run_starts_worker(old(self)@) <==> outcome is Start,
            outcome matches RunOutcome::Start(plan) ==> {
                &&& plan.project_root@ == old(self)@.project_root
                &&& plan.include_paths.deep_view() == old(self)@.include_paths
                &&& plan.ignore_paths.deep_view() == old(self)@.ignore_paths
                &&& plan.short_enums == old(self)@.short_enums
            },
            final(self)@ == ran(old(self)@),
    {
        if self.worker_started {
            return RunOutcome::AlreadyRunning;
        }
        let plan = WorkerPlan {
            project_root: self.project_root.clone(),
            include_paths: clone_strings(&self.include_paths),
            ignore_paths: clone_strings(&self.ignore_paths),
            short_enums: self.short_enums,
        };
        self.worker_started = true;
        RunOutcome::Start(plan)
    }

    /// Stops the worker: returns whether one was started and not stopped,
    /// in which case it is to be told to stop and waited for.
    pub fn terminate(&mut self) -> (stop_worker: bool)
        ensures
            stop_worker == old(self)@.worker_started,
            final(self)@ == terminated(old(self)@),
    {
        let stop_worker = self.worker_started;
        self.worker_started = false;
        stop_worker
    }

    /// The task's status line.
    pub fn status(&self) -> (status: String)
        ensures
            status@ == self@.status,
    {
        self.status.clone()
    }

    /// Replaces the status line; the worker reports how its crawl ended here.
    pub fn set_status(&mut self, status: String)
        ensures
            final(self)@ == (LoadTypesTaskView { status: status@, ..old(self)@ }),
    {
        self.status = status;
    }

    /// Whether a worker was started and not stopped.
    pub fn worker_started(&self) -> (started: bool)
        ensures
            started == self@.worker_started,
    {
        self.worker_started
    }

    /// The directory headers are gathered under.
    pub fn project_root(&self) -> (root: &String)
        ensures
            root@ == self@.project_root,
    {
        &self.project_root
    }

    /// The directories the crawler searches for included files.
    pub fn include_paths(&self) -> (paths: &Vec<String>)
        ensures
            paths.deep_view() == self@.include_paths,
    {
        &self.include_paths
    }

    /// The paths whose directories at or above are skipped.
    pub fn ignore_paths(&self) -> (paths: &Vec<String>)
        ensures
            paths.deep_view() == self@.ignore_paths,
    {
        &self.ignore_paths
    }

    /// Whether enums take as few bytes as their values allow.
    pub fn short_enums(&self) -> (short: bool)
        ensures
            short == self@.short_enums,
    {
        self.short_enums
    }

    /// The header files under `root`, as seen from the project root,
    /// skipping directories at or above an ignore path.
    pub fn find_header_files(&self, root: &FsEntry) -> (found: Vec<String>)
        ensures
            found.deep_view() == tree_headers(self@.ignore_paths, *root),
            tree_wf(*root) ==> forall|i: int|
                0 <= i < found.deep_view().len() ==> strictly_under(
                    #[trigger] found.deep_view()[i],
                    entry_path(*root),
                ),
            tree_wf(*root) ==> found.deep_view().no_duplicates(),
    {
        find_header_files(&self.ignore_paths, root)
    }
}

/// What the worker does next.
#[derive(Clone, Copy, Debug, PartialEq, Eq)]
pub enum CrawlAction {
    /// Stop without storing any type: a stop was asked for.
    Abort,
    /// Show header `index` as the status and crawl it.
    Parse(usize),
    /// All headers are crawled: store the types and report the count.
    Finish,
}

/// The worker's progress through `total` headers.
#[derive(Clone, Copy, Debug)]
pub struct CrawlProgress {
    pub next: usize,
    pub total: usize,
    pub done: bool,
}

/// Progress and action after one step from `p`, given whether a stop was
/// asked for since the last step: a stop is noticed before each header,
/// not after the last one.
pub open spec fn crawl_step(p: CrawlProgress, stop_requested: bool) -> (CrawlProgress, CrawlAction) {
    if p.next < p.total {
        if stop_requested {
            (CrawlProgress { done: true, ..p }, CrawlAction::Abort)
        } else {
            (CrawlProgress { next: (p.next + 1) as usize, ..p }, CrawlAction::Parse(p.next))
        }
    } else {
        (CrawlProgress { done: true, ..p }, CrawlAction::Finish)
    }
}

/// The progress after `k` steps from the start that were never asked to stop.
pub open spec fn uninterrupted(total: usize, k: nat) -> CrawlProgress
    decreases k,
{
    if k == 0 {
        CrawlProgress { next: 0, total, done: false }
    } else {
        crawl_step(uninterrupted(total, (k - 1) as nat), false).0
    }
}

impl CrawlProgress {
    /// Well-formed progress: never past the end.
    pub open spec fn wf(self) -> bool {
        self.next <= self.total
    }

    /// Progress before the first of `total` headers.
    pub fn new(total: usize) -> (p: Self)
        ensures
            p == (CrawlProgress { next: 0, total, done: false }),
    {
        CrawlProgress { next: 0, total, done: false }
    }

    /// Takes one step, `stop_requested` telling whether the worker was asked
    /// to stop.
    pub fn step(&mut self, stop_requested: bool) -> (action: CrawlAction)
        requires
            old(self).wf(),
            !old(self).done,
        ensures
            (*final(self), action) == crawl_step(*old(self), stop_requested),
            final(self).wf(),
    {
        if self.next < self.total {
            if stop_requested {
                self.done = true;
                CrawlAction::Abort
            } else {
                let index = self.next;
                self.next = self.next + 1;
                CrawlAction::Parse(index)
            }
        } else {
            self.done = true;
            CrawlAction::Finish
        }
    }
}

/// A worker that is never asked to stop crawls every header once, in order,
/// and then finishes.
pub proof fn crawl_visits_each_header_in_order(total: usize, k: nat)
    requires
        k <= total,
    ensures
        uninterrupted(total, k) == (CrawlProgress { next: k as usize, total, done: false }),
        k < total ==> crawl_step(uninterrupted(total, k), false).1 == CrawlAction::Parse(k as usize),
        k == total ==> crawl_step(uninterrupted(total, k), false).1 == CrawlAction::Finish,
    decreases k,
{
    if k > 0 {
        crawl_visits_each_header_in_order(total, (k - 1) as nat);
    }
}

/// A stop asked for before a header is crawled ends the crawl there, and a
/// step taken with a stop asked for never crawls a header.
pub proof fn crawl_stops_when_asked(p: CrawlProgress)
    requires
        p.wf(),
        !p.done,
    ensures
        p.next < p.total ==> crawl_step(p, true) == (
            CrawlProgress { done: true, ..p },
            CrawlAction::Abort,
        ),
        crawl_step(p, true).0.done,
        !(crawl_step(p, true).1 is Parse),
{
}

/// Starting a task starts a worker only when none runs, so starting twice
/// starts one worker; stopping a task always lets it be started again; and
/// starting a stopped task and then stopping it gives back the same task.
pub proof fn run_and_terminate_pair_up(task: LoadTypesTaskView)
    ensures
        run_starts_worker(task) ==> !run_starts_worker(ran(task)),
        run_starts_worker(terminated(task)),
        !task.worker_started ==> terminated(ran(task)) == task,
        terminated(terminated(task)) == terminated(task),
{
}

/// A crawl finishes only once every header was crawled, and crawls the
/// headers in their order.
pub proof fn crawl_finishes_only_at_the_end(p: CrawlProgress, stop_requested: bool)
    requires
        p.wf(),
    ensures
        crawl_step(p, stop_requested).1 == CrawlAction::Finish ==> p.next == p.total,
        crawl_step(p, stop_requested).1 matches CrawlAction::Parse(index) ==> index == p.next
            && index < p.total,
{
}

/// A worker that is never asked to stop shows, step after step, each header
/// it crawls, in order; the end of the crawl leaves the last one shown.
pub proof fn crawl_reports_each_header_in_order(
    headers: Seq<Seq<char>>,
    status: Seq<char>,
    k: nat,
)
    requires
        headers.len() <= usize::MAX,
        k <= headers.len(),
    ensures
        k < headers.len() ==> status_after(
            status,
            crawl_step(uninterrupted(headers.len() as usize, k), false).1,
            headers,
        ) == headers[k as int],
        k == headers.len() ==> status_after(
            status,
            crawl_step(uninterrupted(headers.len() as usize, k), false).1,
            headers,
        ) == status,
{
    crawl_visits_each_header_in_order(headers.len() as usize, k);
}

} // verus!
