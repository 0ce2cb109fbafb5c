//! Dump-file listing and executable discovery: the decisions, on plain
//! values.
//!
//! The filesystem itself stays outside the library: a driver enumerates
//! directory entries and checks which candidate paths exist, and the
//! functions here pick the dump files out, order them, and choose the
//! first usable location.

use vstd::prelude::*;
use vstd::seq_lib::*;
use vstd::string::*;

verus! {

/// A dump file found in a search: its path and its size in bytes.
#[derive(Debug, Clone)]
pub struct DumpFileInfo {
    /// Path of the file.
    pub path: String,
    /// Size of the file in bytes.
    pub size_bytes: u64,
}

/// One directory entry as a search sees it: the file's path, its bare
/// name, and its size.
#[derive(Debug, Clone)]
pub struct FileEntry {
    /// Path of the file.
    pub path: String,
    /// The file's name, the last component of the path.
    pub name: String,
    /// Size of the file in bytes.
    pub size_bytes: u64,
}

/// A candidate location, and whether it exists on this machine as the
/// right kind of node (a file for executables, a directory for dump
/// folders).
#[derive(Debug, Clone)]
pub struct PathCandidate {
    /// The candidate path.
    pub path: String,
    /// Whether the path exists and is the right kind of node.
    pub usable: bool,
}

/// The file name ends in `.dmp`, in any letter case, with at least one
/// character before the dot.
pub open spec fn is_dump_name(s: Seq<char>) -> bool {
    &&& s.len() >= 5
    &&& s[s.len() - 4] == '.'
    &&& (s[s.len() - 3] == 'd' || s[s.len() - 3] == 'D')
    &&& (s[s.len() - 2] == 'm' || s[s.len() - 2] == 'M')
    &&& (s[s.len() - 1] == 'p' || s[s.len() - 1] == 'P')
}

/// Whether `name` names a dump file: it ends in `.dmp` in any letter
/// case, with at least one character of stem before the dot.
pub fn has_dump_extension(name: &str) -> (r: bool)
    ensures
        r == is_dump_name(name@),
{
    let n = name.unicode_len();
    if n < 5 {
        return false;
    }
    let dot = name.get_char(n - 4);
    let d = name.get_char(n - 3);
    let m = name.get_char(n - 2);
    let p = name.get_char(n - 1);
    dot == '.' && (d == 'd' || d == 'D') && (m == 'm' || m == 'M') && (p == 'p' || p == 'P')
}

/// The dump files among the entries, in enumeration order.
pub open spec fn dump_infos_of(es: Seq<FileEntry>) -> Seq<DumpFileInfo> {
    es.filter(|e: FileEntry| is_dump_name(e.name@)).map_values(
        |e: FileEntry| DumpFileInfo { path: e.path, size_bytes: e.size_bytes },
    )
}

/// Sizes never increase along the sequence.
pub open spec fn sorted_by_size_desc(s: Seq<DumpFileInfo>) -> bool {
    forall|i: int, j: int| 0 <= i < j < s.len() ==> s[i].size_bytes >= s[j].size_bytes
}

/// Insert `x` before the first element smaller than it, keeping the
/// descending order; after any elements of equal size.
fn insert_by_size(v: &mut Vec<DumpFileInfo>, x: DumpFileInfo)
    requires
        sorted_by_size_desc(old(v)@),
    ensures
        sorted_by_size_desc(final(v)@),
        final(v)@.to_multiset() == old(v)@.to_multiset().insert(x),
{
    let mut p: usize = 0;
    while p < v.len() && x.size_bytes <= v[p].size_bytes
        invariant
            0 <= p <= v@.len(),
            v == old(v),
            forall|k: int| 0 <= k < p ==> v@[k].size_bytes >= x.size_bytes,
        decreases v@.len() - p,
    {
        p = p + 1;
    }
    let ghost pre = v@;
    let ghost pi = p as int;
    v.insert(p, x);
    proof {
        broadcast use vstd::seq_lib::group_to_multiset_ensures;

        assert(v@ == pre.insert(pi, x));
        assert forall|i: int, j: int| 0 <= i < j < v@.len() implies v@[i].size_bytes
            >= v@[j].size_bytes by {
            if j < pi {
            } else if i > pi {
            } else if i == pi && j > pi {
                assert(v@[j] == pre[j - 1]);
                if j - 1 > pi {
                    assert(pre[pi] == v@[pi + 1]);
                }
            } else if j == pi {
                assert(v@[i] == pre[i]);
            } else {
                assert(v@[i] == pre[i] && v@[j] == pre[j - 1]);
                if i < pi && j - 1 >= pi && pi < pre.len() {
                }
            }
        }
        assert(v@.remove(pi) =~= pre);
        assert(v@.remove(pi).to_multiset() =~= v@.to_multiset().remove(x));
        assert(v@.to_multiset().contains(x)) by {
            assert(v@[pi] == x);
        }
        assert(v@.to_multiset() =~= pre.to_multiset().insert(x));
    }
}

/// Pick the dump files out of the enumerated entries and order them by
/// size, largest first: exactly the entries whose name ends in `.dmp` in
/// any letter case come back, as path and size.
pub fn find_dump_files(entries: Vec<FileEntry>) -> (r: Vec<DumpFileInfo>)
    ensures
        sorted_by_size_desc(r@),
        r@.to_multiset() == dump_infos_of(entries@).to_multiset(),
{
    let ghost orig = entries@;
    let ghost dumpp = |e: FileEntry| is_dump_name(e.name@);
    let ghost infof = |e: FileEntry| DumpFileInfo { path: e.path, size_bytes: e.size_bytes };
    let mut rest = entries;
    let mut r: Vec<DumpFileInfo> = Vec::new();
    let ghost mut i: int = 0;
    proof {
        reveal(Seq::filter);
        assert(orig.take(0) =~= Seq::<FileEntry>::empty());
        assert(orig.take(0).filter(dumpp).map_values(infof) =~= r@);
    }
    while rest.len() > 0
        invariant
            0 <= i <= orig.len(),
            rest@ == orig.skip(i),
            sorted_by_size_desc(r@),
            r@.to_multiset() == orig.take(i).filter(dumpp).map_values(infof).to_multiset(),
            dumpp == (|e: FileEntry| is_dump_name(e.name@)),
            infof == (|e: FileEntry| DumpFileInfo { path: e.path, size_bytes: e.size_bytes }),
        decreases rest@.len(),
    {
        let e = rest.remove(0);
        proof {
            reveal(Seq::filter);
            broadcast use vstd::seq_lib::group_to_multiset_ensures;

            assert(e == orig[i]);
            assert(rest@ =~= orig.skip(i + 1));
            assert(orig.take(i + 1) =~= orig.take(i).push(orig[i]));
            assert(orig.take(i + 1).drop_last() =~= orig.take(i));
            if dumpp(orig[i]) {
                assert(orig.take(i + 1).filter(dumpp) =~= orig.take(i).filter(dumpp).push(
                    orig[i],
                ));
                assert(orig.take(i + 1).filter(dumpp).map_values(infof) =~= orig.take(
                    i,
                ).filter(dumpp).map_values(infof).push(infof(orig[i])));
            } else {
                assert(orig.take(i + 1).filter(dumpp) =~= orig.take(i).filter(dumpp));
            }
        }
        if has_dump_extension(e.name.as_str()) {
            let info = DumpFileInfo { path: e.path, size_bytes: e.size_bytes };
            insert_by_size(&mut r, info);
        }
        proof {
            i = i + 1;
        }
    }
    proof {
        assert(orig.take(i) =~= orig);
    }
    r
}

/// The first usable candidate's path, if any candidate is usable.
pub fn first_usable(candidates: &Vec<PathCandidate>) -> (r: Option<String>)
    ensures
        match r {
            Option::Some(p) => exists|i: int|
                0 <= i < candidates@.len() && candidates@[i].usable && p@
                    == candidates@[i].path@ && (forall|j: int|
                    0 <= j < i ==> !candidates@[j].usable),
            Option::None => forall|i: int|
                0 <= i < candidates@.len() ==> !candidates@[i].usable,
        },
{
    let mut i: usize = 0;
    while i < candidates.len()
        invariant
            0 <= i <= candidates@.len(),
            forall|j: int| 0 <= j < i ==> !candidates@[j].usable,
        decreases candidates@.len() - i,
    {
        if candidates[i].usable {
            return Some(candidates[i].path.clone());
        }
        i = i + 1;
    }
    None
}

/// Choose the debugger executable.
///
/// A given override is decisive: its path when it is a file, nothing
/// otherwise, with no fallback.  Without an override, the first usable
/// location wins — the caller lists the known install locations first and
/// the search-path hits after them.
pub fn find_cdb_executable(
    custom: Option<PathCandidate>,
    defaults: &Vec<PathCandidate>,
) -> (r: Option<String>)
    ensures
        custom matches Some(c) ==> match r {
            Option::Some(p) => c.usable && p@ == c.path@,
            Option::None => !c.usable,
        },
        custom is None ==> match r {
            Option::Some(p) => exists|i: int|
                0 <= i < defaults@.len() && defaults@[i].usable && p@ == defaults@[i].path@
                    && (forall|j: int| 0 <= j < i ==> !defaults@[j].usable),
            Option::None => forall|i: int| 0 <= i < defaults@.len() ==> !defaults@[i].usable,
        },
{
    match custom {
        Option::Some(c) => {
            if c.usable {
                Some(c.path)
            } else {
                None
            }
        },
        Option::None => first_usable(defaults),
    }
}

/// Choose the local dump directory: the first usable candidate.  The
/// caller lists the configured dump folders first, then the well-known
/// default directories.
pub fn get_local_dumps_path(candidates: &Vec<PathCandidate>) -> (r: Option<String>)
    ensures
        match r {
            Option::Some(p) => exists|i: int|
                0 <= i < candidates@.len() && candidates@[i].usable && p@
                    == candidates@[i].path@ && (forall|j: int|
                    0 <= j < i ==> !candidates@[j].usable),
            Option::None => forall|i: int|
                0 <= i < candidates@.len() ==> !candidates@[i].usable,
        },
{
    first_usable(candidates)
}

} // verus!
