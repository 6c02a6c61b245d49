//! The installed-set resolver: which catalog positions count as "already
//! installed", given the directory names the filesystem scan found. A
//! position is installed exactly when its name equals one of those directory
//! names.

use vstd::prelude::*;

use std::collections::HashSet;

use crate::catalog::cs_get;
use crate::catalog::cs_len;
use crate::catalog::cs_names;

verus! {

broadcast use vstd::std_specs::hash::group_hash_axioms;

/// The byte strings of a list of byte vectors.
pub open spec fn byte_views(l: Seq<Vec<u8>>) -> Seq<Seq<u8>> {
    l.map_values(|v: Vec<u8>| v@)
}

/// `name` appears in the list.
pub open spec fn names_contain(list: Seq<Seq<u8>>, name: Seq<u8>) -> bool {
    exists|k: int| 0 <= k < list.len() && list[k] == name
}

/// Byte-string equality.
fn bytes_eq(a: &Vec<u8>, b: &Vec<u8>) -> (r: bool)
    ensures
        r == (a@ == b@),
{
    if a.len() != b.len() {
        return false;
    }
    let mut i: usize = 0;
    while i < a.len()
        invariant
            i <= a@.len(),
            a@.len() == b@.len(),
            forall|j: int| 0 <= j < i ==> a@[j] == #[trigger] b@[j],
        decreases a@.len() - i,
    {
        if a[i] != b[i] {
            return false;
        }
        i = i + 1;
    }
    assert(a@ =~= b@);
    true
}

/// Whether a name equals one of the scanned directory names.
fn name_in_list(list: &Vec<Vec<u8>>, name: &Vec<u8>) -> (r: bool)
    ensures
        r == names_contain(byte_views(list@), name@),
{
    let mut k: usize = 0;
    while k < list.len()
        invariant
            k <= list@.len(),
            forall|j: int| 0 <= j < k ==> #[trigger] list@[j]@ != name@,
        decreases list@.len() - k,
    {
        if bytes_eq(&list[k], name) {
            assert(byte_views(list@)[k as int] == name@);
            return true;
        }
        k = k + 1;
    }
    assert(forall|j: int| 0 <= j < list@.len() ==> #[trigger] byte_views(list@)[j] != name@);
    false
}

/// Compute the installed set: the catalog positions whose name matches one
/// of the directory names found by the filesystem scan, by exact string
/// equality.
pub fn resolve_installed(packages: &compact_strings::CompactStrings, dir_names: &Vec<Vec<u8>>) -> (out:
    HashSet<usize>)
    ensures
        forall|p: usize|
            out@.contains(p) <==> (p < cs_names(*packages).len() && names_contain(
                byte_views(dir_names@),
                cs_names(*packages)[p as int],
            )),
{
    let mut out: HashSet<usize> = HashSet::new();
    let n = cs_len(packages);
    let mut i: usize = 0;
    while i < n
        invariant
            i <= n,
            n == cs_names(*packages).len(),
            forall|p: usize|
                out@.contains(p) <==> (p < i && names_contain(
                    byte_views(dir_names@),
                    cs_names(*packages)[p as int],
                )),
        decreases n - i,
    {
        match cs_get(packages, i) {
            Some(name) => {
                if name_in_list(dir_names, &name) {
                    out.insert(i);
                }
            },
            None => {
                proof {
                    assert(false);
                }
            },
        }
        i = i + 1;
    }
    out
}

} // verus!
