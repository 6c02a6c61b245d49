//! The filter engine: a pure map from a query and the catalog to a view,
//! either the whole catalog or the ordered list of catalog positions whose
//! name contains the query as a literal byte substring.

use vstd::prelude::*;

use crate::catalog::cs_get;
use crate::catalog::cs_len;
use crate::catalog::cs_names;

verus! {

/// What is currently shown: the whole catalog, or a materialized, ascending
/// list of matching catalog positions.
pub enum Shown {
    All,
    Few(Vec<usize>),
}

/// The mathematical shape of a `Shown`.
pub enum ShownView {
    All,
    Few(Seq<usize>),
}

impl View for Shown {
    type V = ShownView;

    open spec fn view(&self) -> ShownView {
        match self {
            Shown::All => ShownView::All,
            Shown::Few(v) => ShownView::Few(v@),
        }
    }
}

/// The query occurs in `hay` starting at position `i`.
pub open spec fn contains_at(hay: Seq<u8>, needle: Seq<u8>, i: int) -> bool {
    0 <= i && i + needle.len() <= hay.len() && hay.subrange(i, i + needle.len()) == needle
}

/// Literal substring containment of `needle` in `hay`.
pub open spec fn contains_bytes(hay: Seq<u8>, needle: Seq<u8>) -> bool {
    exists|i: int| contains_at(hay, needle, i)
}

/// The catalog positions below `upto` whose name contains the query, in
/// ascending order.
pub open spec fn matching_positions(names: Seq<Seq<u8>>, q: Seq<u8>, upto: int) -> Seq<usize>
    decreases upto,
{
    if upto <= 0 {
        Seq::empty()
    } else if contains_bytes(names[upto - 1], q) {
        matching_positions(names, q, upto - 1).push((upto - 1) as usize)
    } else {
        matching_positions(names, q, upto - 1)
    }
}

/// What `search` produces: everything for the empty query, otherwise exactly
/// the matching positions in catalog order.
pub open spec fn spec_search(q: Seq<u8>, names: Seq<Seq<u8>>) -> ShownView {
    if q.len() == 0 {
        ShownView::All
    } else {
        ShownView::Few(matching_positions(names, q, names.len() as int))
    }
}

/// Whether `needle` occurs in `hay` starting exactly at `start`.
fn matches_at(hay: &Vec<u8>, needle: &Vec<u8>, start: usize) -> (r: bool)
    requires
        start + needle@.len() <= hay@.len(),
    ensures
        r == contains_at(hay@, needle@, start as int),
{
    let hay_len = hay.len();
    let mut j: usize = 0;
    while j < needle.len()
        invariant
            j <= needle@.len(),
            hay_len == hay@.len(),
            start + needle@.len() <= hay_len,
            forall|t: int| 0 <= t < j ==> hay@[start + t] == #[trigger] needle@[t],
        decreases needle@.len() - j,
    {
        if hay[start + j] != needle[j] {
            assert(hay@.subrange(start as int, start + needle@.len())[j as int] != needle@[j as int]);
            return false;
        }
        j = j + 1;
    }
    assert(hay@.subrange(start as int, start + needle@.len()) =~= needle@);
    true
}

/// Literal, case-sensitive substring containment on byte strings.
pub fn contains_subslice(hay: &Vec<u8>, needle: &Vec<u8>) -> (r: bool)
    ensures
        r == contains_bytes(hay@, needle@),
{
    if needle.len() > hay.len() {
        assert(forall|i: int| !contains_at(hay@, needle@, i));
        return false;
    }
    if needle.len() == 0 {
        assert(contains_at(hay@, needle@, 0)) by {
            assert(hay@.subrange(0, 0) =~= needle@);
        }
        return true;
    }
    let hay_len = hay.len();
    let mut i: usize = 0;
    let last = hay.len() - needle.len();
    while i <= last
        invariant
            i <= last + 1,
            hay_len == hay@.len(),
            needle@.len() >= 1,
            last + needle@.len() == hay_len,
            forall|t: int| 0 <= t < i ==> !contains_at(hay@, needle@, t),
        decreases last - i + 1,
    {
        if matches_at(hay, needle, i) {
            return true;
        }
        i = i + 1;
    }
    assert(forall|t: int| contains_at(hay@, needle@, t) ==> 0 <= t <= last);
    false
}

/// The filter engine: the whole catalog for an empty query, otherwise the
/// ascending list of catalog positions whose name contains the query.
pub fn search(query: &Vec<u8>, packages: &compact_strings::CompactStrings) -> (r: Shown)
    ensures
        r@ == spec_search(query@, cs_names(*packages)),
{
    if query.len() == 0 {
        return Shown::All;
    }
    let n = cs_len(packages);
    let mut found: Vec<usize> = Vec::new();
    let mut i: usize = 0;
    while i < n
        invariant
            i <= n,
            n == cs_names(*packages).len(),
            found@ == matching_positions(cs_names(*packages), query@, i as int),
        decreases n - i,
    {
        let name = cs_get(packages, i);
        match name {
            Some(name) => {
                if contains_subslice(&name, query) {
                    found.push(i);
                }
            },
            None => {
                proof {
                    assert(false);
                }
            },
        }
        i = i + 1;
    }
    Shown::Few(found)
}

/// Every position a non-empty search returns is a valid catalog index, the
/// positions are strictly ascending, and a position appears exactly when its
/// name contains the query.
pub proof fn lemma_matching_positions_exact(names: Seq<Seq<u8>>, q: Seq<u8>, upto: int)
    requires
        upto <= names.len(),
        names.len() <= usize::MAX,
    ensures
        ({
            let ps = matching_positions(names, q, upto);
            &&& upto >= 0 ==> ps.len() <= upto
            &&& forall|k: int| 0 <= k < ps.len() ==> 0 <= #[trigger] ps[k] < upto
            &&& forall|a: int, b: int| 0 <= a < b < ps.len() ==> ps[a] < ps[b]
            &&& forall|p: usize| #[trigger] ps.contains(p) <==> p < upto && contains_bytes(
                names[p as int],
                q,
            )
        }),
    decreases upto,
{
    if upto > 0 {
        lemma_matching_positions_exact(names, q, upto - 1);
        let prev = matching_positions(names, q, upto - 1);
        let ps = matching_positions(names, q, upto);
        if contains_bytes(names[upto - 1], q) {
            let u1 = (upto - 1) as usize;
            assert(ps == prev.push(u1));
            assert(ps[ps.len() - 1] == u1);
            assert(ps.contains(u1));
            assert forall|p: usize| #[trigger] ps.contains(p) implies p < upto && contains_bytes(
                names[p as int],
                q,
            ) by {
                let k = choose|k: int| 0 <= k < ps.len() && ps[k] == p;
                if k < prev.len() {
                    assert(prev[k] == p);
                    assert(prev.contains(p));
                }
            }
            assert forall|p: usize|
                p < upto && contains_bytes(names[p as int], q) implies #[trigger] ps.contains(
                p,
            ) by {
                if p < upto - 1 {
                    assert(prev.contains(p));
                    let k = choose|k: int| 0 <= k < prev.len() && prev[k] == p;
                    assert(ps[k] == p);
                }
            }
            assert forall|a: int, b: int| 0 <= a < b < ps.len() implies ps[a] < ps[b] by {
                if b == ps.len() - 1 {
                    assert(ps[a] == prev[a]);
                    assert(prev[a] < upto - 1);
                } else {
                    assert(ps[a] == prev[a] && ps[b] == prev[b]);
                }
            }
        } else {
            assert forall|p: usize|
                p < upto && contains_bytes(names[p as int], q) implies #[trigger] ps.contains(
                p,
            ) by {
                assert(p != upto - 1);
                assert(prev.contains(p));
            }
        }
    }
}

/// A search with a non-empty query is a materialized list; an empty query is
/// the unfiltered catalog; the list holds exactly the matching positions, in
/// strictly ascending catalog order.
pub proof fn lemma_search_exact(q: Seq<u8>, names: Seq<Seq<u8>>)
    requires
        names.len() <= usize::MAX,
    ensures
        spec_search(q, names) is All <==> q.len() == 0,
        q.len() != 0 ==> ({
            let ps = spec_search(q, names)->Few_0;
            &&& forall|k: int| 0 <= k < ps.len() ==> 0 <= #[trigger] ps[k] < names.len()
            &&& forall|a: int, b: int| 0 <= a < b < ps.len() ==> ps[a] < ps[b]
            &&& forall|p: usize| #[trigger] ps.contains(p) <==> p < names.len() && contains_bytes(
                names[p as int],
                q,
            )
        }),
{
    if q.len() != 0 {
        lemma_matching_positions_exact(names, q, names.len() as int);
    }
}

/// Re-running a search with unchanged inputs yields an identical result: the
/// outcome is a function of the query and catalog alone.
pub proof fn lemma_search_deterministic(
    q: Seq<u8>,
    names: Seq<Seq<u8>>,
    r1: ShownView,
    r2: ShownView,
)
    requires
        r1 == spec_search(q, names),
        r2 == spec_search(q, names),
    ensures
        r1 == r2,
{
}

} // verus!
