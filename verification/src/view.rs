//! The view model: how a cursor into the current view maps to a catalog
//! position, and the page arithmetic that vertical and horizontal navigation
//! follow. Vertical steps wrap at both ends; page jumps land on page starts
//! and wrap from the last page to the first.

use vstd::prelude::*;

use vstd::arithmetic::div_mod::lemma_div_is_ordered;
use vstd::arithmetic::div_mod::lemma_div_by_multiple;
use vstd::arithmetic::div_mod::lemma_fundamental_div_mod;
use vstd::arithmetic::div_mod::lemma_mod_bound;
use vstd::arithmetic::div_mod::lemma_add_mod_noop;
use vstd::arithmetic::div_mod::lemma_mod_multiples_vanish;
use vstd::arithmetic::div_mod::lemma_small_mod;
use vstd::arithmetic::mul::lemma_mul_inequality;

use crate::search::contains_bytes;
use crate::search::matching_positions;
use crate::search::spec_search;
use crate::search::Shown;
use crate::search::ShownView;

verus! {

/// How many rows the view has: the whole catalog when unfiltered, otherwise
/// the number of matches.
pub open spec fn spec_view_len(s: ShownView, catalog_len: int) -> int {
    match s {
        ShownView::All => catalog_len,
        ShownView::Few(ps) => ps.len() as int,
    }
}

/// A filtered view only holds valid catalog positions.
pub open spec fn wf_shown(s: ShownView, catalog_len: int) -> bool {
    match s {
        ShownView::All => true,
        ShownView::Few(ps) => forall|k: int| 0 <= k < ps.len() ==> #[trigger] ps[k] < catalog_len,
    }
}

/// The catalog position a view position stands for: the identity when
/// unfiltered, the stored position when filtered, and the raw value itself
/// when it is out of range (a defensive default, not a normal path).
pub open spec fn spec_resolve(s: ShownView, idx: int) -> int {
    match s {
        ShownView::All => idx,
        ShownView::Few(ps) => if 0 <= idx < ps.len() {
            ps[idx] as int
        } else {
            idx
        },
    }
}

/// The length of the current view.
pub fn view_length(shown: &Shown, catalog_len: usize) -> (r: usize)
    ensures
        r == spec_view_len(shown@, catalog_len as int),
{
    match shown {
        Shown::All => catalog_len,
        Shown::Few(v) => v.len(),
    }
}

/// Map a view position to its catalog position.
pub fn resolve(shown: &Shown, idx: usize) -> (r: usize)
    ensures
        r == spec_resolve(shown@, idx as int),
{
    match shown {
        Shown::All => idx,
        Shown::Few(v) => {
            if idx < v.len() {
                v[idx]
            } else {
                idx
            }
        },
    }
}

/// One step down, wrapping from the last position to 0; a no-op on an empty
/// view.
pub open spec fn spec_step_down(c: int, len: int) -> int {
    if len == 0 {
        c
    } else if c < len - 1 {
        c + 1
    } else {
        0
    }
}

/// One step up, wrapping from 0 to the last position; a no-op on an empty
/// view.
pub open spec fn spec_step_up(c: int, len: int) -> int {
    if len == 0 {
        c
    } else if c > 0 {
        c - 1
    } else {
        len - 1
    }
}

pub fn step_down(current: usize, view_len: usize) -> (r: usize)
    requires
        view_len > 0 ==> current < view_len,
    ensures
        r == spec_step_down(current as int, view_len as int),
        view_len > 0 ==> r < view_len,
{
    if view_len == 0 {
        current
    } else if current < view_len - 1 {
        current + 1
    } else {
        0
    }
}

pub fn step_up(current: usize, view_len: usize) -> (r: usize)
    requires
        view_len > 0 ==> current < view_len,
    ensures
        r == spec_step_up(current as int, view_len as int),
        view_len > 0 ==> r < view_len,
{
    if view_len == 0 {
        current
    } else if current > 0 {
        current - 1
    } else {
        view_len - 1
    }
}

/// Stepping down from the last position wraps to 0, stepping up from 0 wraps
/// to the last position, and both leave an empty view's cursor alone.
pub proof fn lemma_vertical_wrap(c: int, len: int)
    ensures
        len > 0 ==> spec_step_down(len - 1, len) == 0,
        len > 0 ==> spec_step_up(0, len) == len - 1,
        len == 0 ==> spec_step_down(c, len) == c && spec_step_up(c, len) == c,
{
}

/// How many pages a view of `len` rows has with `per` rows per page.
pub open spec fn num_pages(len: int, per: int) -> int
    recommends
        len >= 1,
        per >= 1,
{
    (len - 1) / per + 1
}

/// `num_pages` is the ceiling of `len / per`: its pages cover the whole
/// view, and one page fewer would not.
pub proof fn lemma_num_pages_is_ceiling(len: int, per: int)
    requires
        len >= 1,
        per >= 1,
    ensures
        num_pages(len, per) * per >= len,
        (num_pages(len, per) - 1) * per < len,
        num_pages(len, per) >= 1,
{
    let q = (len - 1) / per;
    lemma_fundamental_div_mod(len - 1, per);
    lemma_mod_bound(len - 1, per);
    vstd::arithmetic::div_mod::lemma_div_pos_is_pos(len - 1, per);
    assert((q + 1) * per == q * per + per) by (nonlinear_arith);
    vstd::arithmetic::mul::lemma_mul_is_commutative(q, per);
}

/// The cursor after a "next page" jump: the start of the following page,
/// wrapping from the last page to the first; a no-op when everything fits on
/// one page.
pub open spec fn spec_next_page(c: int, len: int, per: int) -> int
    recommends
        per >= 1,
{
    if len <= per {
        c
    } else {
        ((c / per + 1) % num_pages(len, per)) * per
    }
}

/// The cursor after a "previous page" jump: the start of the preceding page,
/// wrapping from the first page to the last; a no-op when everything fits on
/// one page.
pub open spec fn spec_prev_page(c: int, len: int, per: int) -> int
    recommends
        per >= 1,
{
    if len <= per {
        c
    } else {
        ((c / per + num_pages(len, per) - 1) % num_pages(len, per)) * per
    }
}

/// A page start times the page size stays below the view length.
proof fn lemma_page_start_in_range(np: int, len: int, per: int)
    requires
        per >= 1,
        len > per,
        0 <= np < num_pages(len, per),
    ensures
        np * per <= len - 1,
        np * per >= 0,
{
    let q = (len - 1) / per;
    lemma_mul_inequality(np, q, per);
    lemma_fundamental_div_mod(len - 1, per);
    lemma_mod_bound(len - 1, per);
    vstd::arithmetic::mul::lemma_mul_is_commutative(q, per);
    lemma_mul_inequality(0, np, per);
}

pub fn next_page(current: usize, view_len: usize, per_page: usize) -> (r: usize)
    requires
        per_page >= 1,
        view_len > 0 ==> current < view_len,
    ensures
        r == spec_next_page(current as int, view_len as int, per_page as int),
        view_len > 0 ==> r < view_len,
{
    if view_len <= per_page {
        return current;
    }
    proof {
        lemma_div_is_ordered(view_len - 1, view_len as int, per_page as int);
        lemma_div_is_ordered(current as int, view_len - 1, per_page as int);
        assert((view_len - 1) as int / (per_page as int) <= view_len - 1) by (nonlinear_arith)
            requires
                per_page >= 1,
                view_len >= 1,
        ;
    }
    let pages = (view_len - 1) / per_page + 1;
    let page = current / per_page;
    let np = (page + 1) % pages;
    proof {
        lemma_mod_bound(page + 1, pages as int);
        lemma_page_start_in_range(np as int, view_len as int, per_page as int);
    }
    np * per_page
}

pub fn prev_page(current: usize, view_len: usize, per_page: usize) -> (r: usize)
    requires
        per_page >= 1,
        view_len > 0 ==> current < view_len,
    ensures
        r == spec_prev_page(current as int, view_len as int, per_page as int),
        view_len > 0 ==> r < view_len,
{
    if view_len <= per_page {
        return current;
    }
    proof {
        lemma_div_is_ordered(view_len - 1, view_len as int, per_page as int);
        lemma_div_is_ordered(current as int, view_len - 1, per_page as int);
        assert((view_len - 1) as int / (per_page as int) <= view_len - 1) by (nonlinear_arith)
            requires
                per_page >= 1,
                view_len >= 1,
        ;
    }
    let pages = (view_len - 1) / per_page + 1;
    let page = current / per_page;
    let np = if page == 0 {
        pages - 1
    } else {
        page - 1
    };
    proof {
        let n = pages as int;
        if page == 0 {
            lemma_mod_multiples_vanish(1, n - 1, n);
            lemma_small_mod((n - 1) as nat, n as nat);
        } else {
            lemma_mod_multiples_vanish(1, page - 1, n);
            lemma_small_mod((page - 1) as nat, n as nat);
        }
        lemma_mod_bound(page + n - 1, n);
        lemma_page_start_in_range(np as int, view_len as int, per_page as int);
    }
    np * per_page
}

/// The page a cursor position lies on.
pub fn page_of(current: usize, per_page: usize) -> (r: usize)
    requires
        per_page >= 1,
    ensures
        r == current as int / per_page as int,
{
    current / per_page
}

/// The row of the cursor within its page.
pub fn row_in_page(current: usize, per_page: usize) -> (r: usize)
    requires
        per_page >= 1,
    ensures
        r == current as int % per_page as int,
        r <= current,
{
    proof {
        lemma_mod_bound(current as int, per_page as int);
        lemma_fundamental_div_mod(current as int, per_page as int);
        assert(current as int / per_page as int * per_page as int >= 0) by (nonlinear_arith)
            requires
                per_page >= 1,
                current >= 0,
        ;
    }
    current % per_page
}

/// The number of visible result rows on a terminal of this height: five rows
/// are reserved for borders and the banner.
pub fn page_size(height: usize) -> (r: usize)
    requires
        height >= 6,
    ensures
        r == height - 5,
        r >= 1,
{
    height - 5
}

/// `k` applications of "next page".
pub open spec fn iterate_next(c: int, len: int, per: int, k: int) -> int
    decreases k,
{
    if k <= 0 {
        c
    } else {
        iterate_next(spec_next_page(c, len, per), len, per, k - 1)
    }
}

/// From the start of page `p`, `k` next-page jumps land on the start of page
/// `(p + k) % num_pages`.
proof fn lemma_iterate_from_page_start(p: int, len: int, per: int, k: int)
    requires
        per >= 1,
        len > per,
        0 <= p < num_pages(len, per),
        k >= 0,
    ensures
        iterate_next(p * per, len, per, k) == ((p + k) % num_pages(len, per)) * per,
    decreases k,
{
    let n = num_pages(len, per);
    lemma_mod_bound(p + k, n);
    if k == 0 {
        lemma_small_mod(p as nat, n as nat);
    } else {
        lemma_page_start_in_range(p, len, per);
        lemma_div_by_multiple(p, per);
        assert(spec_next_page(p * per, len, per) == ((p + 1) % n) * per);
        lemma_mod_bound(p + 1, n);
        let p1 = (p + 1) % n;
        lemma_iterate_from_page_start(p1, len, per, k - 1);
        vstd::arithmetic::div_mod::lemma_add_mod_noop_right(p1, k - 1, n);
        lemma_add_mod_noop(p + 1, k - 1, n);
        assert((p1 + (k - 1)) % n == (p1 + (k - 1) % n) % n);
        assert((p1 + (k - 1) % n) % n == ((p + 1) % n + (k - 1) % n) % n);
        assert(((p + 1) % n + (k - 1) % n) % n == (p + 1 + (k - 1)) % n);
        assert((p1 + (k - 1)) % n == (p + k) % n);
    }
}

/// Applying "next page" once per page of the view returns the cursor to the
/// page it started on.
pub proof fn lemma_next_page_cycle(c: int, len: int, per: int)
    requires
        per >= 1,
        len > per,
        0 <= c < len,
    ensures
        iterate_next(c, len, per, num_pages(len, per)) / per == c / per,
{
    let n = num_pages(len, per);
    let p0 = c / per;
    lemma_div_is_ordered(c, len - 1, per);
    assert(0 <= p0 < n) by {
        vstd::arithmetic::div_mod::lemma_div_pos_is_pos(c, per);
    }
    lemma_mod_bound(p0 + 1, n);
    let p1 = (p0 + 1) % n;
    assert(iterate_next(c, len, per, n) == iterate_next(p1 * per, len, per, n - 1));
    lemma_iterate_from_page_start(p1, len, per, n - 1);
    lemma_add_mod_noop(p0 + 1, n - 1, n);
    lemma_small_mod((n - 1) as nat, n as nat);
    assert((p1 + (n - 1)) % n == (p0 + 1 + (n - 1)) % n);
    lemma_mod_multiples_vanish(1, p0, n);
    lemma_small_mod(p0 as nat, n as nat);
    assert((p0 + n) % n == p0);
    assert(iterate_next(c, len, per, n) == p0 * per);
    lemma_div_by_multiple(p0, per);
}

/// "Previous page" from anywhere on the first page lands on the start of the
/// last page.
pub proof fn lemma_prev_page_wraps(c: int, len: int, per: int)
    requires
        per >= 1,
        len > per,
        0 <= c < per,
    ensures
        spec_prev_page(c, len, per) == (num_pages(len, per) - 1) * per,
        spec_prev_page(c, len, per) / per == num_pages(len, per) - 1,
{
    let n = num_pages(len, per);
    lemma_small_mod(c as nat, per as nat);
    vstd::arithmetic::div_mod::lemma_basic_div(c, per);
    assert(c / per == 0);
    lemma_mod_bound(n - 1, n);
    lemma_small_mod((n - 1) as nat, n as nat);
    lemma_div_by_multiple(n - 1, per);
}

/// What `search` returns is a well-formed view of its catalog: every stored
/// position is a valid catalog index, and the view is never longer than the
/// catalog.
pub proof fn lemma_search_result_wf(q: Seq<u8>, names: Seq<Seq<u8>>)
    requires
        names.len() <= usize::MAX,
    ensures
        wf_shown(spec_search(q, names), names.len() as int),
        spec_view_len(spec_search(q, names), names.len() as int) <= names.len(),
{
    if q.len() != 0 {
        crate::search::lemma_matching_positions_exact(names, q, names.len() as int);
    }
}

/// When every catalog name matches the query, a non-empty search resolves
/// exactly as the unfiltered view does: the materialized list is the
/// identity.
pub proof fn lemma_all_match_positions_identity(names: Seq<Seq<u8>>, q: Seq<u8>, upto: int)
    requires
        0 <= upto <= names.len(),
        names.len() <= usize::MAX,
        forall|i: int| 0 <= i < upto ==> contains_bytes(#[trigger] names[i], q),
    ensures
        matching_positions(names, q, upto) =~= Seq::new(upto as nat, |i: int| i as usize),
    decreases upto,
{
    if upto > 0 {
        lemma_all_match_positions_identity(names, q, upto - 1);
    }
}

/// A query that matches every catalog name behaves, for resolution purposes,
/// exactly like the empty query's unfiltered view: same view length, same
/// catalog position for every cursor value.
pub proof fn lemma_full_match_like_unfiltered(q: Seq<u8>, names: Seq<Seq<u8>>)
    requires
        q.len() > 0,
        names.len() <= usize::MAX,
        forall|i: int| 0 <= i < names.len() ==> contains_bytes(#[trigger] names[i], q),
    ensures
        spec_view_len(spec_search(q, names), names.len() as int) == spec_view_len(
            ShownView::All,
            names.len() as int,
        ),
        forall|c: int|
            0 <= c ==> spec_resolve(spec_search(q, names), c) == spec_resolve(
                ShownView::All,
                c,
            ),
{
    lemma_all_match_positions_identity(names, q, names.len() as int);
    let ps = matching_positions(names, q, names.len() as int);
    assert forall|c: int| 0 <= c implies spec_resolve(spec_search(q, names), c) == spec_resolve(
        ShownView::All,
        c,
    ) by {
        if c < ps.len() {
            assert(ps[c] == c as usize);
        }
    }
}

} // verus!
