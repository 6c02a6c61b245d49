//! The formatting rules of the result list: which rows of the view are on
//! the current page, each row's one-based index, the padding that aligns the
//! names, the style the row is drawn in, and the selection marker.

use vstd::prelude::*;

use std::collections::HashSet;

use crate::catalog::cs_get;
use crate::catalog::cs_len;
use crate::catalog::cs_names;
use crate::search::Shown;
use crate::view::resolve;
use crate::view::spec_resolve;
use crate::view::spec_view_len;
use crate::view::view_length;
use crate::view::wf_shown;

verus! {

broadcast use vstd::std_specs::hash::group_hash_axioms;

/// The number of decimal digits of `n`; 0 for 0.
pub open spec fn spec_digits(n: int) -> int
    decreases n,
{
    if n <= 0 {
        0
    } else {
        1 + spec_digits(n / 10)
    }
}

/// Count the decimal digits of `n`.
pub fn digit_count(n: usize) -> (r: usize)
    ensures
        r == spec_digits(n as int),
{
    let mut m = n;
    let mut d: usize = 0;
    while m > 0
        invariant
            spec_digits(n as int) == d + spec_digits(m as int),
            m <= n,
            d <= n - m,
        decreases m,
    {
        m = m / 10;
        d = d + 1;
    }
    d
}

/// The width that the index column pads to, given the widest index the view
/// can show: one more digit than the view length needs, plus one space.
pub fn pad_to_for(view_len: usize) -> (r: usize)
    requires
        view_len < usize::MAX,
    ensures
        r == spec_digits(view_len + 1),
{
    digit_count(view_len + 1)
}

/// How many spaces separate a row's index from its name.
pub open spec fn pad_width(pad_to: int, index: int) -> int {
    if pad_to + 2 >= spec_digits(index) {
        pad_to + 2 - spec_digits(index)
    } else {
        0
    }
}

/// How a result row is drawn, by whether its item is installed and whether
/// it is under the cursor.
#[derive(Clone, Copy, Debug, PartialEq, Eq, Structural)]
pub enum RowStyle {
    Installed,
    InstalledUnderCursor,
    Uninstalled,
    UninstalledUnderCursor,
}

/// The style of a row.
pub open spec fn spec_row_style(is_installed: bool, under_cursor: bool) -> RowStyle {
    match (is_installed, under_cursor) {
        (true, true) => RowStyle::InstalledUnderCursor,
        (true, false) => RowStyle::Installed,
        (false, true) => RowStyle::UninstalledUnderCursor,
        (false, false) => RowStyle::Uninstalled,
    }
}

/// One formatted row of the result list: a one-based index, the padding
/// after it, the item name, the draw style, and whether the row carries the
/// selection marker.
pub struct ResultRow {
    pub index: usize,
    pub pad: usize,
    pub name: Vec<u8>,
    pub style: RowStyle,
    pub marked: bool,
}

/// Format the page of the view that starts `skip` rows in, on a terminal of
/// the given height: at most `height - 5` rows, each describing the view
/// position it stands for.
pub fn format_results(
    packages: &compact_strings::CompactStrings,
    shown: &Shown,
    current: usize,
    selected: &HashSet<usize>,
    height: usize,
    pad_to: usize,
    skip: usize,
    installed: &HashSet<usize>,
) -> (r: Vec<ResultRow>)
    requires
        height >= 5,
        pad_to <= usize::MAX - 2,
        wf_shown(shown@, cs_names(*packages).len() as int),
        spec_view_len(shown@, cs_names(*packages).len() as int) <= cs_names(*packages).len(),
    ensures
        ({
            let names = cs_names(*packages);
            let len = spec_view_len(shown@, names.len() as int);
            let rows = if skip <= len {
                if len - skip <= height - 5 {
                    len - skip
                } else {
                    (height - 5) as int
                }
            } else {
                0
            };
            &&& r@.len() == rows
            &&& forall|j: int|
                0 <= j < rows ==> {
                    let vpos = skip + j;
                    let cpos = spec_resolve(shown@, vpos);
                    let row = #[trigger] r@[j];
                    &&& row.index == vpos + 1
                    &&& row.pad == pad_width(pad_to as int, vpos + 1)
                    &&& row.name@ == names[cpos]
                    &&& row.marked == selected@.contains(cpos as usize)
                    &&& row.style == spec_row_style(
                        installed@.contains(cpos as usize),
                        current == vpos,
                    )
                }
        }),
{
    let catalog_len = cs_len(packages);
    let view_len = view_length(shown, catalog_len);
    let avail = if skip < view_len {
        view_len - skip
    } else {
        0
    };
    let take = height - 5;
    let rows = if avail < take {
        avail
    } else {
        take
    };
    let mut r: Vec<ResultRow> = Vec::new();
    let mut j: usize = 0;
    while j < rows
        invariant
            j <= rows,
            rows <= view_len,
            rows == 0 || skip + rows <= view_len,
            catalog_len == cs_names(*packages).len(),
            view_len == spec_view_len(shown@, catalog_len as int),
            view_len <= catalog_len,
            pad_to <= usize::MAX - 2,
            wf_shown(shown@, catalog_len as int),
            r@.len() == j,
            forall|k: int|
                0 <= k < j ==> {
                    let vpos = skip + k;
                    let cpos = spec_resolve(shown@, vpos);
                    let row = #[trigger] r@[k];
                    &&& row.index == vpos + 1
                    &&& row.pad == pad_width(pad_to as int, vpos + 1)
                    &&& row.name@ == cs_names(*packages)[cpos]
                    &&& row.marked == selected@.contains(cpos as usize)
                    &&& row.style == spec_row_style(
                        installed@.contains(cpos as usize),
                        current == vpos,
                    )
                },
        decreases rows - j,
    {
        let vpos = skip + j;
        let cpos = resolve(shown, vpos);
        assert(cpos < catalog_len);
        let name = match cs_get(packages, cpos) {
            Some(name) => name,
            None => {
                proof {
                    assert(false);
                }
                Vec::new()
            },
        };
        let index = vpos + 1;
        let d = digit_count(index);
        let pad = if pad_to + 2 >= d {
            pad_to + 2 - d
        } else {
            0
        };
        let style = match (installed.contains(&cpos), current == vpos) {
            (true, true) => RowStyle::InstalledUnderCursor,
            (true, false) => RowStyle::Installed,
            (false, true) => RowStyle::UninstalledUnderCursor,
            (false, false) => RowStyle::Uninstalled,
        };
        let marked = selected.contains(&cpos);
        r.push(ResultRow { index, pad, name, style, marked });
        j = j + 1;
    }
    r
}

} // verus!
