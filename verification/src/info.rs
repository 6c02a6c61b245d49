//! The detail pane: when a background info fetch may be issued (immediately
//! for installed items, after a debounce delay otherwise), and how the raw
//! detail text is turned into display lines. A line beginning with a space
//! passes through unchanged, a line with a `key: value` shape is split into
//! a styled key segment and a plain value segment, and any other line is
//! dropped.

use vstd::prelude::*;

use std::collections::HashSet;

use crate::catalog::complete_lines;
use crate::catalog::open_tail;

verus! {

broadcast use vstd::std_specs::hash::group_hash_axioms;

/// Milliseconds an info fetch for a not-yet-installed item waits, so rapid
/// scrolling does not burst requests.
pub const DEBOUNCE_MILLIS: u64 = 200;

/// Decide an info fetch for the item at a catalog position: nothing when the
/// position is out of range, an immediate fetch when the item is known
/// installed, a debounced one otherwise.
pub fn plan_info_fetch(pos: usize, catalog_len: usize, installed: &HashSet<usize>) -> (r: Option<
    u64,
>)
    ensures
        pos >= catalog_len ==> r is None,
        pos < catalog_len ==> r == Some(
            if installed@.contains(pos) {
                0u64
            } else {
                DEBOUNCE_MILLIS
            },
        ),
{
    if pos >= catalog_len {
        None
    } else if installed.contains(&pos) {
        Some(0)
    } else {
        Some(DEBOUNCE_MILLIS)
    }
}

/// One display line of the detail pane: a pass-through continuation line, or
/// a split `key:` segment (shown styled) and value segment.
pub enum InfoLine {
    Plain(Vec<u8>),
    KeyValue(Vec<u8>, Vec<u8>),
}

/// The mathematical shape of an `InfoLine`.
pub enum InfoLineView {
    Plain(Seq<u8>),
    KeyValue(Seq<u8>, Seq<u8>),
}

impl View for InfoLine {
    type V = InfoLineView;

    open spec fn view(&self) -> InfoLineView {
        match self {
            InfoLine::Plain(l) => InfoLineView::Plain(l@),
            InfoLine::KeyValue(k, v) => InfoLineView::KeyValue(k@, v@),
        }
    }
}

/// The views of a sequence of display lines.
pub open spec fn views_of(ls: Seq<InfoLine>) -> Seq<InfoLineView> {
    ls.map_values(|l: InfoLine| l@)
}

/// The first position of a colon at or after `from`, or the length when
/// there is none.
pub open spec fn first_colon(s: Seq<u8>, from: int) -> int
    decreases s.len() - from,
{
    if from < 0 || from >= s.len() {
        s.len() as int
    } else if s[from] == 58 {
        from
    } else {
        first_colon(s, from + 1)
    }
}

/// How one raw line is displayed: indented lines pass through, `key: value`
/// lines are split just after the colon, anything else is dropped.
pub open spec fn classify(line: Seq<u8>) -> Option<InfoLineView> {
    if line.len() > 0 && line[0] == 32 {
        Some(InfoLineView::Plain(line))
    } else if first_colon(line, 0) < line.len() {
        let i = first_colon(line, 0);
        Some(InfoLineView::KeyValue(line.subrange(0, i + 1), line.subrange(i + 1, line.len() as int)))
    } else {
        None
    }
}

/// A newline-terminated line loses one trailing carriage return.
pub open spec fn strip_cr(line: Seq<u8>) -> Seq<u8> {
    if line.len() > 0 && line.last() == 13 {
        line.drop_last()
    } else {
        line
    }
}

/// The display lines of a list of raw lines, in order.
pub open spec fn info_of_lines(lines: Seq<Seq<u8>>) -> Seq<InfoLineView>
    decreases lines.len(),
{
    if lines.len() == 0 {
        Seq::empty()
    } else {
        let rest = info_of_lines(lines.drop_last());
        match classify(lines.last()) {
            Some(l) => rest.push(l),
            None => rest,
        }
    }
}

/// The display lines of the raw detail text: its newline-terminated lines
/// (each less a trailing carriage return) and the final unterminated line,
/// classified in order.
pub open spec fn spec_format_info(s: Seq<u8>) -> Seq<InfoLineView> {
    let terminated = info_of_lines(complete_lines(s).map_values(|l: Seq<u8>| strip_cr(l)));
    match classify(open_tail(s)) {
        Some(l) => terminated.push(l),
        None => terminated,
    }
}

/// The view of an optional display line.
pub open spec fn opt_view(r: Option<InfoLine>) -> Option<InfoLineView> {
    match r {
        Some(l) => Some(l@),
        None => None,
    }
}

proof fn lemma_first_colon_from(s: Seq<u8>, from: int, i: int)
    requires
        0 <= from <= i <= s.len(),
        forall|j: int| from <= j < i ==> s[j] != 58,
        i == s.len() || s[i] == 58,
    ensures
        first_colon(s, from) == if i < s.len() { i } else { s.len() as int },
    decreases i - from,
{
    if from < i {
        lemma_first_colon_from(s, from + 1, i);
    }
}

/// The bytes of `v[a..b]` as a fresh vector.
fn bytes_range(v: &Vec<u8>, a: usize, b: usize) -> (r: Vec<u8>)
    requires
        a <= b <= v@.len(),
    ensures
        r@ == v@.subrange(a as int, b as int),
{
    let mut r: Vec<u8> = Vec::new();
    let mut j: usize = a;
    while j < b
        invariant
            a <= j <= b <= v@.len(),
            r@ == v@.subrange(a as int, j as int),
        decreases b - j,
    {
        r.push(v[j]);
        assert(v@.subrange(a as int, j + 1) =~= v@.subrange(a as int, j as int).push(v@[j as int]));
        j = j + 1;
    }
    r
}

/// Display form of one raw line, already stripped of its line ending.
pub fn classify_line(line: &Vec<u8>) -> (r: Option<InfoLine>)
    ensures
        opt_view(r) == classify(line@),
{
    if line.len() > 0 && line[0] == 32 {
        let copy = bytes_range(line, 0, line.len());
        assert(copy@ =~= line@);
        return Some(InfoLine::Plain(copy));
    }
    let mut i: usize = 0;
    while i < line.len()
        invariant
            i <= line@.len(),
            !(line@.len() > 0 && line@[0] == 32),
            forall|j: int| 0 <= j < i ==> line@[j] != 58,
        decreases line@.len() - i,
    {
        if line[i] == 58 {
            proof {
                lemma_first_colon_from(line@, 0, i as int);
            }
            let key = bytes_range(line, 0, i + 1);
            let value = bytes_range(line, i + 1, line.len());
            return Some(InfoLine::KeyValue(key, value));
        }
        i = i + 1;
    }
    proof {
        lemma_first_colon_from(line@, 0, line@.len() as int);
    }
    None
}

/// Turn raw detail text into the display lines of the detail pane.
pub fn format_info(text: &Vec<u8>) -> (r: Vec<InfoLine>)
    ensures
        views_of(r@) == spec_format_info(text@),
{
    let mut out: Vec<InfoLine> = Vec::new();
    let mut buf: Vec<u8> = Vec::new();
    let mut i: usize = 0;
    while i < text.len()
        invariant
            i <= text@.len(),
            views_of(out@) == info_of_lines(
                complete_lines(text@.subrange(0, i as int)).map_values(|l: Seq<u8>| strip_cr(l)),
            ),
            buf@ == open_tail(text@.subrange(0, i as int)),
        decreases text@.len() - i,
    {
        let b = text[i];
        proof {
            assert(text@.subrange(0, i + 1).drop_last() =~= text@.subrange(0, i as int));
            assert(text@.subrange(0, i + 1).last() == b);
        }
        if b == 10 {
            let mut line = buf;
            buf = Vec::new();
            let ghost raw = line@;
            if line.len() > 0 && line[line.len() - 1] == 13 {
                line.pop();
            }
            assert(line@ == strip_cr(raw));
            proof {
                let prev = complete_lines(text@.subrange(0, i as int));
                let f = |l: Seq<u8>| strip_cr(l);
                assert(complete_lines(text@.subrange(0, i + 1)) == prev.push(raw));
                assert(prev.push(raw).map_values(f) =~= prev.map_values(f).push(strip_cr(raw)));
                assert(prev.map_values(f).push(strip_cr(raw)).drop_last() =~= prev.map_values(f));
            }
            match classify_line(&line) {
                Some(l) => {
                    out.push(l);
                    proof {
                        assert(views_of(out@) =~= views_of(out@.drop_last()).push(
                            out@.last()@,
                        ));
                    }
                },
                None => {},
            }
        } else {
            buf.push(b);
        }
        i = i + 1;
    }
    proof {
        assert(text@.subrange(0, text@.len() as int) =~= text@);
    }
    match classify_line(&buf) {
        Some(l) => {
            out.push(l);
            proof {
                assert(views_of(out@) =~= views_of(out@.drop_last()).push(out@.last()@));
            }
        },
        None => {},
    }
    out
}

} // verus!
