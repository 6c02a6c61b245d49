//! Word-boundary arithmetic on the query's byte buffer: the positions the
//! cursor jumps to when moving or deleting by whole words.

use vstd::prelude::*;

verus! {

/// A byte that separates words in a query: space, hyphen or underscore.
pub open spec fn spec_word_boundary(b: u8) -> bool {
    b == 32 || b == 45 || b == 95
}

/// True when there is a word-boundary byte in `s[from..to]`.
pub open spec fn has_boundary_in(s: Seq<u8>, from: int, to: int) -> bool {
    exists|j: int| from <= j < to && spec_word_boundary(s[j])
}

/// How far a backwards word scan from `pos` looks: one byte short of the
/// cursor, clamped to the buffer.
pub open spec fn back_scan_limit(s: Seq<u8>, pos: int) -> int {
    if pos == 0 {
        0
    } else if pos - 1 <= s.len() {
        pos - 1
    } else {
        s.len() as int
    }
}

/// Position just after the last word-boundary byte strictly below `k`, or 0
/// when there is none.
pub open spec fn last_boundary_end(s: Seq<u8>, k: int) -> int
    decreases k,
{
    if k <= 0 {
        0
    } else if spec_word_boundary(s[k - 1]) {
        k
    } else {
        last_boundary_end(s, k - 1)
    }
}

/// Where a backwards word jump from `pos` stops.
pub open spec fn spec_last_word_end(s: Seq<u8>, pos: int) -> int {
    last_boundary_end(s, back_scan_limit(s, pos))
}

/// Position just after the first word-boundary byte at or after `i`, or the
/// length when there is none.
pub open spec fn first_boundary_past(s: Seq<u8>, i: int) -> int
    decreases s.len() - i,
{
    if i < 0 || i >= s.len() {
        s.len() as int
    } else if spec_word_boundary(s[i]) {
        i + 1
    } else {
        first_boundary_past(s, i + 1)
    }
}

proof fn lemma_last_boundary_end_skip(s: Seq<u8>, i: int, k: int)
    requires
        0 <= i <= k,
        forall|j: int| i <= j < k ==> !spec_word_boundary(#[trigger] s[j]),
    ensures
        last_boundary_end(s, k) == last_boundary_end(s, i),
    decreases k - i,
{
    if i < k {
        lemma_last_boundary_end_skip(s, i, k - 1);
    }
}

proof fn lemma_first_boundary_past_skip(s: Seq<u8>, i: int, k: int)
    requires
        0 <= i <= k <= s.len(),
        forall|j: int| i <= j < k ==> !spec_word_boundary(#[trigger] s[j]),
    ensures
        first_boundary_past(s, i) == first_boundary_past(s, k),
    decreases k - i,
{
    if i < k {
        lemma_first_boundary_past_skip(s, i + 1, k);
    }
}

pub fn is_word_boundary(byte: &u8) -> (r: bool)
    ensures
        r == spec_word_boundary(*byte),
{
    *byte == 32 || *byte == 45 || *byte == 95
}

/// Position just after the last word-boundary byte strictly before
/// `pos - 1`, or 0 when there is none: where a backwards word jump or a
/// word delete from `pos` stops.
pub fn last_word_end_at(bytes: &[u8], pos: usize) -> (r: usize)
    ensures
        r == spec_last_word_end(bytes@, pos as int),
        ({
            let k = back_scan_limit(bytes@, pos as int);
            &&& r <= k
            &&& r > 0 ==> spec_word_boundary(bytes@[r - 1])
            &&& forall|j: int| r <= j < k ==> !spec_word_boundary(#[trigger] bytes@[j])
        }),
{
    let k = if pos == 0 {
        0
    } else if pos - 1 <= bytes.len() {
        pos - 1
    } else {
        bytes.len()
    };
    let mut i = k;
    while i > 0
        invariant
            i <= k,
            k <= bytes@.len(),
            k == back_scan_limit(bytes@, pos as int),
            forall|j: int| i <= j < k ==> !spec_word_boundary(#[trigger] bytes@[j]),
        decreases i,
    {
        i = i - 1;
        if is_word_boundary(&bytes[i]) {
            proof {
                lemma_last_boundary_end_skip(bytes@, i + 1, k as int);
            }
            return i + 1;
        }
    }
    proof {
        lemma_last_boundary_end_skip(bytes@, 0, k as int);
    }
    0
}

/// The original entry point, with the cursor given as a 16-bit offset.
pub fn last_word_end(bytes: &[u8], pos: u16) -> (r: usize)
    ensures
        r == spec_last_word_end(bytes@, pos as int),
        ({
            let k = back_scan_limit(bytes@, pos as int);
            &&& r <= k
            &&& r > 0 ==> spec_word_boundary(bytes@[r - 1])
            &&& forall|j: int| r <= j < k ==> !spec_word_boundary(#[trigger] bytes@[j])
        }),
{
    last_word_end_at(bytes, pos as usize)
}

/// Position just after the first word-boundary byte at or beyond `pos`, or
/// the buffer length when there is none: where a forwards word jump from
/// `pos` stops.
pub fn next_word_start_at(bytes: &[u8], pos: usize) -> (r: usize)
    ensures
        r == first_boundary_past(bytes@, pos as int),
        r <= bytes@.len(),
        has_boundary_in(bytes@, pos as int, bytes@.len() as int) ==> {
            &&& r >= pos + 1
            &&& spec_word_boundary(bytes@[r - 1])
            &&& forall|j: int| pos <= j < r - 1 ==> !spec_word_boundary(#[trigger] bytes@[j])
        },
        !has_boundary_in(bytes@, pos as int, bytes@.len() as int) ==> r == bytes@.len(),
{
    let mut i = pos;
    while i < bytes.len()
        invariant
            pos <= i,
            i <= bytes@.len() || pos > bytes@.len(),
            forall|j: int| pos <= j < i ==> j < bytes@.len() ==> !spec_word_boundary(#[trigger] bytes@[j]),
        decreases bytes@.len() - i,
    {
        if is_word_boundary(&bytes[i]) {
            proof {
                if pos <= i {
                    lemma_first_boundary_past_skip(bytes@, pos as int, i as int);
                }
            }
            return i + 1;
        }
        i = i + 1;
    }
    proof {
        if pos <= bytes@.len() {
            lemma_first_boundary_past_skip(bytes@, pos as int, bytes@.len() as int);
        }
    }
    bytes.len()
}

/// The original entry point, with the cursor given as a 16-bit offset.
pub fn next_word_start(bytes: &[u8], pos: u16) -> (r: usize)
    ensures
        r == first_boundary_past(bytes@, pos as int),
        r <= bytes@.len(),
        has_boundary_in(bytes@, pos as int, bytes@.len() as int) ==> {
            &&& r >= pos + 1
            &&& spec_word_boundary(bytes@[r - 1])
            &&& forall|j: int| pos <= j < r - 1 ==> !spec_word_boundary(#[trigger] bytes@[j])
        },
        !has_boundary_in(bytes@, pos as int, bytes@.len() as int) ==> r == bytes@.len(),
{
    next_word_start_at(bytes, pos as usize)
}

} // verus!
