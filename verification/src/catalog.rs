//! The catalog: an immutable, order-preserving sequence of item names, held
//! in a `compact_strings::CompactStrings` and modelled as a sequence of byte
//! strings. The catalog is built once from the newline-separated byte output
//! of the data source; lines that are not valid UTF-8 are dropped.

use vstd::prelude::*;

verus! {

#[verifier::external_type_specification]
#[verifier::external_body]
pub struct ExCompactStrings(compact_strings::CompactStrings);

/// The names stored in a `CompactStrings`, oldest first, each as its bytes.
pub uninterp spec fn cs_names(cs: compact_strings::CompactStrings) -> Seq<Seq<u8>>;

/// Whether `std::str::from_utf8` accepts these bytes.
pub uninterp spec fn utf8_ok(bytes: Seq<u8>) -> bool;

/// Relies on CompactStrings::new: the new store holds no strings.
#[verifier::external_body]
pub fn cs_new() -> (cs: compact_strings::CompactStrings)
    ensures
        cs_names(cs) == Seq::<Seq<u8>>::empty(),
{
    compact_strings::CompactStrings::new()
}

/// Relies on CompactStrings::len: the number of strings pushed so far.
#[verifier::external_body]
pub fn cs_len(cs: &compact_strings::CompactStrings) -> (n: usize)
    ensures
        n == cs_names(*cs).len(),
{
    cs.len()
}

/// Relies on CompactStrings::get: the string at that position, or nothing
/// when the position is past the end.
#[verifier::external_body]
pub fn cs_get(cs: &compact_strings::CompactStrings, index: usize) -> (r: Option<Vec<u8>>)
    ensures
        r is Some <==> index < cs_names(*cs).len(),
        r matches Some(name) ==> name@ == cs_names(*cs)[index as int],
{
    cs.get(index).map(|s| s.as_bytes().to_vec())
}

/// Relies on CompactStrings::push: appends the string at the back. The bytes
/// are turned into a string with std::str::from_utf8; when they are not
/// valid UTF-8 the store is left as it was.
#[verifier::external_body]
pub fn cs_push_line(cs: &mut compact_strings::CompactStrings, line: &Vec<u8>) -> (pushed: bool)
    ensures
        pushed == utf8_ok(line@),
        pushed ==> cs_names(*final(cs)) == cs_names(*old(cs)).push(line@),
        !pushed ==> cs_names(*final(cs)) == cs_names(*old(cs)),
{
    match std::str::from_utf8(line.as_slice()) {
        Ok(s) => {
            cs.push(s);
            true
        },
        Err(_) => false,
    }
}

/// The newline-terminated chunks of `s`, in order, newlines excluded.
pub open spec fn complete_lines(s: Seq<u8>) -> Seq<Seq<u8>>
    decreases s.len(),
{
    if s.len() == 0 {
        Seq::empty()
    } else if s.last() == 10 {
        complete_lines(s.drop_last()).push(open_tail(s.drop_last()))
    } else {
        complete_lines(s.drop_last())
    }
}

/// The bytes of `s` after its last newline: the line still being read.
pub open spec fn open_tail(s: Seq<u8>) -> Seq<u8>
    decreases s.len(),
{
    if s.len() == 0 {
        Seq::empty()
    } else if s.last() == 10 {
        Seq::empty()
    } else {
        open_tail(s.drop_last()).push(s.last())
    }
}

/// The lines that survive the UTF-8 gate, in order.
pub open spec fn kept_lines(lines: Seq<Seq<u8>>) -> Seq<Seq<u8>>
    decreases lines.len(),
{
    if lines.len() == 0 {
        Seq::empty()
    } else if utf8_ok(lines.last()) {
        kept_lines(lines.drop_last()).push(lines.last())
    } else {
        kept_lines(lines.drop_last())
    }
}

/// Build the catalog from the raw byte stream of the data source: each
/// newline-terminated line that is valid UTF-8 becomes one name, in stream
/// order; bytes after the last newline are discarded.
pub fn build_catalog(bytes: &Vec<u8>) -> (cs: compact_strings::CompactStrings)
    ensures
        cs_names(cs) == kept_lines(complete_lines(bytes@)),
{
    let mut cs = cs_new();
    let mut buf: Vec<u8> = Vec::new();
    let mut i: usize = 0;
    while i < bytes.len()
        invariant
            i <= bytes@.len(),
            cs_names(cs) == kept_lines(complete_lines(bytes@.subrange(0, i as int))),
            buf@ == open_tail(bytes@.subrange(0, i as int)),
        decreases bytes@.len() - i,
    {
        let b = bytes[i];
        proof {
            assert(bytes@.subrange(0, i + 1).drop_last() =~= bytes@.subrange(0, i as int));
            assert(bytes@.subrange(0, i + 1).last() == b);
        }
        if b == 10 {
            cs_push_line(&mut cs, &buf);
            proof {
                let prev = complete_lines(bytes@.subrange(0, i as int));
                assert(prev.push(buf@).drop_last() =~= prev);
                assert(prev.push(buf@).last() == buf@);
            }
            buf = Vec::new();
        } else {
            buf.push(b);
        }
        i = i + 1;
    }
    proof {
        assert(bytes@.subrange(0, bytes@.len() as int) =~= bytes@);
    }
    cs
}

} // verus!
