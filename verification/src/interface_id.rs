//! The interface identifier: segments 4 to 7, and the sparse list of its
//! non-zero segments that two of the category layouts share.

use vstd::prelude::*;
use crate::bytes::{high, high_byte, join, join_bytes, low, low_byte, lemma_join_of_split};
use crate::error::{FourWordError, Violation};

verus! {

/// The byte that ends a list of entries.
pub const END_OF_ENTRIES: u8 = 255;

/// How many of the segments 4 to 7 are not zero.
pub open spec fn nonzero_count(segs: Seq<u16>) -> nat {
    let one = |k: int| if segs[k] != 0 { 1nat } else { 0nat };
    one(4) + one(5) + one(6) + one(7)
}

/// The position, counted from segment 4, of the first segment among 4 to 7
/// that is not zero (3 where the first three are zero).
pub open spec fn first_nonzero(segs: Seq<u16>) -> int {
    if segs[4] != 0 {
        0
    } else if segs[5] != 0 {
        1
    } else if segs[6] != 0 {
        2
    } else {
        3
    }
}

/// Whether exactly one of the segments 4 to 7 is not zero, and that one fits
/// in a byte.
pub open spec fn is_single_small(segs: Seq<u16>) -> bool {
    nonzero_count(segs) == 1 && segs[4 + first_nonzero(segs)] <= 255
}

/// The entry of the segment at position `k`, counted from segment 4: nothing
/// where the segment is zero, else the position and the segment's two bytes.
pub open spec fn entry(segs: Seq<u16>, k: int) -> Seq<u8> {
    if segs[4 + k] != 0 {
        seq![k as u8, high_byte(segs[4 + k]), low_byte(segs[4 + k])]
    } else {
        Seq::empty()
    }
}

/// The entries of the non-zero segments among 4 to 7, in increasing order,
/// and the byte that ends the list.
#[verifier::opaque]
pub open spec fn entries(segs: Seq<u16>) -> Seq<u8> {
    entry(segs, 0) + entry(segs, 1) + entry(segs, 2) + entry(segs, 3) + seq![END_OF_ENTRIES]
}

/// `segs` with the segment at position `pos`, counted from segment 4, set to
/// `val`. A position outside the interface identifier changes nothing.
pub open spec fn place(segs: Seq<u16>, pos: u8, val: u16) -> Seq<u16> {
    if pos < 4 {
        segs.update(4 + pos, val)
    } else {
        segs
    }
}

/// What the list of entries that `data` holds from index `i` on makes of
/// `segs`. The list is a run of three-byte entries and then the end byte; data
/// that stops before the end byte, or in the middle of an entry, is truncated.
/// Bytes behind the end byte are not read.
pub open spec fn decode_entries(data: Seq<u8>, i: int, segs: Seq<u16>) -> Result<
    Seq<u16>,
    FourWordError,
>
    decreases data.len() - i,
{
    if i < 0 || i >= data.len() {
        Err(FourWordError::InvalidInput(Violation::Truncated))
    } else if data[i] == END_OF_ENTRIES {
        Ok(segs)
    } else if data.len() - i <= 2 {
        Err(FourWordError::InvalidInput(Violation::Truncated))
    } else {
        decode_entries(data, i + 3, place(segs, data[i], join_bytes(data[i + 1], data[i + 2])))
    }
}

/// The list holds three bytes for each non-zero segment, and the end byte.
pub proof fn lemma_entries_len(segs: Seq<u16>)
    ensures
        entries(segs).len() == 3 * nonzero_count(segs) + 1,
        nonzero_count(segs) <= 4,
{
    reveal(entries);
}

/// `segs` with the segment at position `k`, counted from segment 4, taken from
/// `from` where that one is not zero.
pub open spec fn overlay(segs: Seq<u16>, from: Seq<u16>, k: int) -> Seq<u16> {
    if from[4 + k] != 0 {
        segs.update(4 + k, from[4 + k])
    } else {
        segs
    }
}

/// Decoding the entry of position `k` of `from`, found in `data` at `i`, writes
/// that segment where it is not zero, and goes on behind the entry.
pub proof fn lemma_decode_entry(data: Seq<u8>, i: int, segs: Seq<u16>, from: Seq<u16>, k: int)
    requires
        0 <= k < 4,
        0 <= i,
        from.len() == 8,
        segs.len() == 8,
        i + entry(from, k).len() < data.len(),
        data.subrange(i, i + entry(from, k).len()) == entry(from, k),
    ensures
        decode_entries(data, i, segs) == decode_entries(
            data,
            i + entry(from, k).len(),
            overlay(segs, from, k),
        ),
{
    if from[4 + k] != 0 {
        let e = entry(from, k);
        assert(data[i] == e[0]) by {
            assert(data.subrange(i, i + 3)[0] == data[i]);
        }
        assert(data[i + 1] == e[1]) by {
            assert(data.subrange(i, i + 3)[1] == data[i + 1]);
        }
        assert(data[i + 2] == e[2]) by {
            assert(data.subrange(i, i + 3)[2] == data[i + 2]);
        }
        lemma_join_of_split(from[4 + k]);
    }
}

/// Decoding the entries of `from` gives the segments 0 to 3 of `segs` and the
/// segments 4 to 7 of `from`, where `segs` is zero in those four.
pub proof fn lemma_decode_entries_of(data: Seq<u8>, i: int, segs: Seq<u16>, from: Seq<u16>)
    requires
        0 <= i,
        from.len() == 8,
        segs.len() == 8,
        forall|j: int| 4 <= j < 8 ==> segs[j] == 0,
        i + entries(from).len() <= data.len(),
        data.subrange(i, i + entries(from).len()) == entries(from),
    ensures
        decode_entries(data, i, segs) == Ok::<Seq<u16>, FourWordError>(
            segs.subrange(0, 4) + from.subrange(4, 8),
        ),
{
    reveal(entries);
    let all = entries(from);
    let n = all.len() as int;
    let e0 = entry(from, 0);
    let e1 = entry(from, 1);
    let e2 = entry(from, 2);
    let e3 = entry(from, 3);
    let l0 = e0.len() as int;
    let l1 = e1.len() as int;
    let l2 = e2.len() as int;
    let l3 = e3.len() as int;
    assert forall|j: int| 0 <= j < n implies data[i + j] == all[j] by {
        assert(data.subrange(i, i + n)[j] == data[i + j]);
    }
    assert(data.subrange(i, i + l0) =~= e0) by {
        assert forall|j: int| 0 <= j < l0 implies data[i + j] == e0[j] by {
            assert(all[j] == e0[j]);
        }
    }
    assert(data.subrange(i + l0, i + l0 + l1) =~= e1) by {
        assert forall|j: int| 0 <= j < l1 implies data[i + l0 + j] == e1[j] by {
            assert(data[i + (l0 + j)] == all[l0 + j]);
            assert(all[l0 + j] == e1[j]);
        }
    }
    assert(data.subrange(i + l0 + l1, i + l0 + l1 + l2) =~= e2) by {
        assert forall|j: int| 0 <= j < l2 implies data[i + l0 + l1 + j] == e2[j] by {
            assert(data[i + (l0 + l1 + j)] == all[l0 + l1 + j]);
            assert(all[l0 + l1 + j] == e2[j]);
        }
    }
    assert(data.subrange(i + l0 + l1 + l2, i + l0 + l1 + l2 + l3) =~= e3) by {
        assert forall|j: int| 0 <= j < l3 implies data[i + l0 + l1 + l2 + j] == e3[j] by {
            assert(data[i + (l0 + l1 + l2 + j)] == all[l0 + l1 + l2 + j]);
            assert(all[l0 + l1 + l2 + j] == e3[j]);
        }
    }
    let s1 = overlay(segs, from, 0);
    let s2 = overlay(s1, from, 1);
    let s3 = overlay(s2, from, 2);
    let s4 = overlay(s3, from, 3);
    lemma_decode_entry(data, i, segs, from, 0);
    lemma_decode_entry(data, i + l0, s1, from, 1);
    lemma_decode_entry(data, i + l0 + l1, s2, from, 2);
    lemma_decode_entry(data, i + l0 + l1 + l2, s3, from, 3);
    assert(data[i + (n - 1)] == all[n - 1]);
    assert(all[n - 1] == END_OF_ENTRIES);
    assert(s4 =~= segs.subrange(0, 4) + from.subrange(4, 8));
}

/// Counts the segments among 4 to 7 that are not zero, and finds the first.
pub fn scan(segments: &[u16; 8]) -> (r: (usize, usize))
    ensures
        r.0 == nonzero_count(segments@),
        r.1 == first_nonzero(segments@),
        r.1 < 4,
{
    let mut count: usize = 0;
    let mut first: usize = 3;
    if segments[7] != 0 {
        count += 1;
    }
    if segments[6] != 0 {
        count += 1;
        first = 2;
    }
    if segments[5] != 0 {
        count += 1;
        first = 1;
    }
    if segments[4] != 0 {
        count += 1;
        first = 0;
    }
    (count, first)
}

/// Appends to `out` the entry of the segment at position `k`, counted from
/// segment 4: nothing where that segment is zero.
pub fn push_entry(out: &mut Vec<u8>, segments: &[u16; 8], k: u8)
    requires
        k < 4,
    ensures
        final(out)@ == old(out)@ + entry(segments@, k as int),
{
    let x: u16 = segments[4 + k as usize];
    if x != 0 {
        out.push(k);
        out.push(high(x));
        out.push(low(x));
    }
    assert(out@ =~= old(out)@ + entry(segments@, k as int));
}

/// Appends to `out` the entries of the non-zero segments among 4 to 7, and the
/// end byte: at most 13 bytes.
pub fn push_entries(out: &mut Vec<u8>, segments: &[u16; 8])
    ensures
        final(out)@ == old(out)@ + entries(segments@),
        final(out)@.len() <= old(out)@.len() + 13,
{
    proof {
        reveal(entries);
    }
    push_entry(out, segments, 0);
    push_entry(out, segments, 1);
    push_entry(out, segments, 2);
    push_entry(out, segments, 3);
    out.push(END_OF_ENTRIES);
    assert(out@ =~= old(out)@ + entries(segments@));
}

/// `segments` with the segment at position `pos`, counted from segment 4, set
/// to `val`. A position outside the interface identifier changes nothing.
pub fn put(segments: [u16; 8], pos: u8, val: u16) -> (r: [u16; 8])
    ensures
        r@ == place(segments@, pos, val),
{
    let mut r = segments;
    if pos < 4 {
        r[4 + pos as usize] = val;
    }
    r
}

/// Reads the list of entries that `data` holds from index `start` on, and
/// writes each entry's segment into `segments`.
pub fn read_entries(data: &[u8], start: usize, segments: [u16; 8]) -> (r: Result<
    [u16; 8],
    FourWordError,
>)
    ensures
        match decode_entries(data@, start as int, segments@) {
            Ok(s) => r is Ok && r->Ok_0@ == s,
            Err(e) => r == Err::<[u16; 8], FourWordError>(e),
        },
{
    let len: usize = data.len();
    let mut i: usize = start;
    let mut segs = segments;
    while i < len && data[i] != END_OF_ENTRIES
        invariant
            len == data@.len(),
            decode_entries(data@, i as int, segs@) == decode_entries(
                data@,
                start as int,
                segments@,
            ),
        decreases len - i,
    {
        if len - i <= 2 {
            return Err(FourWordError::InvalidInput(Violation::Truncated));
        }
        segs = put(segs, data[i], join(data[i + 1], data[i + 2]));
        i += 3;
    }
    if i >= len {
        return Err(FourWordError::InvalidInput(Violation::Truncated));
    }
    Ok(segs)
}

} // verus!
