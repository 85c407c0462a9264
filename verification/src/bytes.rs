//! Segments as big-endian byte pairs.

use vstd::prelude::*;

verus! {

/// The more significant byte of a segment.
pub open spec fn high_byte(x: u16) -> u8 {
    (x / 256) as u8
}

/// The less significant byte of a segment.
pub open spec fn low_byte(x: u16) -> u8 {
    (x % 256) as u8
}

/// The segment whose bytes are `hi` and `lo`.
pub open spec fn join_bytes(hi: u8, lo: u8) -> u16 {
    (hi * 256 + lo) as u16
}

/// The segments `segs`, each as two bytes, the high byte first.
pub open spec fn segment_bytes(segs: Seq<u16>) -> Seq<u8> {
    Seq::new(
        2 * segs.len(),
        |i: int|
            if i % 2 == 0 {
                high_byte(segs[i / 2])
            } else {
                low_byte(segs[i / 2])
            },
    )
}

/// The `count` segments that `data` holds from index `start` on, two bytes
/// each, the high byte first.
pub open spec fn segments_from_bytes(data: Seq<u8>, start: int, count: nat) -> Seq<u16> {
    Seq::new(count, |k: int| join_bytes(data[start + 2 * k], data[start + 2 * k + 1]))
}

/// Splitting a segment into its bytes and joining them gives the segment back.
pub proof fn lemma_join_of_split(x: u16)
    ensures
        join_bytes(high_byte(x), low_byte(x)) == x,
{
}

/// Reading back the bytes of `segs`, found in `data` from `start` on, gives
/// `segs`.
pub proof fn lemma_segments_of_bytes(data: Seq<u8>, start: int, segs: Seq<u16>)
    requires
        0 <= start,
        start + 2 * segs.len() <= data.len(),
        data.subrange(start, start + 2 * segs.len()) == segment_bytes(segs),
    ensures
        segments_from_bytes(data, start, segs.len()) == segs,
{
    let got = segments_from_bytes(data, start, segs.len());
    let bytes = segment_bytes(segs);
    assert forall|k: int| 0 <= k < segs.len() implies got[k] == segs[k] by {
        assert(data[start + 2 * k] == data.subrange(start, start + 2 * segs.len())[2 * k]);
        assert(data[start + 2 * k + 1] == data.subrange(start, start + 2 * segs.len())[2 * k + 1]);
        assert(bytes[2 * k] == high_byte(segs[k]));
        assert(bytes[2 * k + 1] == low_byte(segs[k]));
        lemma_join_of_split(segs[k]);
    }
    assert(got =~= segs);
}

/// The more significant byte of `x`.
pub fn high(x: u16) -> (b: u8)
    ensures
        b == high_byte(x),
{
    (x / 256) as u8
}

/// The less significant byte of `x`.
pub fn low(x: u16) -> (b: u8)
    ensures
        b == low_byte(x),
{
    (x % 256) as u8
}

/// The segment with bytes `hi` and `lo`.
pub fn join(hi: u8, lo: u8) -> (x: u16)
    ensures
        x == join_bytes(hi, lo),
{
    (hi as u16) * 256 + (lo as u16)
}

/// Appends the bytes of `segments[from..to]` to `out`.
pub fn push_segments(out: &mut Vec<u8>, segments: &[u16; 8], from: usize, to: usize)
    requires
        from <= to <= 8,
    ensures
        final(out)@ == old(out)@ + segment_bytes(segments@.subrange(from as int, to as int)),
{
    let mut k: usize = from;
    while k < to
        invariant
            from <= k <= to <= 8,
            out@ == old(out)@ + segment_bytes(segments@.subrange(from as int, k as int)),
        decreases to - k,
    {
        let x: u16 = segments[k];
        out.push(high(x));
        out.push(low(x));
        proof {
            let before = segment_bytes(segments@.subrange(from as int, k as int));
            let after = segment_bytes(segments@.subrange(from as int, k + 1));
            assert(after =~= before + seq![high_byte(x), low_byte(x)]);
            assert(out@ =~= old(out)@ + after);
        }
        k += 1;
    }
}

/// Reads `count` segments from `data`, starting at byte `start`, into the
/// places `at..at + count` of `into`. The other places stay as they are.
pub fn read_segments(data: &[u8], start: usize, count: usize, into: [u16; 8], at: usize) -> (r: [u16; 8])
    requires
        start + 2 * count <= data@.len(),
        at + count <= 8,
    ensures
        r@ == into@.subrange(0, at as int) + segments_from_bytes(data@, start as int, count as nat)
            + into@.subrange(at + count, 8),
{
    let mut r = into;
    let mut k: usize = 0;
    let len: usize = data.len();
    while k < count
        invariant
            k <= count,
            len == data@.len(),
            start + 2 * count <= data@.len(),
            at + count <= 8,
            r@ == into@.subrange(0, at as int) + segments_from_bytes(data@, start as int, k as nat)
                + into@.subrange(at + k, 8),
        decreases count - k,
    {
        let x = join(data[start + 2 * k], data[start + 2 * k + 1]);
        r[at + k] = x;
        proof {
            assert(r@ =~= into@.subrange(0, at as int) + segments_from_bytes(
                data@,
                start as int,
                (k + 1) as nat,
            ) + into@.subrange(at + k + 1, 8));
        }
        k += 1;
    }
    r
}

} // verus!
