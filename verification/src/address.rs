//! The 128-bit address, as eight 16-bit segments in network order.

use vstd::prelude::*;

verus! {

/// Whether `segs` is the address `::1`: 127 zero bits, then a one.
pub open spec fn is_loopback_segments(segs: Seq<u16>) -> bool {
    &&& segs.len() == 8
    &&& forall|i: int| 0 <= i < 7 ==> segs[i] == 0
    &&& segs[7] == 1
}

/// Whether `segs` is the address `::`: all 128 bits zero.
pub open spec fn is_unspecified_segments(segs: Seq<u16>) -> bool {
    &&& segs.len() == 8
    &&& forall|i: int| 0 <= i < 8 ==> segs[i] == 0
}

/// The segments of `::1`.
pub open spec fn loopback_segments() -> Seq<u16> {
    seq![0u16, 0u16, 0u16, 0u16, 0u16, 0u16, 0u16, 1u16]
}

/// The segments of `::`.
pub open spec fn unspecified_segments() -> Seq<u16> {
    seq![0u16, 0u16, 0u16, 0u16, 0u16, 0u16, 0u16, 0u16]
}

/// A 128-bit address. Its view is the sequence of its eight segments, the
/// most significant first.
#[derive(Debug, Clone, Copy, PartialEq, Eq, Hash)]
pub struct Ipv6Address {
    pub segments: [u16; 8],
}

impl View for Ipv6Address {
    type V = Seq<u16>;

    open spec fn view(&self) -> Seq<u16> {
        self.segments@
    }
}

impl Ipv6Address {
    /// The address with the given segments.
    pub fn new(segments: [u16; 8]) -> (a: Self)
        ensures
            a@ == segments@,
            a@.len() == 8,
    {
        Ipv6Address { segments }
    }

    /// The loopback address `::1`.
    pub fn localhost() -> (a: Self)
        ensures
            a@ == loopback_segments(),
            is_loopback_segments(a@),
    {
        let a = Ipv6Address { segments: [0, 0, 0, 0, 0, 0, 0, 1] };
        assert(a@ =~= loopback_segments());
        a
    }

    /// The unspecified address `::`.
    pub fn unspecified() -> (a: Self)
        ensures
            a@ == unspecified_segments(),
            is_unspecified_segments(a@),
    {
        let a = Ipv6Address { segments: [0, 0, 0, 0, 0, 0, 0, 0] };
        assert(a@ =~= unspecified_segments());
        a
    }

    /// The eight segments, the most significant first.
    pub fn segments(&self) -> (s: [u16; 8])
        ensures
            s@ == self@,
            s@.len() == 8,
    {
        self.segments
    }

    /// Whether this is the loopback address `::1`.
    pub fn is_loopback(&self) -> (b: bool)
        ensures
            b == is_loopback_segments(self@),
    {
        let s = &self.segments;
        s[0] == 0 && s[1] == 0 && s[2] == 0 && s[3] == 0 && s[4] == 0 && s[5] == 0 && s[6] == 0
            && s[7] == 1
    }

    /// Whether this is the unspecified address `::`.
    pub fn is_unspecified(&self) -> (b: bool)
        ensures
            b == is_unspecified_segments(self@),
    {
        let s = &self.segments;
        s[0] == 0 && s[1] == 0 && s[2] == 0 && s[3] == 0 && s[4] == 0 && s[5] == 0 && s[6] == 0
            && s[7] == 0
    }
}

} // verus!
