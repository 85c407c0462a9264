//! The layout of unique local addresses, `fc00::/7`.
//!
//! Only the first 64 bits are kept: the interface identifier is dropped,
//! whatever it holds.

use vstd::prelude::*;
use crate::address::Ipv6Address;
use crate::bytes::{push_segments, read_segments, segment_bytes, segments_from_bytes};
use crate::category::Ipv6Category;
use crate::compressor::Ipv6Compressor;
use crate::error::{FourWordError, Violation};
use crate::record::{CompressedIpv6, ADDRESS_BITS};

verus! {

/// Four segments of zero.
pub open spec fn zero_interface_id() -> Seq<u16> {
    seq![0u16, 0u16, 0u16, 0u16]
}

/// The payload of the unique local address `segs`: segments 0 to 3.
pub open spec fn unique_local_payload(segs: Seq<u16>) -> Seq<u8> {
    segment_bytes(segs.subrange(0, 4))
}

/// The declared size of a unique local address: three bits and the 64 bits
/// that are kept.
pub open spec fn unique_local_bits() -> nat {
    67
}

/// The address that a unique local payload stands for: of 8 bytes, segments 0
/// to 3 with a zero interface identifier; of 16 bytes, all eight segments. No
/// other length is accepted.
pub open spec fn unique_local_decode(data: Seq<u8>) -> Result<Seq<u16>, FourWordError> {
    if data.len() == 8 {
        Ok(segments_from_bytes(data, 0, 4) + zero_interface_id())
    } else if data.len() == 16 {
        Ok(segments_from_bytes(data, 0, 8))
    } else {
        Err(FourWordError::InvalidInput(Violation::PayloadLength(data.len() as usize)))
    }
}

impl Ipv6Compressor {
    /// Compresses a unique local address: segments 0 to 3 are stored, the
    /// interface identifier is dropped.
    pub fn compress_unique_local(ip: Ipv6Address, port: Option<u16>) -> (r: Result<
        CompressedIpv6,
        FourWordError,
    >)
        ensures
            r is Ok,
            r->Ok_0.wf(),
            r->Ok_0.holds(
                Ipv6Category::UniqueLocal,
                unique_local_payload(ip@),
                unique_local_bits(),
                port,
            ),
    {
        let segments = ip.segments();
        let mut compressed: Vec<u8> = Vec::new();
        push_segments(&mut compressed, &segments, 0, 4);
        assert(compressed@ =~= unique_local_payload(ip@));
        Ok(
            CompressedIpv6 {
                category: Ipv6Category::UniqueLocal,
                compressed_data: compressed,
                original_bits: ADDRESS_BITS,
                compressed_bits: 3 + 64,
                port,
            },
        )
    }

    /// Reads a unique local payload of 8 or of 16 bytes. Any other length is
    /// rejected.
    pub fn decompress_unique_local(data: &[u8]) -> (r: Result<Ipv6Address, FourWordError>)
        ensures
            match unique_local_decode(data@) {
                Ok(segs) => r is Ok && r->Ok_0@ == segs,
                Err(e) => r == Err::<Ipv6Address, FourWordError>(e),
            },
    {
        let zero: [u16; 8] = [0, 0, 0, 0, 0, 0, 0, 0];
        if data.len() == 8 {
            let segments = read_segments(data, 0, 4, zero, 0);
            assert(segments@ =~= segments_from_bytes(data@, 0, 4) + zero_interface_id());
            Ok(Ipv6Address::new(segments))
        } else if data.len() == 16 {
            let segments = read_segments(data, 0, 8, zero, 0);
            assert(segments@ =~= segments_from_bytes(data@, 0, 8));
            Ok(Ipv6Address::new(segments))
        } else {
            Err(FourWordError::InvalidInput(Violation::PayloadLength(data.len())))
        }
    }
}

} // verus!
