//! The layout of global unicast addresses, `2000::/3`, and the table of
//! provider prefixes that it consults.

use vstd::prelude::*;
use crate::address::Ipv6Address;
use crate::bytes::{push_segments, read_segments, segment_bytes, segments_from_bytes};
use crate::category::Ipv6Category;
use crate::compressor::Ipv6Compressor;
use crate::error::{FourWordError, Violation};
use crate::record::{CompressedIpv6, ADDRESS_BITS};
use crate::special::{verbatim_bits, verbatim_payload};

verus! {

/// The table of provider prefixes: the first two segments of each, at the
/// index that is its pattern id.
pub const PROVIDER_PREFIXES: [(u16, u16); 3] = [
    (0x2001, 0x4860),
    (0x2001, 0x0470),
    (0x2001, 0x0558),
];

/// The first two segments of the provider prefix with pattern id `id`.
pub open spec fn provider_prefix(id: u8) -> Option<(u16, u16)> {
    if id == 0 {
        Some((0x2001u16, 0x4860u16))
    } else if id == 1 {
        Some((0x2001u16, 0x0470u16))
    } else if id == 2 {
        Some((0x2001u16, 0x0558u16))
    } else {
        None
    }
}

/// The pattern id of the provider prefix that `segs` begins with.
pub open spec fn provider_pattern(segs: Seq<u16>) -> Option<u8> {
    if provider_prefix(0) == Some((segs[0], segs[1])) {
        Some(0u8)
    } else if provider_prefix(1) == Some((segs[0], segs[1])) {
        Some(1u8)
    } else if provider_prefix(2) == Some((segs[0], segs[1])) {
        Some(2u8)
    } else {
        None
    }
}

/// The payload of an address that begins with the provider prefix `id`: the
/// pattern id, then segments 2 to 7.
pub open spec fn provider_payload(id: u8, segs: Seq<u16>) -> Seq<u8> {
    seq![id] + segment_bytes(segs.subrange(2, 8))
}

/// The payload of the global unicast address `segs`.
pub open spec fn global_unicast_payload(segs: Seq<u16>) -> Seq<u8> {
    match provider_pattern(segs) {
        Some(id) => provider_payload(id, segs),
        None => verbatim_payload(segs),
    }
}

/// The declared size of the global unicast address `segs`: three bits and 48
/// with a provider prefix, else three bits and the address's 128.
pub open spec fn global_unicast_bits(segs: Seq<u16>) -> nat {
    match provider_pattern(segs) {
        Some(_) => 51,
        None => verbatim_bits(),
    }
}

/// The address that a global unicast payload stands for: of 16 bytes, the
/// eight segments; of 13 bytes, the provider prefix that the first byte names
/// and segments 2 to 7. No other length and no other pattern id is accepted.
pub open spec fn global_unicast_decode(data: Seq<u8>) -> Result<Seq<u16>, FourWordError> {
    if data.len() == 16 {
        Ok(segments_from_bytes(data, 0, 8))
    } else if data.len() == 13 {
        match provider_prefix(data[0]) {
            Some(prefix) => Ok(seq![prefix.0, prefix.1] + segments_from_bytes(data, 1, 6)),
            None => Err(FourWordError::InvalidInput(Violation::ProviderPattern(data[0]))),
        }
    } else {
        Err(FourWordError::InvalidInput(Violation::PayloadLength(data.len() as usize)))
    }
}

impl Ipv6Compressor {
    /// The payload of `segments` under the provider pattern that it begins
    /// with, where it begins with one.
    pub fn try_provider_patterns(segments: &[u16; 8]) -> (r: Option<Vec<u8>>)
        ensures
            match provider_pattern(segments@) {
                Some(id) => r is Some && r->Some_0@ == provider_payload(id, segments@),
                None => r is None,
            },
    {
        let ghost start = (segments@[0], segments@[1]);
        let mut id: usize = 0;
        while id < 3
            invariant
                id <= 3,
                start == (segments@[0], segments@[1]),
                id >= 1 ==> provider_prefix(0) != Some(start),
                id >= 2 ==> provider_prefix(1) != Some(start),
                id >= 3 ==> provider_prefix(2) != Some(start),
            decreases 3 - id,
        {
            let pattern: (u16, u16) = PROVIDER_PREFIXES[id];
            assert(provider_prefix(id as u8) == Some(pattern));
            if segments[0] == pattern.0 && segments[1] == pattern.1 {
                let mut compressed: Vec<u8> = vec![id as u8];
                push_segments(&mut compressed, segments, 2, 8);
                assert(compressed@ =~= provider_payload(id as u8, segments@));
                return Some(compressed);
            }
            id += 1;
        }
        None
    }

    /// The first two segments of the provider prefix with pattern id `id`.
    pub fn provider_prefix_of(id: u8) -> (r: Option<(u16, u16)>)
        ensures
            r == provider_prefix(id),
    {
        if id < 3 {
            Some(PROVIDER_PREFIXES[id as usize])
        } else {
            None
        }
    }

    /// Compresses a global unicast address: under its provider pattern where
    /// it begins with one, else as it is.
    pub fn compress_global_unicast(ip: Ipv6Address, port: Option<u16>) -> (r: Result<
        CompressedIpv6,
        FourWordError,
    >)
        ensures
            r is Ok,
            r->Ok_0.wf(),
            r->Ok_0.holds(
                Ipv6Category::GlobalUnicast,
                global_unicast_payload(ip@),
                global_unicast_bits(ip@),
                port,
            ),
    {
        let segments = ip.segments();
        if let Some(compressed) = Self::try_provider_patterns(&segments) {
            return Ok(
                CompressedIpv6 {
                    category: Ipv6Category::GlobalUnicast,
                    compressed_data: compressed,
                    original_bits: ADDRESS_BITS,
                    compressed_bits: 3 + 48,
                    port,
                },
            );
        }
        let mut compressed: Vec<u8> = Vec::new();
        push_segments(&mut compressed, &segments, 0, 8);
        assert(compressed@ =~= verbatim_payload(ip@)) by {
            assert(ip@.subrange(0, 8) =~= ip@);
        }
        Ok(
            CompressedIpv6 {
                category: Ipv6Category::GlobalUnicast,
                compressed_data: compressed,
                original_bits: ADDRESS_BITS,
                compressed_bits: 3 + 128,
                port,
            },
        )
    }

    /// Reads a global unicast payload of 13 or of 16 bytes. Any other length
    /// and an unknown pattern id are rejected.
    pub fn decompress_global_unicast(data: &[u8]) -> (r: Result<Ipv6Address, FourWordError>)
        ensures
            match global_unicast_decode(data@) {
                Ok(segs) => r is Ok && r->Ok_0@ == segs,
                Err(e) => r == Err::<Ipv6Address, FourWordError>(e),
            },
    {
        if data.len() == 16 {
            let zero: [u16; 8] = [0, 0, 0, 0, 0, 0, 0, 0];
            let segments = read_segments(data, 0, 8, zero, 0);
            assert(segments@ =~= segments_from_bytes(data@, 0, 8));
            Ok(Ipv6Address::new(segments))
        } else if data.len() == 13 {
            let pattern_id: u8 = data[0];
            match Self::provider_prefix_of(pattern_id) {
                Some(prefix) => {
                    let start: [u16; 8] = [prefix.0, prefix.1, 0, 0, 0, 0, 0, 0];
                    let segments = read_segments(data, 1, 6, start, 2);
                    assert(segments@ =~= seq![prefix.0, prefix.1] + segments_from_bytes(
                        data@,
                        1,
                        6,
                    ));
                    Ok(Ipv6Address::new(segments))
                },
                None => Err(FourWordError::InvalidInput(Violation::ProviderPattern(pattern_id))),
            }
        } else {
            Err(FourWordError::InvalidInput(Violation::PayloadLength(data.len())))
        }
    }
}

} // verus!
