//! The layouts without variable structure: the two single addresses, and the
//! catch-all that stores an address as it is.

use vstd::prelude::*;
use crate::address::{loopback_segments, unspecified_segments, Ipv6Address};
use crate::bytes::{push_segments, read_segments, segment_bytes, segments_from_bytes};
use crate::category::Ipv6Category;
use crate::compressor::Ipv6Compressor;
use crate::error::{FourWordError, Violation};
use crate::record::{CompressedIpv6, ADDRESS_BITS};

verus! {

/// The payload of the loopback address: six bytes of padding, the third of
/// them 1.
pub open spec fn loopback_payload() -> Seq<u8> {
    seq![0u8, 0u8, 1u8, 0u8, 0u8, 0u8]
}

/// The payload of the unspecified address: six bytes of zero.
pub open spec fn unspecified_payload() -> Seq<u8> {
    seq![0u8, 0u8, 0u8, 0u8, 0u8, 0u8]
}

/// The declared size of the two single addresses.
pub open spec fn singleton_bits() -> nat {
    48
}

/// The payload of an address stored as it is: all eight segments.
pub open spec fn verbatim_payload(segs: Seq<u16>) -> Seq<u8> {
    segment_bytes(segs)
}

/// The declared size of an address stored as it is: three bits and the
/// address's 128.
pub open spec fn verbatim_bits() -> nat {
    131
}

/// The address that a payload of the catch-all category stands for: the
/// first 16 bytes as eight segments. A shorter payload is rejected.
pub open spec fn special_decode(data: Seq<u8>) -> Result<Seq<u16>, FourWordError> {
    if data.len() >= 16 {
        Ok(segments_from_bytes(data, 0, 8))
    } else {
        Err(FourWordError::InvalidInput(Violation::PayloadLength(data.len() as usize)))
    }
}

impl Ipv6Compressor {
    /// Compresses the loopback address. The address is not read: the category
    /// says all.
    pub fn compress_loopback(_ip: Ipv6Address, port: Option<u16>) -> (r: Result<
        CompressedIpv6,
        FourWordError,
    >)
        ensures
            r is Ok,
            r->Ok_0.wf(),
            r->Ok_0.holds(Ipv6Category::Loopback, loopback_payload(), singleton_bits(), port),
    {
        let padding: Vec<u8> = vec![0x00, 0x00, 0x01, 0x00, 0x00, 0x00];
        assert(padding@ =~= loopback_payload());
        Ok(
            CompressedIpv6 {
                category: Ipv6Category::Loopback,
                compressed_data: padding,
                original_bits: ADDRESS_BITS,
                compressed_bits: 48,
                port,
            },
        )
    }

    /// Compresses the unspecified address. The address is not read.
    pub fn compress_unspecified(_ip: Ipv6Address, port: Option<u16>) -> (r: Result<
        CompressedIpv6,
        FourWordError,
    >)
        ensures
            r is Ok,
            r->Ok_0.wf(),
            r->Ok_0.holds(
                Ipv6Category::Unspecified,
                unspecified_payload(),
                singleton_bits(),
                port,
            ),
    {
        let padding: Vec<u8> = vec![0x00, 0x00, 0x00, 0x00, 0x00, 0x00];
        assert(padding@ =~= unspecified_payload());
        Ok(
            CompressedIpv6 {
                category: Ipv6Category::Unspecified,
                compressed_data: padding,
                original_bits: ADDRESS_BITS,
                compressed_bits: 48,
                port,
            },
        )
    }

    /// Compresses an address of the catch-all category: all eight segments
    /// are stored.
    pub fn compress_special(ip: Ipv6Address, port: Option<u16>) -> (r: Result<
        CompressedIpv6,
        FourWordError,
    >)
        ensures
            r is Ok,
            r->Ok_0.wf(),
            r->Ok_0.holds(Ipv6Category::Special, verbatim_payload(ip@), verbatim_bits(), port),
    {
        let segments = ip.segments();
        let mut compressed: Vec<u8> = Vec::new();
        push_segments(&mut compressed, &segments, 0, 8);
        assert(compressed@ =~= verbatim_payload(ip@)) by {
            assert(ip@.subrange(0, 8) =~= ip@);
        }
        Ok(
            CompressedIpv6 {
                category: Ipv6Category::Special,
                compressed_data: compressed,
                original_bits: ADDRESS_BITS,
                compressed_bits: 3 + 128,
                port,
            },
        )
    }

    /// Reads a loopback payload: whatever it holds, the address is `::1`.
    pub fn decompress_loopback(_data: &[u8]) -> (r: Result<Ipv6Address, FourWordError>)
        ensures
            r is Ok,
            r->Ok_0@ == loopback_segments(),
    {
        Ok(Ipv6Address::localhost())
    }

    /// Reads an unspecified payload: whatever it holds, the address is `::`.
    pub fn decompress_unspecified(_data: &[u8]) -> (r: Result<Ipv6Address, FourWordError>)
        ensures
            r is Ok,
            r->Ok_0@ == unspecified_segments(),
    {
        Ok(Ipv6Address::unspecified())
    }

    /// Reads a payload of the catch-all category: its first 16 bytes. A
    /// shorter payload is rejected.
    pub fn decompress_special(data: &[u8]) -> (r: Result<Ipv6Address, FourWordError>)
        ensures
            match special_decode(data@) {
                Ok(segs) => r is Ok && r->Ok_0@ == segs,
                Err(e) => r == Err::<Ipv6Address, FourWordError>(e),
            },
    {
        if data.len() >= 16 {
            let zero: [u16; 8] = [0, 0, 0, 0, 0, 0, 0, 0];
            let segments = read_segments(data, 0, 8, zero, 0);
            assert(segments@ =~= segments_from_bytes(data@, 0, 8));
            Ok(Ipv6Address::new(segments))
        } else {
            Err(FourWordError::InvalidInput(Violation::PayloadLength(data.len())))
        }
    }
}

} // verus!
