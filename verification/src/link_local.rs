//! The layout of link-local addresses, `fe80::/10`.
//!
//! Segments 0 to 3 are taken to be `fe80:0:0:0` and are not stored. The first
//! byte of the payload is a marker that selects one of four forms for the
//! interface identifier.

use vstd::prelude::*;
use crate::address::Ipv6Address;
use crate::bytes::{high, high_byte, join, join_bytes, low, low_byte};
use crate::category::Ipv6Category;
use crate::compressor::Ipv6Compressor;
use crate::error::{FourWordError, Violation};
use crate::interface_id::{
    decode_entries, entries, first_nonzero, is_single_small, nonzero_count, place, push_entries,
    put, read_entries, scan,
};
use crate::record::{CompressedIpv6, ADDRESS_BITS};

verus! {

/// The form that the payload of a link-local address takes.
#[derive(Debug, Clone, Copy, PartialEq, Eq, Structural)]
pub enum LinkLocalForm {
    /// Marker 0: the interface identifier is zero.
    Zero,
    /// Marker 1: one segment is not zero, and it fits in a byte.
    SingleSmall,
    /// Marker 2: the universal/local bit of segment 4 is set and segment 7 is
    /// zero.
    Eui64,
    /// Marker 3: a list of the non-zero segments.
    General,
}

/// The form chosen for `segs`: the first in the order of the markers whose
/// condition holds.
pub open spec fn link_local_form(segs: Seq<u16>) -> LinkLocalForm {
    if nonzero_count(segs) == 0 {
        LinkLocalForm::Zero
    } else if is_single_small(segs) {
        LinkLocalForm::SingleSmall
    } else if segs[4] & 0x0200 == 0x0200 && segs[7] == 0 {
        LinkLocalForm::Eui64
    } else {
        LinkLocalForm::General
    }
}

/// The payload of the link-local address `segs`.
pub open spec fn link_local_payload(segs: Seq<u16>) -> Seq<u8> {
    match link_local_form(segs) {
        LinkLocalForm::Zero => seq![0u8, 0u8, 0u8, 0u8, 0u8, 0u8],
        LinkLocalForm::SingleSmall => seq![
            1u8,
            first_nonzero(segs) as u8,
            low_byte(segs[4 + first_nonzero(segs)]),
            0u8,
            0u8,
            0u8,
        ],
        LinkLocalForm::Eui64 => seq![
            2u8,
            low_byte(segs[4]),
            high_byte(segs[4]),
            low_byte(segs[5]),
            high_byte(segs[5]),
            low_byte(segs[6]),
        ],
        LinkLocalForm::General => seq![3u8] + entries(segs),
    }
}

/// The declared size of the link-local address `segs`: 48 bits for the three
/// six-byte forms; for the general form three bits and the payload's bits.
pub open spec fn link_local_bits(segs: Seq<u16>) -> nat {
    match link_local_form(segs) {
        LinkLocalForm::General => 3 + 8 * link_local_payload(segs).len(),
        _ => 48,
    }
}

/// The segments `fe80:0:0:0:0:0:0:0`.
pub open spec fn link_local_base() -> Seq<u16> {
    seq![0xfe80u16, 0u16, 0u16, 0u16, 0u16, 0u16, 0u16, 0u16]
}

/// The address that a link-local payload stands for, or the reason why it
/// stands for none.
pub open spec fn link_local_decode(data: Seq<u8>) -> Result<Seq<u16>, FourWordError> {
    if data.len() == 0 {
        Err(FourWordError::InvalidInput(Violation::EmptyPayload))
    } else if data[0] == 0 {
        Ok(link_local_base())
    } else if data[0] == 1 {
        if data.len() < 3 {
            Err(FourWordError::InvalidInput(Violation::Truncated))
        } else {
            Ok(place(link_local_base(), data[1], data[2] as u16))
        }
    } else if data[0] == 2 {
        if data.len() < 6 {
            Err(FourWordError::InvalidInput(Violation::Truncated))
        } else {
            Ok(
                seq![
                    0xfe80u16,
                    0u16,
                    0u16,
                    0u16,
                    join_bytes(data[2], data[1]) | 0x0200,
                    join_bytes(data[4], data[3]),
                    data[5] as u16,
                    0u16,
                ],
            )
        }
    } else if data[0] == 3 {
        decode_entries(data, 1, link_local_base())
    } else {
        Err(FourWordError::InvalidInput(Violation::Marker(data[0])))
    }
}

impl LinkLocalForm {
    /// The form in which the interface identifier of `segments` is stored.
    pub fn of(segments: &[u16; 8]) -> (form: Self)
        ensures
            form == link_local_form(segments@),
    {
        let (count, first) = scan(segments);
        if count == 0 {
            LinkLocalForm::Zero
        } else if count == 1 && segments[4 + first] <= 255 {
            LinkLocalForm::SingleSmall
        } else if segments[4] & 0x0200 == 0x0200 && segments[7] == 0 {
            LinkLocalForm::Eui64
        } else {
            LinkLocalForm::General
        }
    }
}

impl Ipv6Compressor {
    /// Compresses a link-local address. Segments 0 to 3 are not read.
    pub fn compress_link_local(ip: Ipv6Address, port: Option<u16>) -> (r: Result<
        CompressedIpv6,
        FourWordError,
    >)
        ensures
            r is Ok,
            r->Ok_0.wf(),
            r->Ok_0.holds(
                Ipv6Category::LinkLocal,
                link_local_payload(ip@),
                link_local_bits(ip@),
                port,
            ),
    {
        let segments = ip.segments();
        let mut compressed: Vec<u8>;
        let compressed_bits: usize;
        match LinkLocalForm::of(&segments) {
            LinkLocalForm::Zero => {
                compressed = vec![0, 0, 0, 0, 0, 0];
                compressed_bits = 48;
            },
            LinkLocalForm::SingleSmall => {
                let (_, first) = scan(&segments);
                compressed = vec![1, first as u8, low(segments[4 + first]), 0, 0, 0];
                compressed_bits = 48;
            },
            LinkLocalForm::Eui64 => {
                compressed = vec![
                    2,
                    low(segments[4]),
                    high(segments[4]),
                    low(segments[5]),
                    high(segments[5]),
                    low(segments[6]),
                ];
                compressed_bits = 48;
            },
            LinkLocalForm::General => {
                compressed = vec![3];
                push_entries(&mut compressed, &segments);
                compressed_bits = 3 + compressed.len() * 8;
            },
        }
        assert(compressed@ =~= link_local_payload(ip@));
        Ok(
            CompressedIpv6 {
                category: Ipv6Category::LinkLocal,
                compressed_data: compressed,
                original_bits: ADDRESS_BITS,
                compressed_bits,
                port,
            },
        )
    }

    /// Reads a link-local payload. An empty payload, an unknown marker and a
    /// payload that ends before its data are rejected.
    pub fn decompress_link_local(data: &[u8]) -> (r: Result<Ipv6Address, FourWordError>)
        ensures
            match link_local_decode(data@) {
                Ok(segs) => r is Ok && r->Ok_0@ == segs,
                Err(e) => r == Err::<Ipv6Address, FourWordError>(e),
            },
    {
        if data.len() == 0 {
            return Err(FourWordError::InvalidInput(Violation::EmptyPayload));
        }
        let mut segments: [u16; 8] = [0xfe80, 0, 0, 0, 0, 0, 0, 0];
        assert(segments@ =~= link_local_base());
        match data[0] {
            0 => {},
            1 => {
                if data.len() < 3 {
                    return Err(FourWordError::InvalidInput(Violation::Truncated));
                }
                segments = put(segments, data[1], data[2] as u16);
            },
            2 => {
                if data.len() < 6 {
                    return Err(FourWordError::InvalidInput(Violation::Truncated));
                }
                segments[4] = join(data[2], data[1]) | 0x0200;
                segments[5] = join(data[4], data[3]);
                segments[6] = data[5] as u16;
                assert(segments@ =~= link_local_decode(data@)->Ok_0);
            },
            3 => {
                segments = read_entries(data, 1, segments)?;
            },
            marker => {
                return Err(FourWordError::InvalidInput(Violation::Marker(marker)));
            },
        }
        Ok(Ipv6Address::new(segments))
    }
}

} // verus!
