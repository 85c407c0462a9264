//! The layout of documentation addresses, `2001:db8::/32`.
//!
//! Segments 0 and 1 are fixed and not stored. The payload holds segments 2
//! and 3, and then the interface identifier in one of three forms, selected
//! by a marker byte. The markers are this category's own.

use vstd::prelude::*;
use crate::address::Ipv6Address;
use crate::bytes::{join_bytes, low, low_byte, push_segments, read_segments, segment_bytes};
use crate::category::Ipv6Category;
use crate::compressor::Ipv6Compressor;
use crate::error::{FourWordError, Violation};
use crate::interface_id::{
    decode_entries, entries, first_nonzero, is_single_small, nonzero_count, place, push_entries,
    put, read_entries, scan,
};
use crate::record::{CompressedIpv6, ADDRESS_BITS};

verus! {

/// The form that the interface identifier of a documentation address takes.
#[derive(Debug, Clone, Copy, PartialEq, Eq, Structural)]
pub enum DocumentationForm {
    /// Marker 0: the interface identifier is zero.
    Zero,
    /// Marker 1: one segment is not zero, and it fits in a byte.
    SingleSmall,
    /// Marker 2: a list of the non-zero segments.
    General,
}

/// The form chosen for `segs`.
pub open spec fn documentation_form(segs: Seq<u16>) -> DocumentationForm {
    if nonzero_count(segs) == 0 {
        DocumentationForm::Zero
    } else if is_single_small(segs) {
        DocumentationForm::SingleSmall
    } else {
        DocumentationForm::General
    }
}

/// The bytes that stand for the interface identifier of `segs`.
pub open spec fn documentation_interface(segs: Seq<u16>) -> Seq<u8> {
    match documentation_form(segs) {
        DocumentationForm::Zero => seq![0u8],
        DocumentationForm::SingleSmall => seq![
            1u8,
            first_nonzero(segs) as u8,
            low_byte(segs[4 + first_nonzero(segs)]),
        ],
        DocumentationForm::General => seq![2u8] + entries(segs),
    }
}

/// The payload of the documentation address `segs`.
pub open spec fn documentation_payload(segs: Seq<u16>) -> Seq<u8> {
    segment_bytes(segs.subrange(2, 4)) + documentation_interface(segs)
}

/// The declared size of the documentation address `segs`: the payload's bits,
/// with nothing added.
pub open spec fn documentation_bits(segs: Seq<u16>) -> nat {
    8 * documentation_payload(segs).len()
}

/// The segments `2001:db8`, then the two that `data` begins with, then a zero
/// interface identifier.
pub open spec fn documentation_base(data: Seq<u8>) -> Seq<u16> {
    seq![
        0x2001u16,
        0x0db8u16,
        join_bytes(data[0], data[1]),
        join_bytes(data[2], data[3]),
        0u16,
        0u16,
        0u16,
        0u16,
    ]
}

/// The address that a documentation payload stands for, or the reason why it
/// stands for none.
pub open spec fn documentation_decode(data: Seq<u8>) -> Result<Seq<u16>, FourWordError> {
    if data.len() < 5 {
        Err(FourWordError::InvalidInput(Violation::PayloadLength(data.len() as usize)))
    } else if data[4] == 0 {
        Ok(documentation_base(data))
    } else if data[4] == 1 {
        if data.len() < 7 {
            Err(FourWordError::InvalidInput(Violation::Truncated))
        } else {
            Ok(place(documentation_base(data), data[5], data[6] as u16))
        }
    } else if data[4] == 2 {
        decode_entries(data, 5, documentation_base(data))
    } else {
        Err(FourWordError::InvalidInput(Violation::Marker(data[4])))
    }
}

impl DocumentationForm {
    /// The form in which the interface identifier of `segments` is stored.
    pub fn of(segments: &[u16; 8]) -> (form: Self)
        ensures
            form == documentation_form(segments@),
    {
        let (count, first) = scan(segments);
        if count == 0 {
            DocumentationForm::Zero
        } else if count == 1 && segments[4 + first] <= 255 {
            DocumentationForm::SingleSmall
        } else {
            DocumentationForm::General
        }
    }
}

impl Ipv6Compressor {
    /// Compresses a documentation address. Segments 0 and 1 are not read.
    pub fn compress_documentation(ip: Ipv6Address, port: Option<u16>) -> (r: Result<
        CompressedIpv6,
        FourWordError,
    >)
        ensures
            r is Ok,
            r->Ok_0.wf(),
            r->Ok_0.holds(
                Ipv6Category::Documentation,
                documentation_payload(ip@),
                documentation_bits(ip@),
                port,
            ),
    {
        let segments = ip.segments();
        let mut compressed: Vec<u8> = Vec::new();
        push_segments(&mut compressed, &segments, 2, 4);
        match DocumentationForm::of(&segments) {
            DocumentationForm::Zero => {
                compressed.push(0);
            },
            DocumentationForm::SingleSmall => {
                let (_, first) = scan(&segments);
                compressed.push(1);
                compressed.push(first as u8);
                compressed.push(low(segments[4 + first]));
            },
            DocumentationForm::General => {
                compressed.push(2);
                push_entries(&mut compressed, &segments);
            },
        }
        assert(compressed@ =~= documentation_payload(ip@));
        let compressed_bits: usize = compressed.len() * 8;
        Ok(
            CompressedIpv6 {
                category: Ipv6Category::Documentation,
                compressed_data: compressed,
                original_bits: ADDRESS_BITS,
                compressed_bits,
                port,
            },
        )
    }

    /// Reads a documentation payload. A payload of fewer than five bytes, an
    /// unknown marker and a payload that ends before its data are rejected.
    pub fn decompress_documentation(data: &[u8]) -> (r: Result<Ipv6Address, FourWordError>)
        ensures
            match documentation_decode(data@) {
                Ok(segs) => r is Ok && r->Ok_0@ == segs,
                Err(e) => r == Err::<Ipv6Address, FourWordError>(e),
            },
    {
        if data.len() < 5 {
            return Err(FourWordError::InvalidInput(Violation::PayloadLength(data.len())));
        }
        let prefix: [u16; 8] = [0x2001, 0x0db8, 0, 0, 0, 0, 0, 0];
        let mut segments = read_segments(data, 0, 2, prefix, 2);
        assert(segments@ =~= documentation_base(data@));
        match data[4] {
            0 => {},
            1 => {
                if data.len() < 7 {
                    return Err(FourWordError::InvalidInput(Violation::Truncated));
                }
                segments = put(segments, data[5], data[6] as u16);
            },
            2 => {
                segments = read_entries(data, 5, segments)?;
            },
            marker => {
                return Err(FourWordError::InvalidInput(Violation::Marker(marker)));
            },
        }
        Ok(Ipv6Address::new(segments))
    }
}

} // verus!
