//! The compressor: classification, and dispatch to the category layouts.

use vstd::prelude::*;
use crate::address::{loopback_segments, unspecified_segments, Ipv6Address};
use crate::category::{classify, Ipv6Category};
use crate::documentation::{documentation_bits, documentation_decode, documentation_payload};
use crate::error::FourWordError;
use crate::global_unicast::{global_unicast_bits, global_unicast_decode, global_unicast_payload};
use crate::link_local::{link_local_bits, link_local_decode, link_local_payload};
use crate::record::CompressedIpv6;
use crate::special::{
    loopback_payload, singleton_bits, special_decode, unspecified_payload, verbatim_bits,
    verbatim_payload,
};
use crate::unique_local::{unique_local_bits, unique_local_decode, unique_local_payload};

verus! {

/// The payload of the address `segs`: that of the layout of its category.
pub open spec fn compressed_payload(segs: Seq<u16>) -> Seq<u8> {
    match classify(segs) {
        Ipv6Category::Loopback => loopback_payload(),
        Ipv6Category::LinkLocal => link_local_payload(segs),
        Ipv6Category::UniqueLocal => unique_local_payload(segs),
        Ipv6Category::Documentation => documentation_payload(segs),
        Ipv6Category::GlobalUnicast => global_unicast_payload(segs),
        Ipv6Category::Unspecified => unspecified_payload(),
        Ipv6Category::Special => verbatim_payload(segs),
    }
}

/// The declared size in bits of the address `segs`. Each category counts in
/// its own way; some add three bits for the category's tag, which the payload
/// does not hold.
pub open spec fn compressed_size(segs: Seq<u16>) -> nat {
    match classify(segs) {
        Ipv6Category::Loopback => singleton_bits(),
        Ipv6Category::LinkLocal => link_local_bits(segs),
        Ipv6Category::UniqueLocal => unique_local_bits(),
        Ipv6Category::Documentation => documentation_bits(segs),
        Ipv6Category::GlobalUnicast => global_unicast_bits(segs),
        Ipv6Category::Unspecified => singleton_bits(),
        Ipv6Category::Special => verbatim_bits(),
    }
}

/// The address that the payload `data` stands for in `category`, or the
/// reason why it stands for none.
pub open spec fn decompressed(category: Ipv6Category, data: Seq<u8>) -> Result<
    Seq<u16>,
    FourWordError,
> {
    match category {
        Ipv6Category::Loopback => Ok(loopback_segments()),
        Ipv6Category::LinkLocal => link_local_decode(data),
        Ipv6Category::UniqueLocal => unique_local_decode(data),
        Ipv6Category::Documentation => documentation_decode(data),
        Ipv6Category::GlobalUnicast => global_unicast_decode(data),
        Ipv6Category::Unspecified => Ok(unspecified_segments()),
        Ipv6Category::Special => special_decode(data),
    }
}

/// The compression engine. It holds no state: every operation is a function
/// of its arguments.
#[derive(Debug, Clone, Copy)]
pub struct Ipv6Compressor;

impl Default for Ipv6Compressor {
    fn default() -> (c: Self)
        ensures
            c == Ipv6Compressor,
    {
        Ipv6Compressor
    }
}

impl Ipv6Compressor {
    /// A compressor.
    pub fn new() -> (c: Self)
        ensures
            c == Ipv6Compressor,
    {
        Ipv6Compressor
    }

    /// Compresses `ip`: classifies it, and stores it in the layout of its
    /// category. The port is carried in the record unchanged. Every address
    /// can be compressed.
    pub fn compress(&self, ip: Ipv6Address, port: Option<u16>) -> (r: Result<
        CompressedIpv6,
        FourWordError,
    >)
        ensures
            r is Ok,
            r->Ok_0.wf(),
            r->Ok_0.holds(classify(ip@), compressed_payload(ip@), compressed_size(ip@), port),
    {
        let category = Self::categorize_address(&ip);
        match category {
            Ipv6Category::Loopback => Self::compress_loopback(ip, port),
            Ipv6Category::LinkLocal => Self::compress_link_local(ip, port),
            Ipv6Category::UniqueLocal => Self::compress_unique_local(ip, port),
            Ipv6Category::Documentation => Self::compress_documentation(ip, port),
            Ipv6Category::GlobalUnicast => Self::compress_global_unicast(ip, port),
            Ipv6Category::Unspecified => Self::compress_unspecified(ip, port),
            Ipv6Category::Special => Self::compress_special(ip, port),
        }
    }

    /// Reads the payload of `compressed` in the layout of its category, and
    /// returns the address with the record's port. A payload that the layout
    /// does not allow is rejected. The record's declared sizes are not read.
    pub fn decompress(&self, compressed: &CompressedIpv6) -> (r: Result<
        (Ipv6Address, Option<u16>),
        FourWordError,
    >)
        ensures
            match decompressed(compressed.category, compressed.compressed_data@) {
                Ok(segs) => r is Ok && r->Ok_0.0@ == segs && r->Ok_0.1 == compressed.port,
                Err(e) => r == Err::<(Ipv6Address, Option<u16>), FourWordError>(e),
            },
    {
        let data: &[u8] = compressed.compressed_data.as_slice();
        let decoded = match compressed.category {
            Ipv6Category::Loopback => Self::decompress_loopback(data),
            Ipv6Category::LinkLocal => Self::decompress_link_local(data),
            Ipv6Category::UniqueLocal => Self::decompress_unique_local(data),
            Ipv6Category::Documentation => Self::decompress_documentation(data),
            Ipv6Category::GlobalUnicast => Self::decompress_global_unicast(data),
            Ipv6Category::Unspecified => Self::decompress_unspecified(data),
            Ipv6Category::Special => Self::decompress_special(data),
        };
        match decoded {
            Ok(ip) => Ok((ip, compressed.port)),
            Err(e) => Err(e),
        }
    }

    /// The category of `ip`: the first rule that matches decides.
    pub fn categorize_address(ip: &Ipv6Address) -> (c: Ipv6Category)
        ensures
            c == classify(ip@),
    {
        let s = &ip.segments;
        if ip.is_loopback() {
            Ipv6Category::Loopback
        } else if ip.is_unspecified() {
            Ipv6Category::Unspecified
        } else if s[0] & 0xFFC0 == 0xFE80 {
            Ipv6Category::LinkLocal
        } else if s[0] & 0xFE00 == 0xFC00 {
            Ipv6Category::UniqueLocal
        } else if s[0] == 0x2001 && s[1] == 0x0DB8 {
            Ipv6Category::Documentation
        } else if s[0] & 0xE000 == 0x2000 {
            Ipv6Category::GlobalUnicast
        } else {
            Ipv6Category::Special
        }
    }
}

} // verus!
