//! The compressed record and the figures derived from it.

use vstd::prelude::*;
use vstd::slice::slice_to_vec;
use crate::category::{description_text, Ipv6Category};
use crate::error::{FourWordError, Violation};

verus! {

/// The bits of an uncompressed address.
pub const ADDRESS_BITS: usize = 128;

/// The bits that a port adds to a record, and to the address it came from.
pub const PORT_BITS: usize = 16;

/// The bits that `port` adds: 16 where there is one, else none.
pub open spec fn port_bits(port: Option<u16>) -> nat {
    if port is Some {
        16
    } else {
        0
    }
}

/// The number of words recommended for `total_bits` bits: never fewer than
/// four, five above 56 bits, six above 70.
pub open spec fn word_count_for(total_bits: nat) -> nat {
    if total_bits <= 56 {
        4
    } else if total_bits <= 70 {
        5
    } else {
        6
    }
}

/// A compression ratio as an exact fraction: the ratio is `saved_bits` over
/// `original_bits`, that is one minus compressed size over original size.
/// `saved_bits` is negative where the record is larger than what it stands for.
#[derive(Debug, Clone, Copy, PartialEq, Eq)]
pub struct CompressionRatio {
    pub saved_bits: i128,
    pub original_bits: usize,
}

/// The result of compressing one address: the category, the payload that the
/// category's layout gives, the declared size of the payload in bits, and the
/// port, which is carried beside the payload and never written into it.
#[derive(Debug, Clone)]
pub struct CompressedIpv6 {
    pub category: Ipv6Category,
    pub compressed_data: Vec<u8>,
    pub original_bits: usize,
    pub compressed_bits: usize,
    pub port: Option<u16>,
}

impl CompressedIpv6 {
    /// The invariant of a record: the payload is not empty, the original size
    /// is 128 bits, and the declared size leaves room for a port's 16 bits.
    pub open spec fn wf(&self) -> bool {
        &&& self.compressed_data@.len() > 0
        &&& self.original_bits == ADDRESS_BITS
        &&& self.compressed_bits + PORT_BITS <= usize::MAX
    }

    /// Whether the record holds exactly these values.
    pub open spec fn holds(
        &self,
        category: Ipv6Category,
        payload: Seq<u8>,
        bits: nat,
        port: Option<u16>,
    ) -> bool {
        &&& self.category == category
        &&& self.compressed_data@ == payload
        &&& self.original_bits == ADDRESS_BITS
        &&& self.compressed_bits == bits
        &&& self.port == port
    }

    /// The declared size with the port's bits added.
    pub open spec fn total(&self) -> nat {
        self.compressed_bits as nat + port_bits(self.port)
    }

    /// The size of what the record stands for: the address, and the port
    /// where there is one.
    pub open spec fn original_total(&self) -> nat {
        self.original_bits as nat + port_bits(self.port)
    }

    /// The record of category `category` with payload `data`, a declared size
    /// of eight bits per byte, and no port. An empty payload is rejected.
    pub fn from_bytes(data: &[u8], category: Ipv6Category) -> (r: Result<Self, FourWordError>)
        requires
            data@.len() * 8 + PORT_BITS <= usize::MAX,
        ensures
            data@.len() == 0 ==> r == Err::<Self, FourWordError>(
                FourWordError::InvalidInput(Violation::EmptyPayload),
            ),
            data@.len() > 0 ==> r is Ok && r->Ok_0.wf() && r->Ok_0.holds(
                category,
                data@,
                data@.len() * 8,
                None,
            ),
    {
        if data.len() == 0 {
            return Err(FourWordError::InvalidInput(Violation::EmptyPayload));
        }
        Ok(
            CompressedIpv6 {
                category,
                compressed_data: slice_to_vec(data),
                original_bits: ADDRESS_BITS,
                compressed_bits: data.len() * 8,
                port: None,
            },
        )
    }

    /// Whether the record meets its invariant.
    pub fn is_well_formed(&self) -> (b: bool)
        ensures
            b == self.wf(),
    {
        self.compressed_data.len() > 0 && self.original_bits == ADDRESS_BITS
            && self.compressed_bits <= usize::MAX - PORT_BITS
    }

    /// A copy of the payload.
    pub fn as_bytes(&self) -> (bytes: Vec<u8>)
        ensures
            bytes@ == self.compressed_data@,
    {
        let bytes = self.compressed_data.clone();
        assert(bytes@ =~= self.compressed_data@);
        bytes
    }

    /// The declared size with the port's 16 bits added where there is a port.
    pub fn total_bits(&self) -> (bits: usize)
        requires
            self.wf(),
        ensures
            bits == self.total(),
    {
        match self.port {
            Some(_) => self.compressed_bits + PORT_BITS,
            None => self.compressed_bits,
        }
    }

    /// The number of words recommended for this record: 4 up to 56 bits in
    /// total, 5 up to 70, else 6.
    pub fn recommended_word_count(&self) -> (words: usize)
        requires
            self.wf(),
        ensures
            words == word_count_for(self.total()),
            4 <= words <= 6,
    {
        let total_bits: usize = self.total_bits();
        if total_bits <= 56 {
            4
        } else if total_bits <= 70 {
            5
        } else {
            6
        }
    }

    /// The compression ratio, one minus total size over original size, as an
    /// exact fraction. The denominator is 128, or 144 with a port, so the
    /// fraction is always defined.
    pub fn compression_ratio(&self) -> (ratio: CompressionRatio)
        requires
            self.wf(),
        ensures
            ratio.original_bits == self.original_total(),
            ratio.original_bits == 128 + port_bits(self.port),
            ratio.original_bits > 0,
            ratio.saved_bits == self.original_total() - self.total(),
    {
        let original_total: usize = match self.port {
            Some(_) => self.original_bits + PORT_BITS,
            None => self.original_bits,
        };
        let total_bits: usize = self.total_bits();
        CompressionRatio {
            saved_bits: (original_total as i128) - (total_bits as i128),
            original_bits: original_total,
        }
    }

    /// The fixed description of the record's category.
    pub fn category_description(&self) -> (s: &'static str)
        ensures
            s@ == description_text(self.category),
    {
        self.category.description()
    }
}

/// The recommended word count never falls as the total size grows.
pub proof fn lemma_word_count_monotonic(a: nat, b: nat)
    requires
        a <= b,
    ensures
        word_count_for(a) <= word_count_for(b),
{
}

/// The recommended word count changes exactly behind 56 and behind 70 bits.
pub proof fn lemma_word_count_thresholds(total_bits: nat)
    ensures
        word_count_for(total_bits) == 4 <==> total_bits <= 56,
        word_count_for(total_bits) == 5 <==> 56 < total_bits <= 70,
        word_count_for(total_bits) == 6 <==> 70 < total_bits,
{
}

} // verus!
