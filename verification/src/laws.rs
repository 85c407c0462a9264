//! What holds of the layouts taken together: which address comes back from a
//! compressed one, and how the classes lie in the address space.

use vstd::prelude::*;
use crate::address::{
    is_loopback_segments, is_unspecified_segments, loopback_segments, unspecified_segments,
};
use crate::bytes::{
    join_bytes, lemma_join_of_split, lemma_segments_of_bytes, low_byte, segment_bytes,
    segments_from_bytes,
};
use crate::category::{category_tag, classify, Ipv6Category};
use crate::compressor::{compressed_payload, compressed_size, decompressed};
use crate::documentation::{
    documentation_base, documentation_decode, documentation_form, documentation_interface,
    documentation_payload, DocumentationForm,
};
use crate::error::FourWordError;
use crate::global_unicast::{
    global_unicast_decode, global_unicast_payload, provider_pattern, provider_prefix,
};
use crate::interface_id::{
    entries, first_nonzero, lemma_decode_entries_of, lemma_entries_len, nonzero_count,
};
use crate::link_local::{
    link_local_base, link_local_decode, link_local_form, link_local_payload, LinkLocalForm,
};
use crate::special::{special_decode, verbatim_payload};
use crate::unique_local::{unique_local_decode, unique_local_payload, zero_interface_id};

verus! {

/// What is left of a link-local address in its payload: the prefix becomes
/// `fe80:0:0:0`, and under marker 2 only the low byte of segment 6 is kept.
pub open spec fn link_local_image(segs: Seq<u16>) -> Seq<u16> {
    seq![
        0xfe80u16,
        0u16,
        0u16,
        0u16,
        segs[4],
        segs[5],
        if link_local_form(segs) == LinkLocalForm::Eui64 {
            low_byte(segs[6]) as u16
        } else {
            segs[6]
        },
        segs[7],
    ]
}

/// What is left of a unique local address in its payload: segments 0 to 3.
pub open spec fn unique_local_image(segs: Seq<u16>) -> Seq<u16> {
    segs.subrange(0, 4) + zero_interface_id()
}

/// What is left of a documentation address in its payload: the prefix becomes
/// `2001:db8`, the rest is kept.
pub open spec fn documentation_image(segs: Seq<u16>) -> Seq<u16> {
    seq![0x2001u16, 0x0db8u16] + segs.subrange(2, 8)
}

/// The address that comes back when `segs` is compressed and the record is
/// decompressed.
pub open spec fn restored(segs: Seq<u16>) -> Seq<u16> {
    match classify(segs) {
        Ipv6Category::LinkLocal => link_local_image(segs),
        Ipv6Category::UniqueLocal => unique_local_image(segs),
        _ => segs,
    }
}

/// Whether the layout of its category keeps all of `segs`. A unique local
/// address is kept where its interface identifier is zero. A link-local
/// address is kept where its first four segments are `fe80:0:0:0` and, under
/// marker 2, segment 6 fits in a byte. Every other address is kept.
pub open spec fn is_representable(segs: Seq<u16>) -> bool {
    match classify(segs) {
        Ipv6Category::LinkLocal => {
            &&& segs[0] == 0xfe80
            &&& segs[1] == 0
            &&& segs[2] == 0
            &&& segs[3] == 0
            &&& (link_local_form(segs) == LinkLocalForm::Eui64 ==> segs[6] <= 255)
        },
        Ipv6Category::UniqueLocal => nonzero_count(segs) == 0,
        _ => true,
    }
}

/// Reading the payload of a link-local address gives the address's image.
pub proof fn lemma_link_local_round_trip(segs: Seq<u16>)
    requires
        segs.len() == 8,
    ensures
        link_local_decode(link_local_payload(segs)) == Ok::<Seq<u16>, FourWordError>(
            link_local_image(segs),
        ),
{
    let data = link_local_payload(segs);
    let image = link_local_image(segs);
    match link_local_form(segs) {
        LinkLocalForm::Zero => {
            assert(link_local_base() =~= image);
        },
        LinkLocalForm::SingleSmall => {
            let k = first_nonzero(segs);
            assert(data[2] as u16 == segs[4 + k]);
            assert(link_local_base().update(4 + k, segs[4 + k]) =~= image);
        },
        LinkLocalForm::Eui64 => {
            let s4 = segs[4];
            lemma_join_of_split(s4);
            lemma_join_of_split(segs[5]);
            assert(s4 | 0x0200 == s4) by (bit_vector)
                requires
                    s4 & 0x0200 == 0x0200,
            ;
            assert(link_local_decode(data)->Ok_0 =~= image);
        },
        LinkLocalForm::General => {
            lemma_entries_len(segs);
            assert(data.subrange(1, 1 + entries(segs).len() as int) =~= entries(segs));
            lemma_decode_entries_of(data, 1, link_local_base(), segs);
            assert(link_local_base().subrange(0, 4) + segs.subrange(4, 8) =~= image);
        },
    }
}

/// Reading the payload of a unique local address gives its first four
/// segments and a zero interface identifier.
pub proof fn lemma_unique_local_round_trip(segs: Seq<u16>)
    requires
        segs.len() == 8,
    ensures
        unique_local_decode(unique_local_payload(segs)) == Ok::<Seq<u16>, FourWordError>(
            unique_local_image(segs),
        ),
{
    let data = unique_local_payload(segs);
    assert(data.subrange(0, 8) =~= data);
    lemma_segments_of_bytes(data, 0, segs.subrange(0, 4));
}

/// The payload of a documentation address begins with segments 2 and 3, and
/// goes on with the bytes of the interface identifier.
proof fn lemma_documentation_parts(segs: Seq<u16>)
    requires
        segs.len() == 8,
    ensures
        documentation_payload(segs).len() == 4 + documentation_interface(segs).len(),
        documentation_base(documentation_payload(segs)) == seq![
            0x2001u16,
            0x0db8u16,
            segs[2],
            segs[3],
            0u16,
            0u16,
            0u16,
            0u16,
        ],
        forall|j: int|
            0 <= j < documentation_interface(segs).len() ==> documentation_payload(segs)[4 + j]
                == #[trigger] documentation_interface(segs)[j],
{
    let data = documentation_payload(segs);
    let head = segment_bytes(segs.subrange(2, 4));
    assert(head.len() == 4);
    assert(data.subrange(0, 4) =~= head);
    lemma_segments_of_bytes(data, 0, segs.subrange(2, 4));
    let read = segments_from_bytes(data, 0, 2);
    assert(read[0] == join_bytes(data[0], data[1]));
    assert(read[1] == join_bytes(data[2], data[3]));
}

/// Reading the payload of a documentation address gives segments 2 to 7
/// behind the prefix `2001:db8`.
pub proof fn lemma_documentation_round_trip(segs: Seq<u16>)
    requires
        segs.len() == 8,
    ensures
        documentation_decode(documentation_payload(segs)) == Ok::<Seq<u16>, FourWordError>(
            documentation_image(segs),
        ),
{
    let data = documentation_payload(segs);
    let tail = documentation_interface(segs);
    let image = documentation_image(segs);
    let base = documentation_base(data);
    lemma_documentation_parts(segs);
    lemma_entries_len(segs);
    assert(data[4] == tail[0]);
    match documentation_form(segs) {
        DocumentationForm::Zero => {
            assert(base =~= image);
        },
        DocumentationForm::SingleSmall => {
            let k = first_nonzero(segs);
            assert(data[5] == tail[1]);
            assert(data[6] == tail[2]);
            assert(data[6] as u16 == segs[4 + k]);
            assert(base.update(4 + k, segs[4 + k]) =~= image);
        },
        DocumentationForm::General => {
            let list = entries(segs);
            assert(data.subrange(5, 5 + list.len() as int) =~= list) by {
                assert forall|j: int| 0 <= j < list.len() implies data[5 + j] == list[j] by {
                    assert(data[4 + (1 + j)] == tail[1 + j]);
                }
            }
            lemma_decode_entries_of(data, 5, base, segs);
            assert(base.subrange(0, 4) + segs.subrange(4, 8) =~= image);
        },
    }
}

/// Reading the payload of a global unicast address gives the address, with a
/// provider pattern and without.
pub proof fn lemma_global_unicast_round_trip(segs: Seq<u16>)
    requires
        segs.len() == 8,
    ensures
        global_unicast_decode(global_unicast_payload(segs)) == Ok::<Seq<u16>, FourWordError>(
            segs,
        ),
{
    let data = global_unicast_payload(segs);
    match provider_pattern(segs) {
        Some(id) => {
            assert(data.len() == 13);
            assert(data[0] == id);
            assert(provider_prefix(id) == Some((segs[0], segs[1])));
            assert(data.subrange(1, 13) =~= segment_bytes(segs.subrange(2, 8)));
            lemma_segments_of_bytes(data, 1, segs.subrange(2, 8));
            assert(seq![segs[0], segs[1]] + segs.subrange(2, 8) =~= segs);
        },
        None => {
            lemma_verbatim_round_trip(segs);
        },
    }
}

/// Reading the 16 bytes of an address stored as it is gives the address.
pub proof fn lemma_verbatim_round_trip(segs: Seq<u16>)
    requires
        segs.len() == 8,
    ensures
        segments_from_bytes(verbatim_payload(segs), 0, 8) == segs,
        special_decode(verbatim_payload(segs)) == Ok::<Seq<u16>, FourWordError>(segs),
{
    let data = verbatim_payload(segs);
    assert(data.subrange(0, 16) =~= data);
    lemma_segments_of_bytes(data, 0, segs);
}

/// Decompressing what `compress` made of an address succeeds, whatever the
/// address, and gives `restored` of it.
pub proof fn lemma_decompress_of_compress(segs: Seq<u16>)
    requires
        segs.len() == 8,
    ensures
        decompressed(classify(segs), compressed_payload(segs)) == Ok::<Seq<u16>, FourWordError>(
            restored(segs),
        ),
{
    match classify(segs) {
        Ipv6Category::Loopback => {
            assert(segs =~= loopback_segments());
        },
        Ipv6Category::Unspecified => {
            assert(segs =~= unspecified_segments());
        },
        Ipv6Category::LinkLocal => {
            lemma_link_local_round_trip(segs);
        },
        Ipv6Category::UniqueLocal => {
            lemma_unique_local_round_trip(segs);
        },
        Ipv6Category::Documentation => {
            lemma_documentation_round_trip(segs);
            assert(documentation_image(segs) =~= segs);
        },
        Ipv6Category::GlobalUnicast => {
            lemma_global_unicast_round_trip(segs);
        },
        Ipv6Category::Special => {
            lemma_verbatim_round_trip(segs);
        },
    }
}

/// An address comes back from compression unchanged exactly where it is
/// representable.
pub proof fn lemma_round_trip(segs: Seq<u16>)
    requires
        segs.len() == 8,
    ensures
        is_representable(segs) <==> decompressed(classify(segs), compressed_payload(segs)) == Ok::<
            Seq<u16>,
            FourWordError,
        >(segs),
{
    lemma_decompress_of_compress(segs);
    let back = restored(segs);
    match classify(segs) {
        Ipv6Category::LinkLocal => {
            if is_representable(segs) {
                assert(back =~= segs);
            } else {
                assert(back[0] != segs[0] || back[1] != segs[1] || back[2] != segs[2] || back[3]
                    != segs[3] || back[6] != segs[6]);
            }
        },
        Ipv6Category::UniqueLocal => {
            if is_representable(segs) {
                assert(back =~= segs);
            } else {
                assert(back[4] != segs[4] || back[5] != segs[5] || back[6] != segs[6] || back[7]
                    != segs[7]);
            }
        },
        _ => {},
    }
}

/// A unique local address comes back with its first four segments kept and
/// its interface identifier zero, whatever that was.
pub proof fn lemma_unique_local_drops_interface_id(segs: Seq<u16>)
    requires
        segs.len() == 8,
        classify(segs) == Ipv6Category::UniqueLocal,
    ensures
        decompressed(classify(segs), compressed_payload(segs)) == Ok::<Seq<u16>, FourWordError>(
            segs.subrange(0, 4) + zero_interface_id(),
        ),
        nonzero_count(segs) != 0 ==> decompressed(classify(segs), compressed_payload(segs)) != Ok::<
            Seq<u16>,
            FourWordError,
        >(segs),
{
    lemma_round_trip(segs);
    lemma_decompress_of_compress(segs);
}

/// The declared size of a compressed address lies between 40 and 144 bits,
/// and the payload between 5 and 18 bytes. An address stored as it is has a
/// declared size of 131 bits, three more than the address itself.
pub proof fn lemma_size_range(segs: Seq<u16>)
    requires
        segs.len() == 8,
    ensures
        40 <= compressed_size(segs) <= 144,
        5 <= compressed_payload(segs).len() <= 18,
        classify(segs) == Ipv6Category::Special ==> compressed_size(segs) == 131,
        classify(segs) == Ipv6Category::GlobalUnicast && provider_pattern(segs) is None
            ==> compressed_size(segs) == 131,
{
    lemma_entries_len(segs);
}

/// The classes as ranges of the first segment: link-local is `fe80` to
/// `febf`, unique local `fc00` to `fdff`, documentation the one prefix
/// `2001:db8`, and global unicast `2000` to `3fff` without that prefix. The
/// two single addresses come first, and everything else is special.
pub proof fn lemma_classes_by_range(segs: Seq<u16>)
    requires
        segs.len() == 8,
    ensures
        classify(segs) == Ipv6Category::Loopback <==> segs == loopback_segments(),
        classify(segs) == Ipv6Category::Unspecified <==> segs == unspecified_segments(),
        classify(segs) == Ipv6Category::LinkLocal <==> 0xfe80 <= segs[0] <= 0xfebf,
        classify(segs) == Ipv6Category::UniqueLocal <==> 0xfc00 <= segs[0] <= 0xfdff,
        classify(segs) == Ipv6Category::Documentation <==> segs[0] == 0x2001 && segs[1] == 0x0db8,
        classify(segs) == Ipv6Category::GlobalUnicast <==> 0x2000 <= segs[0] <= 0x3fff && !(segs[0]
            == 0x2001 && segs[1] == 0x0db8),
        classify(segs) == Ipv6Category::Special <==> segs != loopback_segments() && segs
            != unspecified_segments() && !(0x2000 <= segs[0] <= 0x3fff) && !(0xfc00 <= segs[0]
            <= 0xfdff) && !(0xfe80 <= segs[0] <= 0xfebf),
{
    let s0 = segs[0];
    assert((s0 & 0xFFC0 == 0xFE80) <==> (0xfe80 <= s0 <= 0xfebf)) by (bit_vector);
    assert((s0 & 0xFE00 == 0xFC00) <==> (0xfc00 <= s0 <= 0xfdff)) by (bit_vector);
    assert((s0 & 0xE000 == 0x2000) <==> (0x2000 <= s0 <= 0x3fff)) by (bit_vector);
    if is_loopback_segments(segs) {
        assert(segs =~= loopback_segments());
    }
    if is_unspecified_segments(segs) {
        assert(segs =~= unspecified_segments());
    }
    if segs == loopback_segments() {
        assert(is_loopback_segments(segs));
    }
    if segs == unspecified_segments() {
        assert(is_unspecified_segments(segs));
    }
}

/// Two categories with the same tag are the same category, and every tag is
/// at most 6.
pub proof fn lemma_tags_distinct(a: Ipv6Category, b: Ipv6Category)
    ensures
        category_tag(a) <= 6,
        category_tag(a) == category_tag(b) <==> a == b,
{
}

} // verus!
