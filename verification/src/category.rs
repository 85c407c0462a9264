//! The seven structural categories and the rule that assigns one to an address.

use vstd::prelude::*;
use crate::address::{is_loopback_segments, is_unspecified_segments};
use crate::error::{FourWordError, Violation};

verus! {

/// The structural class of an address. The classes are disjoint: the
/// classifier assigns each address exactly one.
#[derive(Debug, Clone, Copy, PartialEq, Eq, Hash, Structural)]
pub enum Ipv6Category {
    /// The single address `::1`.
    Loopback,
    /// `fe80::/10`.
    LinkLocal,
    /// `fc00::/7`.
    UniqueLocal,
    /// `2001:db8::/32`.
    Documentation,
    /// `2000::/3`, `2001:db8::/32` left out.
    GlobalUnicast,
    /// The single address `::`.
    Unspecified,
    /// Multicast and whatever no other class holds.
    Special,
}

/// The 3-bit tag of a category.
pub open spec fn category_tag(c: Ipv6Category) -> u8 {
    match c {
        Ipv6Category::Loopback => 0,
        Ipv6Category::LinkLocal => 1,
        Ipv6Category::UniqueLocal => 2,
        Ipv6Category::Documentation => 3,
        Ipv6Category::GlobalUnicast => 4,
        Ipv6Category::Unspecified => 5,
        Ipv6Category::Special => 6,
    }
}

/// The category of the address with segments `segs`. The rules are tried in
/// this order and the first that matches decides.
pub open spec fn classify(segs: Seq<u16>) -> Ipv6Category {
    if is_loopback_segments(segs) {
        Ipv6Category::Loopback
    } else if is_unspecified_segments(segs) {
        Ipv6Category::Unspecified
    } else if segs[0] & 0xFFC0 == 0xFE80 {
        Ipv6Category::LinkLocal
    } else if segs[0] & 0xFE00 == 0xFC00 {
        Ipv6Category::UniqueLocal
    } else if segs[0] == 0x2001 && segs[1] == 0x0DB8 {
        Ipv6Category::Documentation
    } else if segs[0] & 0xE000 == 0x2000 {
        Ipv6Category::GlobalUnicast
    } else {
        Ipv6Category::Special
    }
}

/// The fixed description of a category.
pub open spec fn description_text(c: Ipv6Category) -> Seq<char> {
    match c {
        Ipv6Category::Loopback => "IPv6 Loopback (::1)"@,
        Ipv6Category::LinkLocal => "Link-Local (fe80::)"@,
        Ipv6Category::UniqueLocal => "Unique Local (fc00::)"@,
        Ipv6Category::Documentation => "Documentation (2001:db8::)"@,
        Ipv6Category::GlobalUnicast => "Global Unicast"@,
        Ipv6Category::Unspecified => "Unspecified (::)"@,
        Ipv6Category::Special => "Special/Multicast"@,
    }
}

impl Ipv6Category {
    /// The 3-bit tag of this category.
    pub fn to_bits(&self) -> (bits: u8)
        ensures
            bits == category_tag(*self),
            bits <= 6,
    {
        match self {
            Ipv6Category::Loopback => 0,
            Ipv6Category::LinkLocal => 1,
            Ipv6Category::UniqueLocal => 2,
            Ipv6Category::Documentation => 3,
            Ipv6Category::GlobalUnicast => 4,
            Ipv6Category::Unspecified => 5,
            Ipv6Category::Special => 6,
        }
    }

    /// The category with tag `bits`. Tags above 6 name no category and are
    /// rejected.
    pub fn from_bits(bits: u8) -> (r: Result<Self, FourWordError>)
        ensures
            bits <= 6 ==> r is Ok && category_tag(r->Ok_0) == bits,
            bits > 6 ==> r == Err::<Self, FourWordError>(
                FourWordError::InvalidInput(Violation::CategoryBits(bits)),
            ),
    {
        match bits {
            0 => Ok(Ipv6Category::Loopback),
            1 => Ok(Ipv6Category::LinkLocal),
            2 => Ok(Ipv6Category::UniqueLocal),
            3 => Ok(Ipv6Category::Documentation),
            4 => Ok(Ipv6Category::GlobalUnicast),
            5 => Ok(Ipv6Category::Unspecified),
            6 => Ok(Ipv6Category::Special),
            _ => Err(FourWordError::InvalidInput(Violation::CategoryBits(bits))),
        }
    }

    /// The fixed description of this category.
    pub fn description(&self) -> (s: &'static str)
        ensures
            s@ == description_text(*self),
    {
        match self {
            Ipv6Category::Loopback => "IPv6 Loopback (::1)",
            Ipv6Category::LinkLocal => "Link-Local (fe80::)",
            Ipv6Category::UniqueLocal => "Unique Local (fc00::)",
            Ipv6Category::Documentation => "Documentation (2001:db8::)",
            Ipv6Category::GlobalUnicast => "Global Unicast",
            Ipv6Category::Unspecified => "Unspecified (::)",
            Ipv6Category::Special => "Special/Multicast",
        }
    }
}

} // verus!
