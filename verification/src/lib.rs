//! Structure-aware compression of 128-bit network addresses.
//!
//! An address is assigned to one of seven structural categories, and each
//! category has its own byte layout that leaves out what the category already
//! determines. Every executable function carries a contract over the
//! mathematical model of its data: an address is a sequence of eight 16-bit
//! segments, a payload is a sequence of bytes.

pub mod address;
pub mod bytes;
pub mod category;
pub mod compressor;
pub mod documentation;
pub mod error;
pub mod global_unicast;
pub mod interface_id;
pub mod laws;
pub mod link_local;
pub mod record;
pub mod special;
pub mod unique_local;

pub use address::Ipv6Address;
pub use category::Ipv6Category;
pub use compressor::Ipv6Compressor;
pub use documentation::DocumentationForm;
pub use error::{FourWordError, Violation};
pub use link_local::LinkLocalForm;
pub use record::{CompressedIpv6, CompressionRatio};
