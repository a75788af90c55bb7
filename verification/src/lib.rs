//! Zero-copy, layered parsing of ICMPv6 Neighbor Discovery messages.
//!
//! A raw byte buffer is interpreted as a chain of nested protocol headers
//! (Ethernet, then IPv6, then an ICMPv6 envelope) without copying the
//! payload bytes.  The generic envelope is narrowed to one of the NDP
//! message shapes by its runtime type tag, and every field accessor is a
//! bounds-checked big-endian read or write over the underlying buffer.

pub mod buffer;
pub mod bytes;
pub mod checksum;
pub mod error;
pub mod ethernet;
pub mod icmpv6;
pub mod ipv6;
pub mod ndp;
pub mod payload;
pub mod text;
