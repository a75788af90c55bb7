use crate::buffer::Region;
use crate::error::ParseError;
use core::marker::PhantomData;
use vstd::prelude::*;

verus! {

/// Capability every ICMPv6 payload shape supplies: its fixed size in
/// bytes, so the generic envelope knows where the options region begins.
pub trait Icmpv6Payload: Sized {
    /// The wire-format fixed payload length in bytes.
    spec fn spec_size() -> usize;

    /// Executable twin of `spec_size`.
    fn size() -> (r: usize)
        ensures
            r == Self::spec_size(),
    ;
}

/// Capability of the Neighbor Discovery message shapes: each carries the
/// ICMPv6 type tag that selects it.
pub trait NdpPayload: Icmpv6Payload {
    /// The ICMPv6 message type tag that announces this payload shape.
    spec fn spec_msg_type() -> u8;

    /// Executable twin of `spec_msg_type`.
    fn msg_type() -> (r: u8)
        ensures
            r == Self::spec_msg_type(),
    ;
}

/// The payload of a generic envelope before any downcast: no shape has
/// been committed to, so its fixed size is zero and everything after the
/// common header counts as options.
pub struct Unparsed;

impl Icmpv6Payload for Unparsed {
    open spec fn spec_size() -> usize {
        0
    }

    fn size() -> usize {
        0
    }
}

/// A typed view anchored at a byte offset: it interprets the
/// `H::spec_size()` bytes starting at `base` as the fields of `H`, stored
/// big-endian.  It owns no data; field accessors read and write through
/// the buffer, converting byte order on access.
pub struct Overlay<H: Icmpv6Payload> {
    pub base: usize,
    pub shape: PhantomData<H>,
}

impl<H: Icmpv6Payload> Overlay<H> {
    /// Anchors a typed view at an absolute offset whose bounds the
    /// caller has already established.
    pub fn anchor(base: usize) -> (r: Overlay<H>)
        ensures
            r.base == base,
    {
        Overlay { base, shape: PhantomData }
    }

    /// Bounds-checked construction: anchors a typed view `at_offset` bytes
    /// into `region`, failing with `TooShort` exactly when fewer than
    /// `H::spec_size()` bytes of the region would remain for it.
    pub fn overlay(region: Region, at_offset: usize) -> (r: Result<Overlay<H>, ParseError>)
        requires
            region.base + region.len <= usize::MAX,
        ensures
            match r {
                Ok(o) => {
                    &&& at_offset + H::spec_size() <= region.len
                    &&& o.base == region.base + at_offset
                },
                Err(e) => {
                    &&& at_offset + H::spec_size() > region.len
                    &&& e == ParseError::TooShort
                },
            },
    {
        let sz = H::size();
        if sz <= region.len && at_offset <= region.len - sz {
            Ok(Overlay { base: region.base + at_offset, shape: PhantomData })
        } else {
            Err(ParseError::TooShort)
        }
    }
}

} // verus!
