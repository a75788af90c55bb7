use crate::buffer::{Buffer, Region};
use crate::bytes::be16;
use crate::error::ParseError;
use vstd::prelude::*;

verus! {

/// The fixed IPv6 header length.
pub const IPV6_HEADER_LEN: usize = 40;

/// The next-header value announcing an ICMPv6 payload.
pub const NEXT_HEADER_ICMPV6: u8 = 58;

/// A parsed IPv6 layer: the buffer it was parsed from, plus the region
/// that starts at its own header and runs to the end of the frame.
pub struct Ipv6 {
    buf: Buffer,
    region: Region,
}

impl Ipv6 {
    /// The fixed header lies fully inside the buffer and carries version 6.
    pub open spec fn wf(&self) -> bool {
        &&& self.buf_spec().len() <= usize::MAX
        &&& 0 <= self.base_spec()
        &&& self.base_spec() + self.len_spec() <= self.buf_spec().len()
        &&& self.len_spec() >= IPV6_HEADER_LEN
        &&& self.version_spec() == 6
    }

    /// The bytes of the whole frame.
    pub closed spec fn buf_spec(&self) -> Seq<u8> {
        self.buf@
    }

    /// Offset of the IPv6 header inside the buffer.
    pub closed spec fn base_spec(&self) -> int {
        self.region.base as int
    }

    /// Bytes available from the header start to the end of the frame.
    pub closed spec fn len_spec(&self) -> int {
        self.region.len as int
    }

    /// The version nibble, 6 on every well-formed value.
    pub open spec fn version_spec(&self) -> int {
        (self.buf_spec()[self.base_spec()] as int) / 16
    }

    /// The declared length in bytes of everything after the fixed header.
    pub open spec fn payload_length_spec(&self) -> int {
        be16(self.buf_spec()[self.base_spec() + 4], self.buf_spec()[self.base_spec() + 5])
    }

    /// The next-header protocol tag.
    pub open spec fn next_header_spec(&self) -> u8 {
        self.buf_spec()[self.base_spec() + 6]
    }

    /// The hop-limit field.
    pub open spec fn hop_limit_spec(&self) -> u8 {
        self.buf_spec()[self.base_spec() + 7]
    }

    /// The source address bytes.
    pub open spec fn source_spec(&self) -> Seq<u8> {
        self.buf_spec().subrange(self.base_spec() + 8, self.base_spec() + 24)
    }

    /// The destination address bytes.
    pub open spec fn destination_spec(&self) -> Seq<u8> {
        self.buf_spec().subrange(self.base_spec() + 24, self.base_spec() + 40)
    }

    /// Validates and consumes the fixed IPv6 header at the start of
    /// `region`: fails with `TooShort` exactly when fewer than 40 bytes
    /// are there, and with `MalformedHeader` exactly when the version
    /// nibble of a long-enough region is not 6.
    pub fn parse(buf: Buffer, region: Region) -> (r: Result<Ipv6, ParseError>)
        requires
            region.wf(buf@.len() as int),
        ensures
            match r {
                Ok(ip) => {
                    &&& region.len >= IPV6_HEADER_LEN
                    &&& buf@[region.base as int] / 16 == 6
                    &&& ip.wf()
                    &&& ip.buf_spec() == buf@
                    &&& ip.base_spec() == region.base
                    &&& ip.len_spec() == region.len
                },
                Err(err) => {
                    &&& (err == ParseError::TooShort <==> region.len < IPV6_HEADER_LEN)
                    &&& (err == ParseError::MalformedHeader <==> region.len >= IPV6_HEADER_LEN
                        && buf@[region.base as int] / 16 != 6)
                    &&& (err == ParseError::TooShort || err == ParseError::MalformedHeader)
                },
            },
    {
        proof {
            buf.lemma_capacity_in_bounds();
        }
        if region.len < IPV6_HEADER_LEN {
            Err(ParseError::TooShort)
        } else if buf.byte(region.base) / 16 != 6 {
            Err(ParseError::MalformedHeader)
        } else {
            Ok(Ipv6 { buf, region })
        }
    }

    /// The version nibble, converted on read.
    pub fn version(&self) -> (r: u8)
        requires
            self.wf(),
        ensures
            r == self.version_spec(),
            r == 6,
    {
        self.buf.byte(self.region.base) / 16
    }

    /// The declared payload length, converted to host order on read.
    pub fn payload_length(&self) -> (r: u16)
        requires
            self.wf(),
        ensures
            r == self.payload_length_spec(),
    {
        self.buf.read_u16_be(self.region.base + 4)
    }

    /// The next-header protocol tag.
    pub fn next_header(&self) -> (r: u8)
        requires
            self.wf(),
        ensures
            r == self.next_header_spec(),
    {
        self.buf.byte(self.region.base + 6)
    }

    /// The hop-limit field.
    pub fn hop_limit(&self) -> (r: u8)
        requires
            self.wf(),
        ensures
            r == self.hop_limit_spec(),
    {
        self.buf.byte(self.region.base + 7)
    }

    /// A copy of the source address.
    pub fn source(&self) -> (r: Vec<u8>)
        requires
            self.wf(),
        ensures
            r@ == self.source_spec(),
    {
        self.buf.read_bytes(self.region.base + 8, 16)
    }

    /// A copy of the destination address.
    pub fn destination(&self) -> (r: Vec<u8>)
        requires
            self.wf(),
        ensures
            r@ == self.destination_spec(),
    {
        self.buf.read_bytes(self.region.base + 24, 16)
    }

    /// Hands the parsed layer's parts to the next stage.
    pub(crate) fn into_parts(self) -> (r: (Buffer, Region))
        ensures
            r.0@ == self.buf_spec(),
            r.1.base == self.base_spec(),
            r.1.len == self.len_spec(),
    {
        (self.buf, self.region)
    }
}

} // verus!
