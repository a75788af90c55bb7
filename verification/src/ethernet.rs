use crate::buffer::{Buffer, Region};
use crate::bytes::be16;
use crate::error::ParseError;
use crate::ipv6::Ipv6;
use vstd::prelude::*;

verus! {

/// The fixed Ethernet header length: destination MAC, source MAC,
/// ethertype.
pub const ETHERNET_HEADER_LEN: usize = 14;

/// The ethertype announcing an IPv6 payload.
pub const ETHERTYPE_IPV6: u16 = 0x86DD;

/// A parsed Ethernet layer: the buffer it was parsed from, plus the
/// region that starts at its own header and runs to the end of the frame.
pub struct Ethernet {
    buf: Buffer,
    region: Region,
}

impl Ethernet {
    /// The header lies fully inside the buffer.
    pub open spec fn wf(&self) -> bool {
        &&& self.buf_spec().len() <= usize::MAX
        &&& 0 <= self.base_spec()
        &&& self.base_spec() + self.len_spec() <= self.buf_spec().len()
        &&& self.len_spec() >= ETHERNET_HEADER_LEN
    }

    /// The bytes of the whole frame.
    pub closed spec fn buf_spec(&self) -> Seq<u8> {
        self.buf@
    }

    /// Offset of the Ethernet header inside the buffer.
    pub closed spec fn base_spec(&self) -> int {
        self.region.base as int
    }

    /// Bytes available from the header start to the end of the frame.
    pub closed spec fn len_spec(&self) -> int {
        self.region.len as int
    }

    /// The ethertype field, read big-endian.
    pub open spec fn ether_type_spec(&self) -> int {
        be16(self.buf_spec()[self.base_spec() + 12], self.buf_spec()[self.base_spec() + 13])
    }

    /// The destination MAC address bytes.
    pub open spec fn dst_spec(&self) -> Seq<u8> {
        self.buf_spec().subrange(self.base_spec(), self.base_spec() + 6)
    }

    /// The source MAC address bytes.
    pub open spec fn src_spec(&self) -> Seq<u8> {
        self.buf_spec().subrange(self.base_spec() + 6, self.base_spec() + 12)
    }

    /// Validates and consumes the fixed Ethernet header at the start of
    /// `region`: fails with `TooShort` exactly when the region holds fewer
    /// bytes than the header needs; otherwise the parsed layer covers the
    /// same bytes, and what follows the header is its remainder.
    pub fn parse(buf: Buffer, region: Region) -> (r: Result<Ethernet, ParseError>)
        requires
            region.wf(buf@.len() as int),
        ensures
            match r {
                Ok(e) => {
                    &&& region.len >= ETHERNET_HEADER_LEN
                    &&& e.wf()
                    &&& e.buf_spec() == buf@
                    &&& e.base_spec() == region.base
                    &&& e.len_spec() == region.len
                },
                Err(err) => {
                    &&& region.len < ETHERNET_HEADER_LEN
                    &&& err == ParseError::TooShort
                },
            },
    {
        proof {
            buf.lemma_capacity_in_bounds();
        }
        if region.len < ETHERNET_HEADER_LEN {
            Err(ParseError::TooShort)
        } else {
            Ok(Ethernet { buf, region })
        }
    }

    /// The ethertype field, converted to host order on read.
    pub fn ether_type(&self) -> (r: u16)
        requires
            self.wf(),
        ensures
            r == self.ether_type_spec(),
    {
        self.buf.read_u16_be(self.region.base + 12)
    }

    /// A copy of the destination MAC address.
    pub fn dst(&self) -> (r: Vec<u8>)
        requires
            self.wf(),
        ensures
            r@ == self.dst_spec(),
    {
        self.buf.read_bytes(self.region.base, 6)
    }

    /// A copy of the source MAC address.
    pub fn src(&self) -> (r: Vec<u8>)
        requires
            self.wf(),
        ensures
            r@ == self.src_spec(),
    {
        self.buf.read_bytes(self.region.base + 6, 6)
    }

    /// Consumes the Ethernet layer and parses the remaining bytes as the
    /// IPv6 layer.  Fails with `TooShort` exactly when fewer than the 40
    /// fixed IPv6 header bytes remain, and with `MalformedHeader` exactly
    /// when the version nibble of a long-enough remainder is not 6.
    pub fn parse_ipv6(self) -> (r: Result<Ipv6, ParseError>)
        requires
            self.wf(),
        ensures
            match r {
                Ok(ip) => {
                    &&& self.len_spec() - ETHERNET_HEADER_LEN >= 40
                    &&& self.buf_spec()[self.base_spec() + ETHERNET_HEADER_LEN] / 16 == 6
                    &&& ip.wf()
                    &&& ip.buf_spec() == self.buf_spec()
                    &&& ip.base_spec() == self.base_spec() + ETHERNET_HEADER_LEN
                    &&& ip.len_spec() == self.len_spec() - ETHERNET_HEADER_LEN
                },
                Err(err) => {
                    &&& (err == ParseError::TooShort <==> self.len_spec() - ETHERNET_HEADER_LEN
                        < 40)
                    &&& (err == ParseError::MalformedHeader <==> self.len_spec()
                        - ETHERNET_HEADER_LEN >= 40 && self.buf_spec()[self.base_spec()
                        + ETHERNET_HEADER_LEN] / 16 != 6)
                    &&& (err == ParseError::TooShort || err == ParseError::MalformedHeader)
                },
            },
    {
        let rest = Region {
            base: self.region.base + ETHERNET_HEADER_LEN,
            len: self.region.len - ETHERNET_HEADER_LEN,
        };
        Ipv6::parse(self.buf, rest)
    }
}

} // verus!
