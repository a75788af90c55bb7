use crate::buffer::{Buffer, Region};
use crate::bytes::{be16, be16_b0, be16_b1, be32, be32_b0, be32_b1, be32_b2, be32_b3};
use crate::checksum::{ones_complement_all_ones, sum_words_range, words_sum};
use crate::error::ParseError;
use crate::ipv6::{Ipv6, IPV6_HEADER_LEN, NEXT_HEADER_ICMPV6};
use crate::payload::{Icmpv6Payload, NdpPayload, Overlay, Unparsed};
use vstd::prelude::*;

verus! {

/// The common ICMPv6 header length: type, code, checksum.
pub const ICMPV6_HEADER_LEN: usize = 4;

/// An ICMPv6 envelope: the common header (type, code, checksum) plus a
/// payload overlay typed by `P`.  Freshly parsed envelopes carry the
/// `Unparsed` payload and expose only the common fields; `downcast`
/// narrows them to a concrete message shape without copying or
/// re-parsing.
pub struct Icmpv6<P: Icmpv6Payload> {
    buf: Buffer,
    ip_base: usize,
    msg_len: usize,
    payload: Overlay<P>,
}

impl<P: Icmpv6Payload> Icmpv6<P> {
    /// The bytes of the whole frame.
    pub closed spec fn buf_spec(&self) -> Seq<u8> {
        self.buf@
    }

    /// Offset of the IPv6 header the envelope was parsed under; the
    /// checksum pseudo-header is assembled from it.
    pub closed spec fn ip_base_spec(&self) -> int {
        self.ip_base as int
    }

    /// Length in bytes of the whole ICMPv6 message, as the IPv6 layer
    /// declared it.
    pub closed spec fn msg_len_spec(&self) -> int {
        self.msg_len as int
    }

    /// Offset where the payload overlay is anchored.
    pub closed spec fn payload_base_spec(&self) -> int {
        self.payload.base as int
    }

    /// Offset of the ICMPv6 common header.
    pub open spec fn base_spec(&self) -> int {
        self.ip_base_spec() + IPV6_HEADER_LEN
    }

    /// The envelope lies fully inside the buffer, its message length is
    /// the one the IPv6 header declares, the next-header tag is ICMPv6,
    /// and the fixed payload fits before the options region.
    pub open spec fn wf(&self) -> bool {
        &&& self.buf_spec().len() <= usize::MAX
        &&& 0 <= self.ip_base_spec()
        &&& self.base_spec() + self.msg_len_spec() <= self.buf_spec().len()
        &&& self.msg_len_spec() == be16(
            self.buf_spec()[self.ip_base_spec() + 4],
            self.buf_spec()[self.ip_base_spec() + 5],
        )
        &&& self.buf_spec()[self.ip_base_spec() + 6] == NEXT_HEADER_ICMPV6
        &&& ICMPV6_HEADER_LEN + P::spec_size() <= self.msg_len_spec()
        &&& self.payload_base_spec() == self.base_spec() + ICMPV6_HEADER_LEN
    }

    /// The message type tag.
    pub open spec fn msg_type_spec(&self) -> u8 {
        self.buf_spec()[self.base_spec()]
    }

    /// The message code.
    pub open spec fn code_spec(&self) -> u8 {
        self.buf_spec()[self.base_spec() + 1]
    }

    /// The wire checksum field, read big-endian.
    pub open spec fn checksum_spec(&self) -> int {
        be16(self.buf_spec()[self.base_spec() + 2], self.buf_spec()[self.base_spec() + 3])
    }

    /// The byte `off` of the fixed payload.
    pub open spec fn payload_byte_spec(&self, off: int) -> u8 {
        self.buf_spec()[self.payload_base_spec() + off]
    }

    /// The trailing options region: everything of the message after the
    /// fixed payload, reserved untouched for the caller, not interpreted
    /// here.
    pub open spec fn options_spec(&self) -> Seq<u8> {
        self.buf_spec().subrange(
            self.payload_base_spec() + P::spec_size(),
            self.base_spec() + self.msg_len_spec(),
        )
    }

    /// The sum the internet checksum folds for this message: the
    /// pseudo-header words (source and destination address, upper-layer
    /// length, next-header 58) plus the words of the whole message,
    /// checksum field included.
    pub open spec fn checksum_input_sum(&self) -> int {
        words_sum(self.buf_spec().subrange(self.ip_base_spec() + 8, self.ip_base_spec() + 40))
            + self.msg_len_spec() + NEXT_HEADER_ICMPV6 + words_sum(
            self.buf_spec().subrange(self.base_spec(), self.base_spec() + self.msg_len_spec()),
        )
    }

    /// The wire checksum agrees with the message: the ones'-complement
    /// sum over pseudo-header and message is a multiple of 0xFFFF.
    pub open spec fn checksum_ok_spec(&self) -> bool {
        self.checksum_input_sum() % 0xFFFF == 0
    }

    /// The message type tag, read through the overlay.
    pub fn msg_type(&self) -> (r: u8)
        requires
            self.wf(),
        ensures
            r == self.msg_type_spec(),
    {
        self.buf.byte(self.ip_base + IPV6_HEADER_LEN)
    }

    /// The message code, read through the overlay.
    pub fn code(&self) -> (r: u8)
        requires
            self.wf(),
        ensures
            r == self.code_spec(),
    {
        self.buf.byte(self.ip_base + IPV6_HEADER_LEN + 1)
    }

    /// The wire checksum, converted to host order on read.
    pub fn checksum(&self) -> (r: u16)
        requires
            self.wf(),
        ensures
            r == self.checksum_spec(),
    {
        self.buf.read_u16_be(self.ip_base + IPV6_HEADER_LEN + 2)
    }

    /// Total length in bytes of the ICMPv6 message.
    pub fn msg_len(&self) -> (r: usize)
        requires
            self.wf(),
        ensures
            r == self.msg_len_spec(),
    {
        self.msg_len
    }

    /// A copy of the options region.
    pub fn options(&self) -> (r: Vec<u8>)
        requires
            self.wf(),
        ensures
            r@ == self.options_spec(),
    {
        let sz = P::size();
        let start = self.payload.base + sz;
        let len = self.msg_len - ICMPV6_HEADER_LEN - sz;
        self.buf.read_bytes(start, len)
    }

    /// Overwrites the wire checksum field, converting to network order.
    /// Nothing but the two checksum bytes changes, and reading the field
    /// back yields the value written.
    pub fn set_checksum(&mut self, v: u16)
        requires
            old(self).wf(),
        ensures
            final(self).wf(),
            final(self).ip_base_spec() == old(self).ip_base_spec(),
            final(self).msg_len_spec() == old(self).msg_len_spec(),
            final(self).payload_base_spec() == old(self).payload_base_spec(),
            final(self).buf_spec() == old(self).buf_spec().update(
                old(self).base_spec() + 2,
                be16_b0(v),
            ).update(old(self).base_spec() + 3, be16_b1(v)),
            final(self).checksum_spec() == v,
            final(self).msg_type_spec() == old(self).msg_type_spec(),
            final(self).code_spec() == old(self).code_spec(),
    {
        self.buf.write_u16_be(self.ip_base + IPV6_HEADER_LEN + 2, v);
    }

    /// The byte `off` of the fixed payload; the accessor never reads
    /// outside the overlay's declared span.
    pub fn payload_byte(&self, off: usize) -> (r: u8)
        requires
            self.wf(),
            off < P::spec_size(),
        ensures
            r == self.payload_byte_spec(off as int),
    {
        self.buf.byte(self.payload.base + off)
    }

    /// A 16-bit payload field at `off`, converted from network order.
    pub fn payload_u16(&self, off: usize) -> (r: u16)
        requires
            self.wf(),
            off + 2 <= P::spec_size(),
        ensures
            r == be16(self.payload_byte_spec(off as int), self.payload_byte_spec(off + 1)),
    {
        self.buf.read_u16_be(self.payload.base + off)
    }

    /// A 32-bit payload field at `off`, converted from network order.
    pub fn payload_u32(&self, off: usize) -> (r: u32)
        requires
            self.wf(),
            off + 4 <= P::spec_size(),
        ensures
            r == be32(
                self.payload_byte_spec(off as int),
                self.payload_byte_spec(off + 1),
                self.payload_byte_spec(off + 2),
                self.payload_byte_spec(off + 3),
            ),
    {
        self.buf.read_u32_be(self.payload.base + off)
    }

    /// A copy of `len` payload bytes from `off`, still inside the
    /// overlay's declared span.
    pub fn payload_bytes(&self, off: usize, len: usize) -> (r: Vec<u8>)
        requires
            self.wf(),
            off + len <= P::spec_size(),
        ensures
            r@ == self.buf_spec().subrange(
                self.payload_base_spec() + off,
                self.payload_base_spec() + off + len,
            ),
    {
        self.buf.read_bytes(self.payload.base + off, len)
    }

    /// Writes a 32-bit payload field at `off` in network order.  Only the
    /// four bytes of the field change; the common header fields and the
    /// options keep their values, and reading the field back through the
    /// getter yields the value written.
    pub fn set_payload_u32(&mut self, off: usize, v: u32)
        requires
            old(self).wf(),
            off + 4 <= P::spec_size(),
        ensures
            final(self).wf(),
            final(self).ip_base_spec() == old(self).ip_base_spec(),
            final(self).msg_len_spec() == old(self).msg_len_spec(),
            final(self).payload_base_spec() == old(self).payload_base_spec(),
            final(self).buf_spec() == old(self).buf_spec().update(
                old(self).payload_base_spec() + off,
                be32_b0(v),
            ).update(old(self).payload_base_spec() + off + 1, be32_b1(v)).update(
                old(self).payload_base_spec() + off + 2,
                be32_b2(v),
            ).update(old(self).payload_base_spec() + off + 3, be32_b3(v)),
            be32(
                final(self).payload_byte_spec(off as int),
                final(self).payload_byte_spec(off + 1),
                final(self).payload_byte_spec(off + 2),
                final(self).payload_byte_spec(off + 3),
            ) == v,
            final(self).msg_type_spec() == old(self).msg_type_spec(),
            final(self).code_spec() == old(self).code_spec(),
            final(self).checksum_spec() == old(self).checksum_spec(),
    {
        self.buf.write_u32_be(self.payload.base + off, v);
    }

    /// Verifies the internet checksum: assembles the IPv6 pseudo-header
    /// (source, destination, upper-layer length, next-header 58), sums it
    /// with the whole message, folds the carries and compares with the
    /// all-ones word.
    pub fn verify_checksum(&self) -> (r: bool)
        requires
            self.wf(),
        ensures
            r == self.checksum_ok_spec(),
    {
        let addr_sum = sum_words_range(&self.buf, self.ip_base + 8, self.ip_base + 40);
        let msg_start = self.ip_base + IPV6_HEADER_LEN;
        let msg_sum = sum_words_range(&self.buf, msg_start, msg_start + self.msg_len);
        let total = addr_sum + msg_sum + (self.msg_len as u64) + (NEXT_HEADER_ICMPV6 as u64);
        ones_complement_all_ones(total)
    }

    /// Checksum validation as a pipeline stage: `ChecksumMismatch`
    /// exactly when the wire checksum disagrees with the message.
    pub fn validate_checksum(&self) -> (r: Result<(), ParseError>)
        requires
            self.wf(),
        ensures
            match r {
                Ok(()) => self.checksum_ok_spec(),
                Err(err) => !self.checksum_ok_spec() && err == ParseError::ChecksumMismatch,
            },
    {
        if self.verify_checksum() {
            Ok(())
        } else {
            Err(ParseError::ChecksumMismatch)
        }
    }
}

impl Icmpv6<Unparsed> {
    /// Consumes the IPv6 layer and parses its remainder as a generic
    /// ICMPv6 envelope, committing to no payload shape.  Fails with
    /// `MalformedHeader` exactly when the next-header tag is not ICMPv6
    /// or the declared payload length cannot hold the common header, and
    /// with `TooShort` exactly when the buffer holds fewer bytes than
    /// that length declares.
    pub fn parse(ip: Ipv6) -> (r: Result<Icmpv6<Unparsed>, ParseError>)
        requires
            ip.wf(),
        ensures
            match r {
                Ok(e) => {
                    &&& ip.next_header_spec() == NEXT_HEADER_ICMPV6
                    &&& ip.payload_length_spec() >= ICMPV6_HEADER_LEN
                    &&& ip.payload_length_spec() <= ip.len_spec() - IPV6_HEADER_LEN
                    &&& e.wf()
                    &&& e.buf_spec() == ip.buf_spec()
                    &&& e.ip_base_spec() == ip.base_spec()
                    &&& e.msg_len_spec() == ip.payload_length_spec()
                },
                Err(err) => {
                    &&& (err == ParseError::MalformedHeader <==> ip.next_header_spec()
                        != NEXT_HEADER_ICMPV6 || ip.payload_length_spec() < ICMPV6_HEADER_LEN)
                    &&& (err == ParseError::TooShort <==> ip.next_header_spec()
                        == NEXT_HEADER_ICMPV6 && ip.payload_length_spec() >= ICMPV6_HEADER_LEN
                        && ip.payload_length_spec() > ip.len_spec() - IPV6_HEADER_LEN)
                    &&& (err == ParseError::MalformedHeader || err == ParseError::TooShort)
                },
            },
    {
        let nh = ip.next_header();
        let pl = ip.payload_length();
        let (buf, region) = ip.into_parts();
        if nh != NEXT_HEADER_ICMPV6 || pl < ICMPV6_HEADER_LEN as u16 {
            Err(ParseError::MalformedHeader)
        } else if (pl as usize) > region.len - IPV6_HEADER_LEN {
            Err(ParseError::TooShort)
        } else {
            proof {
                buf.lemma_capacity_in_bounds();
            }
            Ok(
                Icmpv6 {
                    buf,
                    ip_base: region.base,
                    msg_len: pl as usize,
                    payload: Overlay::anchor(region.base + IPV6_HEADER_LEN + ICMPV6_HEADER_LEN),
                },
            )
        }
    }

    /// Reinterprets the same underlying bytes as carrying payload shape
    /// `P`, without copying and without re-parsing the layers below.  It
    /// fails with `TypeMismatch` exactly when the observed type tag is
    /// not the tag `P` declares, and with `TooShort` exactly when the
    /// message is too small for `P`'s fixed payload.  On success nothing
    /// observable changes: the narrowed envelope reports the same type,
    /// code and checksum over the same bytes.
    pub fn downcast<P: NdpPayload>(self) -> (r: Result<Icmpv6<P>, ParseError>)
        requires
            self.wf(),
        ensures
            match r {
                Ok(e) => {
                    &&& self.msg_type_spec() == P::spec_msg_type()
                    &&& ICMPV6_HEADER_LEN + P::spec_size() <= self.msg_len_spec()
                    &&& e.wf()
                    &&& e.buf_spec() == self.buf_spec()
                    &&& e.ip_base_spec() == self.ip_base_spec()
                    &&& e.msg_len_spec() == self.msg_len_spec()
                    &&& e.msg_type_spec() == self.msg_type_spec()
                    &&& e.code_spec() == self.code_spec()
                    &&& e.checksum_spec() == self.checksum_spec()
                },
                Err(err) => {
                    &&& (err == ParseError::TypeMismatch <==> self.msg_type_spec()
                        != P::spec_msg_type())
                    &&& (err == ParseError::TooShort <==> self.msg_type_spec()
                        == P::spec_msg_type() && ICMPV6_HEADER_LEN + P::spec_size()
                        > self.msg_len_spec())
                    &&& (err == ParseError::TypeMismatch || err == ParseError::TooShort)
                },
            },
    {
        let tag = self.msg_type();
        if tag != P::msg_type() {
            return Err(ParseError::TypeMismatch);
        }
        let region = Region { base: self.ip_base + IPV6_HEADER_LEN, len: self.msg_len };
        match Overlay::<P>::overlay(region, ICMPV6_HEADER_LEN) {
            Ok(ov) => Ok(
                Icmpv6 {
                    buf: self.buf,
                    ip_base: self.ip_base,
                    msg_len: self.msg_len,
                    payload: ov,
                },
            ),
            Err(err) => Err(err),
        }
    }
}

} // verus!
