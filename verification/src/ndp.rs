use crate::bytes::{be16, be32};
use crate::icmpv6::Icmpv6;
use crate::payload::{Icmpv6Payload, NdpPayload};
use vstd::prelude::*;

verus! {

/// ICMPv6 type tag of a router solicitation.
pub const ROUTER_SOLICITATION: u8 = 133;

/// ICMPv6 type tag of a router advertisement.
pub const ROUTER_ADVERTISEMENT: u8 = 134;

/// ICMPv6 type tag of a neighbor solicitation.
pub const NEIGHBOR_SOLICITATION: u8 = 135;

/// ICMPv6 type tag of a neighbor advertisement.
pub const NEIGHBOR_ADVERTISEMENT: u8 = 136;

/// ICMPv6 type tag of a redirect.
pub const REDIRECT: u8 = 137;

/// Router solicitation message: a 4-byte reserved field (zeroed by
/// senders, ignored by receivers), then options.
pub struct RouterSolicitation;

impl Icmpv6Payload for RouterSolicitation {
    open spec fn spec_size() -> usize {
        4
    }

    fn size() -> usize {
        4
    }
}

impl NdpPayload for RouterSolicitation {
    open spec fn spec_msg_type() -> u8 {
        ROUTER_SOLICITATION
    }

    fn msg_type() -> u8 {
        ROUTER_SOLICITATION
    }
}

impl Icmpv6<RouterSolicitation> {
    /// The reserved field, converted from network order on read.
    pub open spec fn reserved_spec(&self) -> int {
        be32(
            self.payload_byte_spec(0),
            self.payload_byte_spec(1),
            self.payload_byte_spec(2),
            self.payload_byte_spec(3),
        )
    }

    /// The reserved field.  Senders must zero it; this reader surfaces
    /// whatever value is present, since receivers must ignore it.
    pub fn reserved(&self) -> (r: u32)
        requires
            self.wf(),
        ensures
            r == self.reserved_spec(),
    {
        self.payload_u32(0)
    }

    /// Writes the reserved field in network order.  Reading it back
    /// yields the value written, and the common header fields and the
    /// options keep their values.
    pub fn set_reserved(&mut self, v: u32)
        requires
            old(self).wf(),
        ensures
            final(self).wf(),
            final(self).reserved_spec() == v,
            final(self).msg_type_spec() == old(self).msg_type_spec(),
            final(self).code_spec() == old(self).code_spec(),
            final(self).checksum_spec() == old(self).checksum_spec(),
            final(self).options_spec() == old(self).options_spec(),
    {
        self.set_payload_u32(0, v);
        proof {
            assert(self.options_spec() =~= old(self).options_spec());
        }
    }
}

/// Router advertisement message: hop limit, flags, router lifetime,
/// reachable time and retransmit timer, then options.
pub struct RouterAdvertisement;

impl Icmpv6Payload for RouterAdvertisement {
    open spec fn spec_size() -> usize {
        12
    }

    fn size() -> usize {
        12
    }
}

impl NdpPayload for RouterAdvertisement {
    open spec fn spec_msg_type() -> u8 {
        ROUTER_ADVERTISEMENT
    }

    fn msg_type() -> u8 {
        ROUTER_ADVERTISEMENT
    }
}

impl Icmpv6<RouterAdvertisement> {
    /// The current-hop-limit field.
    pub fn cur_hop_limit(&self) -> (r: u8)
        requires
            self.wf(),
        ensures
            r == self.payload_byte_spec(0),
    {
        self.payload_byte(0)
    }

    /// The managed/other/etc. flag byte.
    pub fn flags(&self) -> (r: u8)
        requires
            self.wf(),
        ensures
            r == self.payload_byte_spec(1),
    {
        self.payload_byte(1)
    }

    /// The router lifetime in seconds, converted from network order.
    pub fn router_lifetime(&self) -> (r: u16)
        requires
            self.wf(),
        ensures
            r == be16(self.payload_byte_spec(2), self.payload_byte_spec(3)),
    {
        self.payload_u16(2)
    }

    /// The reachable-time field, converted from network order.
    pub fn reachable_time(&self) -> (r: u32)
        requires
            self.wf(),
        ensures
            r == be32(
                self.payload_byte_spec(4),
                self.payload_byte_spec(5),
                self.payload_byte_spec(6),
                self.payload_byte_spec(7),
            ),
    {
        self.payload_u32(4)
    }

    /// The retransmit-timer field, converted from network order.
    pub fn retrans_timer(&self) -> (r: u32)
        requires
            self.wf(),
        ensures
            r == be32(
                self.payload_byte_spec(8),
                self.payload_byte_spec(9),
                self.payload_byte_spec(10),
                self.payload_byte_spec(11),
            ),
    {
        self.payload_u32(8)
    }
}

/// Neighbor solicitation message: a reserved word and the target
/// address, then options.
pub struct NeighborSolicitation;

impl Icmpv6Payload for NeighborSolicitation {
    open spec fn spec_size() -> usize {
        20
    }

    fn size() -> usize {
        20
    }
}

impl NdpPayload for NeighborSolicitation {
    open spec fn spec_msg_type() -> u8 {
        NEIGHBOR_SOLICITATION
    }

    fn msg_type() -> u8 {
        NEIGHBOR_SOLICITATION
    }
}

impl Icmpv6<NeighborSolicitation> {
    /// The target address bytes.
    pub open spec fn target_spec(&self) -> Seq<u8> {
        self.buf_spec().subrange(self.payload_base_spec() + 4, self.payload_base_spec() + 20)
    }

    /// The reserved field, converted from network order on read.
    pub fn reserved(&self) -> (r: u32)
        requires
            self.wf(),
        ensures
            r == be32(
                self.payload_byte_spec(0),
                self.payload_byte_spec(1),
                self.payload_byte_spec(2),
                self.payload_byte_spec(3),
            ),
    {
        self.payload_u32(0)
    }

    /// A copy of the target address.
    pub fn target(&self) -> (r: Vec<u8>)
        requires
            self.wf(),
        ensures
            r@ == self.target_spec(),
    {
        self.payload_bytes(4, 16)
    }
}

/// Neighbor advertisement message: flag bits, a reserved remainder and
/// the target address, then options.
pub struct NeighborAdvertisement;

impl Icmpv6Payload for NeighborAdvertisement {
    open spec fn spec_size() -> usize {
        20
    }

    fn size() -> usize {
        20
    }
}

impl NdpPayload for NeighborAdvertisement {
    open spec fn spec_msg_type() -> u8 {
        NEIGHBOR_ADVERTISEMENT
    }

    fn msg_type() -> u8 {
        NEIGHBOR_ADVERTISEMENT
    }
}

impl Icmpv6<NeighborAdvertisement> {
    /// The target address bytes.
    pub open spec fn target_spec(&self) -> Seq<u8> {
        self.buf_spec().subrange(self.payload_base_spec() + 4, self.payload_base_spec() + 20)
    }

    /// The router/solicited/override flag byte.
    pub fn flags(&self) -> (r: u8)
        requires
            self.wf(),
        ensures
            r == self.payload_byte_spec(0),
    {
        self.payload_byte(0)
    }

    /// A copy of the target address.
    pub fn target(&self) -> (r: Vec<u8>)
        requires
            self.wf(),
        ensures
            r@ == self.target_spec(),
    {
        self.payload_bytes(4, 16)
    }
}

/// Redirect message: a reserved word, the target address and the
/// destination address, then options.
pub struct Redirect;

impl Icmpv6Payload for Redirect {
    open spec fn spec_size() -> usize {
        36
    }

    fn size() -> usize {
        36
    }
}

impl NdpPayload for Redirect {
    open spec fn spec_msg_type() -> u8 {
        REDIRECT
    }

    fn msg_type() -> u8 {
        REDIRECT
    }
}

impl Icmpv6<Redirect> {
    /// The target address bytes.
    pub open spec fn target_spec(&self) -> Seq<u8> {
        self.buf_spec().subrange(self.payload_base_spec() + 4, self.payload_base_spec() + 20)
    }

    /// The destination address bytes.
    pub open spec fn destination_spec(&self) -> Seq<u8> {
        self.buf_spec().subrange(self.payload_base_spec() + 20, self.payload_base_spec() + 36)
    }

    /// A copy of the target address.
    pub fn target(&self) -> (r: Vec<u8>)
        requires
            self.wf(),
        ensures
            r@ == self.target_spec(),
    {
        self.payload_bytes(4, 16)
    }

    /// A copy of the destination address.
    pub fn destination(&self) -> (r: Vec<u8>)
        requires
            self.wf(),
        ensures
            r@ == self.destination_spec(),
    {
        self.payload_bytes(20, 16)
    }
}

/// Every supported NDP variant declares exactly the fixed payload
/// length that the wire format assigns to its type tag, so a successful
/// downcast always leaves the options region starting at the right byte.
pub proof fn lemma_ndp_tags_and_sizes()
    ensures
        RouterSolicitation::spec_msg_type() == ROUTER_SOLICITATION,
        RouterSolicitation::spec_size() == 4,
        RouterAdvertisement::spec_msg_type() == ROUTER_ADVERTISEMENT,
        RouterAdvertisement::spec_size() == 12,
        NeighborSolicitation::spec_msg_type() == NEIGHBOR_SOLICITATION,
        NeighborSolicitation::spec_size() == 20,
        NeighborAdvertisement::spec_msg_type() == NEIGHBOR_ADVERTISEMENT,
        NeighborAdvertisement::spec_size() == 20,
        Redirect::spec_msg_type() == REDIRECT,
        Redirect::spec_size() == 36,
{
}

} // verus!
