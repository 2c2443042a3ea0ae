use crate::oui::OUI;
use vstd::prelude::*;

verus! {

/// A six-octet link-layer (Ethernet) address.
#[derive(Eq, Copy, Clone, Debug, Hash)]
pub struct EtherAddr(pub [u8; 6]);

impl View for EtherAddr {
    type V = Seq<u8>;

    open spec fn view(&self) -> Seq<u8> {
        self.0@
    }
}

impl PartialEq for EtherAddr {
    fn eq(&self, other: &EtherAddr) -> (r: bool) {
        self.0[0] == other.0[0] && self.0[1] == other.0[1] && self.0[2] == other.0[2]
            && self.0[3] == other.0[3] && self.0[4] == other.0[4] && self.0[5] == other.0[5]
    }
}

impl vstd::std_specs::cmp::PartialEqSpecImpl for EtherAddr {
    open spec fn obeys_eq_spec() -> bool {
        true
    }

    open spec fn eq_spec(&self, other: &EtherAddr) -> bool {
        self.0@ =~= other.0@
    }
}

impl EtherAddr {
    /// The all-zero address.
    pub fn null() -> (r: EtherAddr)
        ensures
            r@ =~= seq![0x00u8, 0x00, 0x00, 0x00, 0x00, 0x00],
    {
        EtherAddr([0x00, 0x00, 0x00, 0x00, 0x00, 0x00])
    }

    /// The all-ones broadcast address.
    pub fn broadcast() -> (r: EtherAddr)
        ensures
            r@ =~= seq![0xffu8, 0xff, 0xff, 0xff, 0xff, 0xff],
    {
        EtherAddr([0xff, 0xff, 0xff, 0xff, 0xff, 0xff])
    }

    /// Qualcomm devices listen on this unicast "localcast" address.
    pub fn qualcomm_localcast() -> (r: EtherAddr)
        ensures
            r@ =~= seq![0x00u8, 0xb0, 0x52, 0x00, 0x00, 0x01],
    {
        EtherAddr([0x00, 0xb0, 0x52, 0x00, 0x00, 0x01])
    }

    /// The IEEE 1905.1 control-protocol multicast address.
    pub fn ieee1905_multicast() -> (r: EtherAddr)
        ensures
            r@ =~= seq![0x01u8, 0x80, 0xc2, 0x00, 0x00, 0x13],
    {
        EtherAddr([0x01, 0x80, 0xc2, 0x00, 0x00, 0x13])
    }

    /// An address is multicast when the low bit of its first octet is set.
    pub open spec fn spec_is_multicast(self) -> bool {
        self@[0] & 1 == 1
    }

    /// An address is broadcast when every octet is 0xff.
    pub open spec fn spec_is_broadcast(self) -> bool {
        self@ =~= seq![0xffu8, 0xff, 0xff, 0xff, 0xff, 0xff]
    }

    /// Reads an address out of a six-octet slice.
    pub fn from_slice(slice: &[u8]) -> (r: EtherAddr)
        requires
            slice@.len() == 6,
        ensures
            r@ =~= slice@,
    {
        EtherAddr([slice[0], slice[1], slice[2], slice[3], slice[4], slice[5]])
    }

    /// The organisationally-unique identifier: the leading three octets.
    pub fn oui(&self) -> (r: OUI)
        ensures
            r@ =~= self@.subrange(0, 3),
    {
        OUI([self.0[0], self.0[1], self.0[2]])
    }

    /// The address padded with two zero octets, as link-layer socket
    /// addresses carry it.
    pub fn padded(&self) -> (r: [u8; 8])
        ensures
            r@ =~= self@ + seq![0x00u8, 0x00],
    {
        [self.0[0], self.0[1], self.0[2], self.0[3], self.0[4], self.0[5], 0, 0]
    }

    pub fn is_multicast(&self) -> (r: bool)
        ensures
            r == self.spec_is_multicast(),
            r == (self@[0] % 2 == 1),
    {
        let first = self.0[0];
        proof {
            assert(first & 1 == first % 2) by (bit_vector);
        }
        first & 1 == 1
    }

    pub fn is_unicast(&self) -> (r: bool)
        ensures
            r == !self.spec_is_multicast(),
            r == (self@[0] % 2 == 0),
    {
        !self.is_multicast()
    }

    pub fn is_broadcast(&self) -> (r: bool)
        ensures
            r == self.spec_is_broadcast(),
    {
        let b = EtherAddr([0xff, 0xff, 0xff, 0xff, 0xff, 0xff]);
        *self == b
    }
}

} // verus!
