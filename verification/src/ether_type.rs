use vstd::prelude::*;

verus! {

/// A 16-bit Ethernet protocol identifier, stored host-order and
/// serialised big-endian on the wire.
#[derive(PartialEq, Eq, Structural, Copy, Clone, Debug, Hash)]
pub struct EtherType(pub u16);

impl Default for EtherType {
    fn default() -> (r: EtherType)
        ensures
            r.0 == 0,
    {
        EtherType(0)
    }
}

impl EtherType {
    /// The width of the identifier on the wire, in octets.
    pub const SIZE: usize = 2;

    pub fn lldp() -> (r: EtherType)
        ensures
            r.0 == 0x88cc,
    {
        EtherType(0x88cc)
    }

    pub fn homeplug() -> (r: EtherType)
        ensures
            r.0 == 0x887b,
    {
        EtherType(0x887b)
    }

    /// The EtherType of standard HomePlug AV management traffic.
    pub fn homeplug_av() -> (r: EtherType)
        ensures
            r.0 == 0x88e1,
    {
        EtherType(0x88e1)
    }

    /// The EtherType of Broadcom MediaXtream vendor traffic.
    pub fn mediaxtream() -> (r: EtherType)
        ensures
            r.0 == 0x8912,
    {
        EtherType(0x8912)
    }

    pub fn ieee1905() -> (r: EtherType)
        ensures
            r.0 == 0x893a,
    {
        EtherType(0x893a)
    }

    /// True of the protocol identifiers that `name` knows.
    pub open spec fn spec_is_named(self) -> bool {
        self.0 == 0x887b || self.0 == 0x88e1 || self.0 == 0x8912 || self.0 == 0x893a
    }

    /// The protocol name of a recognised identifier.
    pub open spec fn spec_name_chars(self) -> Seq<char> {
        if self.0 == 0x887b {
            "HomePlug"@
        } else if self.0 == 0x88e1 {
            "HomePlug AV"@
        } else if self.0 == 0x8912 {
            "Mediaxtream"@
        } else {
            "IEEE 1905"@
        }
    }

    pub fn name(&self) -> (r: Option<&'static str>)
        ensures
            r is Some <==> self.spec_is_named(),
            r matches Some(s) ==> s@ == self.spec_name_chars(),
    {
        if self.0 == 0x887b {
            Some("HomePlug")
        } else if self.0 == 0x88e1 {
            Some("HomePlug AV")
        } else if self.0 == 0x8912 {
            Some("Mediaxtream")
        } else if self.0 == 0x893a {
            Some("IEEE 1905")
        } else {
            None
        }
    }

    /// Reads an identifier out of the first two octets of a slice,
    /// big-endian.
    pub fn from_slice(buf: &[u8]) -> (r: EtherType)
        requires
            buf@.len() >= 2,
        ensures
            r.0 == buf@[0] * 0x100 + buf@[1],
    {
        EtherType((buf[0] as u16) * 0x100 + (buf[1] as u16))
    }

    /// The identifier with its two octets swapped into network
    /// (big-endian) order.
    pub fn as_be_u16(&self) -> (r: u16)
        ensures
            r == (self.0 % 0x100) * 0x100 + self.0 / 0x100,
    {
        (self.0 % 0x100) * 0x100 + self.0 / 0x100
    }

    /// The identifier as two octets in network (big-endian) order.
    pub fn as_bytes(&self) -> (r: [u8; 2])
        ensures
            r@ =~= seq![(self.0 / 0x100) as u8, (self.0 % 0x100) as u8],
    {
        [(self.0 / 0x100) as u8, (self.0 % 0x100) as u8]
    }
}

} // verus!
