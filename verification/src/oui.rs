use vstd::prelude::*;

verus! {

/// A three-octet organisationally-unique identifier: the leading
/// octets of a MAC address, or the vendor tag of a vendor-specific
/// management message.
#[derive(Eq, Copy, Clone, Debug, Hash)]
pub struct OUI(pub [u8; 3]);

impl View for OUI {
    type V = Seq<u8>;

    open spec fn view(&self) -> Seq<u8> {
        self.0@
    }
}

impl PartialEq for OUI {
    fn eq(&self, other: &OUI) -> (r: bool) {
        self.0[0] == other.0[0] && self.0[1] == other.0[1] && self.0[2] == other.0[2]
    }
}

impl vstd::std_specs::cmp::PartialEqSpecImpl for OUI {
    open spec fn obeys_eq_spec() -> bool {
        true
    }

    open spec fn eq_spec(&self, other: &OUI) -> bool {
        self.0@ =~= other.0@
    }
}

impl Default for OUI {
    /// The default identifier is all-zero, as carried by non-vendor messages.
    fn default() -> (r: OUI)
        ensures
            r@ =~= seq![0x00u8, 0x00, 0x00],
    {
        OUI([0x00, 0x00, 0x00])
    }
}

impl OUI {
    /// The width of the identifier, in octets.
    pub const SIZE: usize = 3;

    /// Qualcomm and Atheros devices.
    pub fn qualcomm() -> (r: OUI)
        ensures
            r@ =~= seq![0x00u8, 0xb0, 0x52],
    {
        OUI([0x00, 0xb0, 0x52])
    }

    /// Broadcom and Gigle devices.
    pub fn broadcom() -> (r: OUI)
        ensures
            r@ =~= seq![0x00u8, 0x1f, 0x84],
    {
        OUI([0x00, 0x1f, 0x84])
    }

    /// ST and IoTecha devices.
    pub fn st() -> (r: OUI)
        ensures
            r@ =~= seq![0x00u8, 0x80, 0xe1],
    {
        OUI([0x00, 0x80, 0xe1])
    }

    /// True of the identifiers that `name` knows.
    pub open spec fn spec_is_named(self) -> bool {
        self@ =~= seq![0x00u8, 0xb0, 0x52] || self@ =~= seq![0x00u8, 0x1f, 0x84] || self@
            =~= seq![0x00u8, 0x80, 0xe1]
    }

    /// The vendor name of a recognised identifier.
    pub open spec fn spec_name_chars(self) -> Seq<char> {
        if self@ =~= seq![0x00u8, 0xb0, 0x52] {
            "Qualcomm"@
        } else if self@ =~= seq![0x00u8, 0x1f, 0x84] {
            "Broadcom"@
        } else {
            "ST"@
        }
    }

    /// The vendor name of a recognised identifier; an unrecognised one
    /// still prints, from its raw octets.
    pub fn name(&self) -> (r: Option<&'static str>)
        ensures
            r is Some <==> self.spec_is_named(),
            r matches Some(s) ==> s@ == self.spec_name_chars(),
    {
        if self.0[0] == 0x00 && self.0[1] == 0xb0 && self.0[2] == 0x52 {
            Some("Qualcomm")
        } else if self.0[0] == 0x00 && self.0[1] == 0x1f && self.0[2] == 0x84 {
            Some("Broadcom")
        } else if self.0[0] == 0x00 && self.0[1] == 0x80 && self.0[2] == 0xe1 {
            Some("ST")
        } else {
            None
        }
    }
}

} // verus!
