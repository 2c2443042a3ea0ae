use crate::ether_addr::EtherAddr;
use crate::message::spec_payload_of;
use crate::message::MessageReader;
use crate::message::MessageTX;
use crate::mmtype::MMType;
use crate::mmv::MMV;
use crate::oui::OUI;
use vstd::prelude::*;

verus! {

/// The HomePlug AV specification level a station implements.
#[derive(PartialEq, Eq, Structural, Copy, Clone, Debug, Hash)]
pub struct Version(pub u8);

impl Default for Version {
    fn default() -> (r: Version)
        ensures
            r.0 == 0,
    {
        Version(0)
    }
}

impl Version {
    pub fn homeplug_av_1_1() -> (r: Version)
        ensures
            r.0 == 0x00,
    {
        Version(0x00)
    }

    pub fn homeplug_av_2_0() -> (r: Version)
        ensures
            r.0 == 0x01,
    {
        Version(0x01)
    }

    /// True of the versions that `name` knows.
    pub open spec fn spec_is_named(self) -> bool {
        self.0 == 0x00 || self.0 == 0x01
    }

    /// The name of a recognised version.
    pub open spec fn spec_name_chars(self) -> Seq<char> {
        if self.0 == 0x00 {
            "HPAV1.1"@
        } else {
            "HPAV2.0"@
        }
    }

    pub fn name(&self) -> (r: Option<&'static str>)
        ensures
            r is Some <==> self.spec_is_named(),
            r matches Some(s) ==> s@ == self.spec_name_chars(),
    {
        if self.0 == 0x00 {
            Some("HPAV1.1")
        } else if self.0 == 0x01 {
            Some("HPAV2.0")
        } else {
            None
        }
    }
}

/// A request for a station's capability summary.
pub struct StationCapabilitiesRequest;

impl MessageTX for StationCapabilitiesRequest {
    open spec fn spec_mmv(&self) -> MMV {
        MMV(0x01)
    }

    open spec fn spec_mmtype(&self) -> MMType {
        MMType(0x6034)
    }

    open spec fn spec_oui(&self) -> OUI {
        OUI([0x00, 0x00, 0x00])
    }

    open spec fn spec_payload(&self) -> Seq<u8> {
        Seq::empty()
    }

    fn mmv(&self) -> (r: MMV) {
        MMV(0x01)
    }

    fn mmtype(&self) -> (r: MMType) {
        MMType(0x6034)
    }

    fn oui(&self) -> (r: OUI) {
        OUI([0x00, 0x00, 0x00])
    }

    fn set_payload(&self, bytes: &mut Vec<u8>, at: usize) -> (n: usize) {
        proof {
            assert(final(bytes)@ =~= old(bytes)@.take(at as int) + self.spec_payload() + old(
                bytes,
            )@.skip(at as int));
        }
        0
    }
}

/// A decoded station-capabilities confirm. Every field is read by fixed
/// payload offset; a truncated frame yields zero-valued fields.
pub struct StationCapabilities<'a>(pub &'a [u8]);

impl<'a> MessageReader for StationCapabilities<'a> {
    open spec fn spec_bytes(&self) -> Seq<u8> {
        self.0@
    }

    fn bytes(&self) -> (r: &[u8]) {
        self.0
    }
}

impl<'a> StationCapabilities<'a> {
    /// The specification level the station implements: payload octet 0.
    pub fn version(&self) -> (r: Version)
        ensures
            r.0 == if spec_payload_of(self.0@).len() >= 1 {
                spec_payload_of(self.0@)[0]
            } else {
                0
            },
    {
        let data = self.payload();
        if data.len() >= 1 {
            Version(data[0])
        } else {
            Version(0)
        }
    }

    /// The station's MAC address: payload octets 1..7.
    pub fn addr(&self) -> (r: EtherAddr)
        ensures
            r@ =~= if spec_payload_of(self.0@).len() >= 7 {
                spec_payload_of(self.0@).subrange(1, 7)
            } else {
                seq![0x00u8, 0x00, 0x00, 0x00, 0x00, 0x00]
            },
    {
        let data = self.payload();
        if data.len() >= 7 {
            EtherAddr::from_slice(vstd::slice::slice_subrange(data, 1, 7))
        } else {
            EtherAddr([0x00, 0x00, 0x00, 0x00, 0x00, 0x00])
        }
    }

    /// The station vendor's OUI: payload octets 7..10.
    pub fn oui(&self) -> (r: OUI)
        ensures
            r@ =~= if spec_payload_of(self.0@).len() >= 10 {
                spec_payload_of(self.0@).subrange(7, 10)
            } else {
                seq![0x00u8, 0x00, 0x00]
            },
    {
        let data = self.payload();
        if data.len() >= 10 {
            OUI([data[7], data[8], data[9]])
        } else {
            OUI([0x00, 0x00, 0x00])
        }
    }

    /// The station's central-coordination level: payload octet 12.
    pub fn cco_level(&self) -> (r: u8)
        ensures
            r == if spec_payload_of(self.0@).len() >= 13 {
                spec_payload_of(self.0@)[12]
            } else {
                0
            },
    {
        let data = self.payload();
        if data.len() >= 13 {
            data[12]
        } else {
            0
        }
    }

    /// The station's maximum frame length average, raw: payload octets
    /// 18..20, little-endian. Each unit stands for 1.28 microseconds.
    pub fn max_frame_length_avg(&self) -> (r: u16)
        ensures
            r == if spec_payload_of(self.0@).len() >= 20 {
                spec_payload_of(self.0@)[18] + spec_payload_of(self.0@)[19] * 0x100
            } else {
                0
            },
    {
        let data = self.payload();
        if data.len() >= 20 {
            (data[18] as u16) + (data[19] as u16) * 0x100
        } else {
            0
        }
    }

    /// The station's regulatory region octet: payload octet 22, zero
    /// meaning North America.
    pub fn region(&self) -> (r: u8)
        ensures
            r == if spec_payload_of(self.0@).len() >= 23 {
                spec_payload_of(self.0@)[22]
            } else {
                0
            },
    {
        let data = self.payload();
        if data.len() >= 23 {
            data[22]
        } else {
            0
        }
    }

    /// Whether the station auto-connects: payload octet 10, non-zero
    /// meaning yes.
    pub fn auto_connect(&self) -> (r: bool)
        ensures
            r == (spec_payload_of(self.0@).len() >= 11 && spec_payload_of(self.0@)[10] != 0),
    {
        let data = self.payload();
        data.len() >= 11 && data[10] != 0
    }

    /// Whether the station smooths streams: payload octet 11.
    pub fn smoothing(&self) -> (r: bool)
        ensures
            r == (spec_payload_of(self.0@).len() >= 12 && spec_payload_of(self.0@)[11] != 0),
    {
        let data = self.payload();
        data.len() >= 12 && data[11] != 0
    }

    /// Whether the station can act as a proxy coordinator: payload
    /// octet 13.
    pub fn proxy_capable(&self) -> (r: bool)
        ensures
            r == (spec_payload_of(self.0@).len() >= 14 && spec_payload_of(self.0@)[13] != 0),
    {
        let data = self.payload();
        data.len() >= 14 && data[13] != 0
    }

    /// Whether the station can act as a backup central coordinator:
    /// payload octet 15.
    pub fn backup_cco_capable(&self) -> (r: bool)
        ensures
            r == (spec_payload_of(self.0@).len() >= 16 && spec_payload_of(self.0@)[15] != 0),
    {
        let data = self.payload();
        data.len() >= 16 && data[15] != 0
    }

    /// Whether the station supports soft handover: payload octet 16.
    pub fn soft_handover(&self) -> (r: bool)
        ensures
            r == (spec_payload_of(self.0@).len() >= 17 && spec_payload_of(self.0@)[16] != 0),
    {
        let data = self.payload();
        data.len() >= 17 && data[16] != 0
    }

    /// Whether the station supports two-symbol frame control: payload
    /// octet 17.
    pub fn two_sym_frame_control(&self) -> (r: bool)
        ensures
            r == (spec_payload_of(self.0@).len() >= 18 && spec_payload_of(self.0@)[17] != 0),
    {
        let data = self.payload();
        data.len() >= 18 && data[17] != 0
    }

    /// Whether the station interoperates with HomePlug 1.1: payload
    /// octet 20.
    pub fn homeplug_1_1(&self) -> (r: bool)
        ensures
            r == (spec_payload_of(self.0@).len() >= 21 && spec_payload_of(self.0@)[20] != 0),
    {
        let data = self.payload();
        data.len() >= 21 && data[20] != 0
    }

    /// Whether the station interoperates with HomePlug 1.0.1: payload
    /// octet 21.
    pub fn homeplug_1_0_1(&self) -> (r: bool)
        ensures
            r == (spec_payload_of(self.0@).len() >= 22 && spec_payload_of(self.0@)[21] != 0),
    {
        let data = self.payload();
        data.len() >= 22 && data[21] != 0
    }

    /// The station's burst-mode octet: payload octet 23.
    pub fn burst_mode(&self) -> (r: u8)
        ensures
            r == if spec_payload_of(self.0@).len() >= 24 {
                spec_payload_of(self.0@)[23]
            } else {
                0
            },
    {
        let data = self.payload();
        if data.len() >= 24 {
            data[23]
        } else {
            0
        }
    }
}

} // verus!
