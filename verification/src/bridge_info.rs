use crate::ether_addr::EtherAddr;
use crate::message::spec_payload_of;
use crate::message::MessageReader;
use crate::message::MessageTX;
use crate::mmtype::MMType;
use crate::mmv::MMV;
use crate::oui::OUI;
use vstd::prelude::*;

verus! {

/// A request for a station's bridging table.
pub struct BridgeInfoRequest;

impl MessageTX for BridgeInfoRequest {
    open spec fn spec_mmv(&self) -> MMV {
        MMV(0x01)
    }

    open spec fn spec_mmtype(&self) -> MMType {
        MMType(0x6020)
    }

    open spec fn spec_oui(&self) -> OUI {
        OUI([0x00, 0x00, 0x00])
    }

    open spec fn spec_payload(&self) -> Seq<u8> {
        Seq::empty()
    }

    fn mmv(&self) -> (r: MMV) {
        MMV(0x01)
    }

    fn mmtype(&self) -> (r: MMType) {
        MMType(0x6020)
    }

    fn oui(&self) -> (r: OUI) {
        OUI([0x00, 0x00, 0x00])
    }

    fn set_payload(&self, bytes: &mut Vec<u8>, at: usize) -> (n: usize) {
        proof {
            assert(final(bytes)@ =~= old(bytes)@.take(at as int) + self.spec_payload() + old(
                bytes,
            )@.skip(at as int));
        }
        0
    }
}

/// Whether the replying station bridges for other devices: the first
/// payload octet, non-zero meaning yes.
pub open spec fn spec_is_bridge(payload: Seq<u8>) -> bool {
    payload.len() >= 1 && payload[0] != 0
}

/// The bridge's terminal equipment identifier: the second payload octet.
pub open spec fn spec_bridge_tei(payload: Seq<u8>) -> u8 {
    if payload.len() >= 2 {
        payload[1]
    } else {
        0
    }
}

/// How many complete six-octet bridged destinations the payload
/// carries: none at all when the station is no bridge.
pub open spec fn spec_destination_count(payload: Seq<u8>) -> int {
    if !spec_is_bridge(payload) || payload.len() < 3 {
        0
    } else {
        let advertised = payload[2] as int;
        let available = (payload.len() - 3) / 6;
        if advertised <= available {
            advertised
        } else {
            available
        }
    }
}

/// The bridged destination addresses of a bridge-info payload, in order.
pub open spec fn spec_destinations(payload: Seq<u8>) -> Seq<Seq<u8>> {
    Seq::new(
        spec_destination_count(payload) as nat,
        |i: int| payload.subrange(3 + 6 * i, 9 + 6 * i),
    )
}

/// A decoder never reads past the end of the payload: every bridged
/// destination it yields lies inside it.
pub proof fn lemma_bridge_records_in_bounds(payload: Seq<u8>)
    ensures
        spec_destination_count(payload) > 0 ==> 3 + 6 * spec_destination_count(payload)
            <= payload.len(),
{
    if payload.len() >= 3 {
        vstd::arithmetic::div_mod::lemma_remainder_lower((payload.len() - 3) as int, 6);
    }
}

/// A decoded bridge-info confirm.
pub struct BridgeInfo<'a>(pub &'a [u8]);

impl<'a> MessageReader for BridgeInfo<'a> {
    open spec fn spec_bytes(&self) -> Seq<u8> {
        self.0@
    }

    fn bytes(&self) -> (r: &[u8]) {
        self.0
    }
}

impl<'a> BridgeInfo<'a> {
    /// Whether the station bridges for other devices.
    pub fn is_bridge(&self) -> (r: bool)
        ensures
            r == spec_is_bridge(spec_payload_of(self.0@)),
    {
        let data = self.payload();
        data.len() >= 1 && data[0] != 0
    }

    /// The bridge's terminal equipment identifier.
    pub fn tei(&self) -> (r: u8)
        ensures
            r == spec_bridge_tei(spec_payload_of(self.0@)),
    {
        let data = self.payload();
        if data.len() >= 2 {
            data[1]
        } else {
            0
        }
    }

    /// The addresses the bridge forwards for: exactly the advertised
    /// count, empty when the station is no bridge, clamped so a
    /// truncated frame yields only complete records.
    pub fn destinations(&self) -> (r: Vec<EtherAddr>)
        ensures
            r@.len() == spec_destinations(spec_payload_of(self.0@)).len(),
            forall|i: int|
                0 <= i < r@.len() ==> r@[i]@ == spec_destinations(spec_payload_of(self.0@))[i],
    {
        let data = self.payload();
        let mut records: Vec<EtherAddr> = Vec::new();
        if data.len() < 3 || data[0] == 0 {
            return records;
        }
        let advertised = data[2] as usize;
        let available = (data.len() - 3) / 6;
        let n = if advertised <= available {
            advertised
        } else {
            available
        };
        let mut i: usize = 0;
        while i < n
            invariant
                n == spec_destination_count(data@),
                3 + 6 * n <= data@.len(),
                i <= n,
                records@.len() == i,
                forall|j: int| 0 <= j < i ==> records@[j]@ == spec_destinations(data@)[j],
            decreases n - i,
        {
            let record = vstd::slice::slice_subrange(data, 3 + 6 * i, 9 + 6 * i);
            records.push(EtherAddr::from_slice(record));
            i = i + 1;
        }
        records
    }
}

} // verus!
