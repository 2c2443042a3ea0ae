use crate::ether_addr::EtherAddr;
use crate::message::spec_payload_of;
use crate::message::MessageReader;
use crate::message::MessageTX;
use crate::mmtype::MMType;
use crate::mmv::MMV;
use crate::oui::OUI;
use vstd::prelude::*;

verus! {

/// A request for the discover list: broadcast to find stations.
pub struct DiscoverListRequest;

impl MessageTX for DiscoverListRequest {
    open spec fn spec_mmv(&self) -> MMV {
        MMV(0x01)
    }

    open spec fn spec_mmtype(&self) -> MMType {
        MMType(0x0014)
    }

    open spec fn spec_oui(&self) -> OUI {
        OUI([0x00, 0x00, 0x00])
    }

    open spec fn spec_payload(&self) -> Seq<u8> {
        Seq::empty()
    }

    fn mmv(&self) -> (r: MMV) {
        MMV(0x01)
    }

    fn mmtype(&self) -> (r: MMType) {
        MMType(0x0014)
    }

    fn oui(&self) -> (r: OUI) {
        OUI([0x00, 0x00, 0x00])
    }

    fn set_payload(&self, bytes: &mut Vec<u8>, at: usize) -> (n: usize) {
        proof {
            assert(final(bytes)@ =~= old(bytes)@.take(at as int) + self.spec_payload() + old(
                bytes,
            )@.skip(at as int));
        }
        0
    }
}

/// One 12-octet station record of a discover-list confirm.
pub struct Station<'a>(&'a [u8]);

impl<'a> View for Station<'a> {
    type V = Seq<u8>;

    closed spec fn view(&self) -> Seq<u8> {
        self.0@
    }
}

impl<'a> Station<'a> {
    /// The station's MAC address: octets 0..6 of the record.
    pub fn addr(&self) -> (r: EtherAddr)
        requires
            self@.len() == 12,
        ensures
            r@ =~= self@.subrange(0, 6),
    {
        EtherAddr::from_slice(vstd::slice::slice_subrange(self.0, 0, 6))
    }

    /// The station's terminal equipment identifier.
    pub fn tei(&self) -> (r: u8)
        requires
            self@.len() == 12,
        ensures
            r == self@[6],
    {
        self.0[6]
    }

    /// Whether the station belongs to the same logical network.
    pub fn same_network(&self) -> (r: u8)
        requires
            self@.len() == 12,
        ensures
            r == self@[7],
    {
        self.0[7]
    }

    /// The station's short network identifier.
    pub fn snid(&self) -> (r: u8)
        requires
            self@.len() == 12,
        ensures
            r == self@[8],
    {
        self.0[8]
    }

    /// The station's flag octet.
    pub fn flags(&self) -> (r: u8)
        requires
            self@.len() == 12,
        ensures
            r == self@[9],
    {
        self.0[9]
    }

    /// The station's signal-level index; `signal_level_str` renders it.
    pub fn signal_level(&self) -> (r: u8)
        requires
            self@.len() == 12,
        ensures
            r == self@[10],
    {
        self.0[10]
    }

    /// The station's bidirectional link efficiency octet.
    pub fn ble(&self) -> (r: u8)
        requires
            self@.len() == 12,
        ensures
            r == self@[11],
    {
        self.0[11]
    }
}

/// The textual bucket of a signal-level index: "> -10 dB" down in 5 dB
/// steps to "< -75 dB", with 0x00 unknown and anything past 0x0f
/// unprintable.
pub open spec fn spec_signal_level_chars(level: u8) -> Seq<char> {
    match level {
        0x00 => "Unknown"@,
        0x01 => ">-10dB"@,
        0x02 => ">-15dB"@,
        0x03 => ">-20dB"@,
        0x04 => ">-25dB"@,
        0x05 => ">-30dB"@,
        0x06 => ">-35dB"@,
        0x07 => ">-40dB"@,
        0x08 => ">-45dB"@,
        0x09 => ">-50dB"@,
        0x0a => ">-55dB"@,
        0x0b => ">-60dB"@,
        0x0c => ">-65dB"@,
        0x0d => ">-70dB"@,
        0x0e => ">-75dB"@,
        0x0f => "<-75dB"@,
        _ => "????"@,
    }
}

/// Renders a signal-level index as its textual bucket.
pub fn signal_level_str(level: u8) -> (r: &'static str)
    ensures
        r@ == spec_signal_level_chars(level),
{
    match level {
        0x00 => "Unknown",
        0x01 => ">-10dB",
        0x02 => ">-15dB",
        0x03 => ">-20dB",
        0x04 => ">-25dB",
        0x05 => ">-30dB",
        0x06 => ">-35dB",
        0x07 => ">-40dB",
        0x08 => ">-45dB",
        0x09 => ">-50dB",
        0x0a => ">-55dB",
        0x0b => ">-60dB",
        0x0c => ">-65dB",
        0x0d => ">-70dB",
        0x0e => ">-75dB",
        0x0f => "<-75dB",
        _ => "????",
    }
}

/// One 13-octet network record of a discover-list confirm.
pub struct Network<'a>(&'a [u8]);

impl<'a> View for Network<'a> {
    type V = Seq<u8>;

    closed spec fn view(&self) -> Seq<u8> {
        self.0@
    }
}

impl<'a> Network<'a> {
    /// The 7-octet network identifier.
    pub fn nid(&self) -> (r: &'a [u8])
        requires
            self@.len() == 13,
        ensures
            r@ =~= self@.subrange(0, 7),
    {
        vstd::slice::slice_subrange(self.0, 0, 7)
    }

    /// The network's short network identifier.
    pub fn snid(&self) -> (r: u8)
        requires
            self@.len() == 13,
        ensures
            r == self@[7],
    {
        self.0[7]
    }

    /// The network's hybrid flag.
    pub fn hybrid(&self) -> (r: u8)
        requires
            self@.len() == 13,
        ensures
            r == self@[8],
    {
        self.0[8]
    }

    /// The network's slot count.
    pub fn slots(&self) -> (r: u8)
        requires
            self@.len() == 13,
        ensures
            r == self@[9],
    {
        self.0[9]
    }

    /// The network's coordinating flag.
    pub fn coordinating(&self) -> (r: u8)
        requires
            self@.len() == 13,
        ensures
            r == self@[10],
    {
        self.0[10]
    }

    /// The network's beacon offset.
    pub fn offset(&self) -> (r: u8)
        requires
            self@.len() == 13,
        ensures
            r == self@[11],
    {
        self.0[11]
    }
}

/// How many complete station records a discover-list payload carries:
/// the advertised count, clamped to what the payload has room for.
pub open spec fn spec_station_count(payload: Seq<u8>) -> int {
    if payload.len() < 1 {
        0
    } else {
        let advertised = payload[0] as int;
        let available = (payload.len() - 1) / 12;
        if advertised <= available {
            advertised
        } else {
            available
        }
    }
}

/// The 12-octet station records of a discover-list payload, in order.
pub open spec fn spec_stations(payload: Seq<u8>) -> Seq<Seq<u8>> {
    Seq::new(spec_station_count(payload) as nat, |i: int| payload.subrange(1 + 12 * i, 13 + 12 * i))
}

/// Where the network records of a discover-list payload start: one
/// octet of station count, then a 20-octet stride per advertised
/// station — the stride observed in captured frames, though the typed
/// station record is 12 octets.
pub open spec fn spec_network_offset(payload: Seq<u8>) -> int {
    if payload.len() < 1 {
        0
    } else {
        1 + 20 * (payload[0] as int)
    }
}

/// How many complete network records a discover-list payload carries:
/// none when the network count octet lies at or past the end.
pub open spec fn spec_network_count(payload: Seq<u8>) -> int {
    let at = spec_network_offset(payload);
    if payload.len() < 1 || at >= payload.len() {
        0
    } else {
        let advertised = payload[at] as int;
        let available = (payload.len() - at - 1) / 13;
        if advertised <= available {
            advertised
        } else {
            available
        }
    }
}

/// The 13-octet network records of a discover-list payload, in order.
pub open spec fn spec_networks(payload: Seq<u8>) -> Seq<Seq<u8>> {
    let at = spec_network_offset(payload);
    Seq::new(
        spec_network_count(payload) as nat,
        |i: int| payload.subrange(at + 1 + 13 * i, at + 14 + 13 * i),
    )
}

/// A decoder never reads past the end of the payload: every station
/// record it yields, and every network record, lies inside it.
pub proof fn lemma_discover_records_in_bounds(payload: Seq<u8>)
    ensures
        spec_station_count(payload) > 0 ==> 1 + 12 * spec_station_count(payload) <= payload.len(),
        spec_network_count(payload) > 0 ==> spec_network_offset(payload) + 1 + 13
            * spec_network_count(payload) <= payload.len(),
{
    if payload.len() >= 1 {
        vstd::arithmetic::div_mod::lemma_remainder_lower((payload.len() - 1) as int, 12);
        let at = spec_network_offset(payload);
        if at < payload.len() {
            vstd::arithmetic::div_mod::lemma_remainder_lower((payload.len() - at - 1) as int, 13);
        }
    }
}

/// A decoded discover-list confirm: the stations that answered a
/// `DiscoverListRequest` and the networks they see.
pub struct DiscoverList<'a>(pub &'a [u8]);

impl<'a> MessageReader for DiscoverList<'a> {
    open spec fn spec_bytes(&self) -> Seq<u8> {
        self.0@
    }

    fn bytes(&self) -> (r: &[u8]) {
        self.0
    }
}

impl<'a> DiscoverList<'a> {
    /// The station records of the reply: exactly the advertised count,
    /// clamped so a truncated frame yields only complete records.
    pub fn stations<'b>(&'b self) -> (r: Vec<Station<'b>>)
        ensures
            r@.len() == spec_stations(spec_payload_of(self.0@)).len(),
            forall|i: int|
                0 <= i < r@.len() ==> r@[i]@ == spec_stations(spec_payload_of(self.0@))[i],
    {
        let data = self.payload();
        let mut records: Vec<Station<'b>> = Vec::new();
        if data.len() < 1 {
            return records;
        }
        let advertised = data[0] as usize;
        let available = (data.len() - 1) / 12;
        let n = if advertised <= available {
            advertised
        } else {
            available
        };
        let mut i: usize = 0;
        while i < n
            invariant
                n == spec_station_count(data@),
                12 * n + 1 <= data@.len(),
                i <= n,
                records@.len() == i,
                forall|j: int| 0 <= j < i ==> records@[j]@ == spec_stations(data@)[j],
            decreases n - i,
        {
            let record = vstd::slice::slice_subrange(data, 1 + 12 * i, 13 + 12 * i);
            records.push(Station(record));
            i = i + 1;
        }
        records
    }

    /// The network records of the reply, read from the 20-octet station
    /// stride; none when the frame has no room for them.
    pub fn networks<'b>(&'b self) -> (r: Vec<Network<'b>>)
        ensures
            r@.len() == spec_networks(spec_payload_of(self.0@)).len(),
            forall|i: int|
                0 <= i < r@.len() ==> r@[i]@ == spec_networks(spec_payload_of(self.0@))[i],
    {
        let data = self.payload();
        let mut records: Vec<Network<'b>> = Vec::new();
        if data.len() < 1 {
            return records;
        }
        let station_count = data[0] as usize;
        if station_count > (usize::MAX - 1) / 20 {
            return records;
        }
        let at = 1 + 20 * station_count;
        if at >= data.len() {
            return records;
        }
        let advertised = data[at] as usize;
        let available = (data.len() - at - 1) / 13;
        let n = if advertised <= available {
            advertised
        } else {
            available
        };
        let mut i: usize = 0;
        while i < n
            invariant
                at == spec_network_offset(data@),
                n == spec_network_count(data@),
                at + 13 * n + 1 <= data@.len(),
                i <= n,
                records@.len() == i,
                forall|j: int| 0 <= j < i ==> records@[j]@ == spec_networks(data@)[j],
            decreases n - i,
        {
            let record = vstd::slice::slice_subrange(data, at + 1 + 13 * i, at + 14 + 13 * i);
            records.push(Network(record));
            i = i + 1;
        }
        records
    }
}

} // verus!
