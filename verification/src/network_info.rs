use crate::ether_addr::EtherAddr;
use crate::message::spec_payload_of;
use crate::message::MessageReader;
use crate::message::MessageTX;
use crate::mmtype::MMType;
use crate::mmv::MMV;
use crate::oui::OUI;
use vstd::prelude::*;

verus! {

/// A request for the logical networks a station belongs to.
pub struct NetworkInfoRequest;

impl MessageTX for NetworkInfoRequest {
    open spec fn spec_mmv(&self) -> MMV {
        MMV(0x01)
    }

    open spec fn spec_mmtype(&self) -> MMType {
        MMType(0x6038)
    }

    open spec fn spec_oui(&self) -> OUI {
        OUI([0x00, 0x00, 0x00])
    }

    open spec fn spec_payload(&self) -> Seq<u8> {
        Seq::empty()
    }

    fn mmv(&self) -> (r: MMV) {
        MMV(0x01)
    }

    fn mmtype(&self) -> (r: MMType) {
        MMType(0x6038)
    }

    fn oui(&self) -> (r: OUI) {
        OUI([0x00, 0x00, 0x00])
    }

    fn set_payload(&self, bytes: &mut Vec<u8>, at: usize) -> (n: usize) {
        proof {
            assert(final(bytes)@ =~= old(bytes)@.take(at as int) + self.spec_payload() + old(
                bytes,
            )@.skip(at as int));
        }
        0
    }
}

/// A station's role within an AV logical network.
#[derive(PartialEq, Eq, Structural, Copy, Clone, Debug, Hash)]
pub struct StationRole(pub u8);

impl Default for StationRole {
    fn default() -> (r: StationRole)
        ensures
            r.0 == 0,
    {
        StationRole(0)
    }
}

impl StationRole {
    /// An ordinary station.
    pub fn sta() -> (r: StationRole)
        ensures
            r.0 == 0x00,
    {
        StationRole(0x00)
    }

    /// A proxy coordinator.
    pub fn pco() -> (r: StationRole)
        ensures
            r.0 == 0x01,
    {
        StationRole(0x01)
    }

    /// The central coordinator.
    pub fn cco() -> (r: StationRole)
        ensures
            r.0 == 0x02,
    {
        StationRole(0x02)
    }

    /// True of the roles that `name` knows.
    pub open spec fn spec_is_named(self) -> bool {
        self.0 == 0x00 || self.0 == 0x01 || self.0 == 0x02
    }

    /// The name of a recognised role.
    pub open spec fn spec_name_chars(self) -> Seq<char> {
        if self.0 == 0x00 {
            "STA"@
        } else if self.0 == 0x01 {
            "PCo"@
        } else {
            "CCo"@
        }
    }

    pub fn name(&self) -> (r: Option<&'static str>)
        ensures
            r is Some <==> self.spec_is_named(),
            r matches Some(s) ==> s@ == self.spec_name_chars(),
    {
        if self.0 == 0x00 {
            Some("STA")
        } else if self.0 == 0x01 {
            Some("PCo")
        } else if self.0 == 0x02 {
            Some("CCo")
        } else {
            None
        }
    }
}

/// One 18-octet entry of a network-info confirm.
pub struct NetworkInfoEntry<'a>(&'a [u8]);

impl<'a> View for NetworkInfoEntry<'a> {
    type V = Seq<u8>;

    closed spec fn view(&self) -> Seq<u8> {
        self.0@
    }
}

impl<'a> NetworkInfoEntry<'a> {
    /// The 7-octet network identifier.
    pub fn nid(&self) -> (r: &'a [u8])
        requires
            self@.len() == 18,
        ensures
            r@ =~= self@.subrange(0, 7),
    {
        vstd::slice::slice_subrange(self.0, 0, 7)
    }

    /// The short network identifier.
    pub fn snid(&self) -> (r: u8)
        requires
            self@.len() == 18,
        ensures
            r == self@[7],
    {
        self.0[7]
    }

    /// The station's terminal equipment identifier on this network.
    pub fn tei(&self) -> (r: u8)
        requires
            self@.len() == 18,
        ensures
            r == self@[8],
    {
        self.0[8]
    }

    /// The station's role on this network.
    pub fn station_role(&self) -> (r: StationRole)
        requires
            self@.len() == 18,
        ensures
            r.0 == self@[9],
    {
        StationRole(self.0[9])
    }

    /// The central coordinator's MAC address.
    pub fn cco_addr(&self) -> (r: EtherAddr)
        requires
            self@.len() == 18,
        ensures
            r@ =~= self@.subrange(10, 16),
    {
        EtherAddr::from_slice(vstd::slice::slice_subrange(self.0, 10, 16))
    }

    /// The network's access flag.
    pub fn access(&self) -> (r: u8)
        requires
            self@.len() == 18,
        ensures
            r == self@[16],
    {
        self.0[16]
    }

    /// How many neighbour networks coordinate with this one.
    pub fn num_cord_nws(&self) -> (r: u8)
        requires
            self@.len() == 18,
        ensures
            r == self@[17],
    {
        self.0[17]
    }
}

/// How many complete 18-octet entries a network-info payload carries.
pub open spec fn spec_network_info_count(payload: Seq<u8>) -> int {
    if payload.len() < 1 {
        0
    } else {
        let advertised = payload[0] as int;
        let available = (payload.len() - 1) / 18;
        if advertised <= available {
            advertised
        } else {
            available
        }
    }
}

/// The 18-octet entries of a network-info payload, in order.
pub open spec fn spec_network_info_entries(payload: Seq<u8>) -> Seq<Seq<u8>> {
    Seq::new(
        spec_network_info_count(payload) as nat,
        |i: int| payload.subrange(1 + 18 * i, 19 + 18 * i),
    )
}

/// A decoder never reads past the end of the payload: every network
/// entry it yields lies inside it.
pub proof fn lemma_network_info_records_in_bounds(payload: Seq<u8>)
    ensures
        spec_network_info_count(payload) > 0 ==> 1 + 18 * spec_network_info_count(payload)
            <= payload.len(),
{
    if payload.len() >= 1 {
        vstd::arithmetic::div_mod::lemma_remainder_lower((payload.len() - 1) as int, 18);
    }
}

/// A decoded network-info confirm.
pub struct NetworkInfo<'a>(pub &'a [u8]);

impl<'a> MessageReader for NetworkInfo<'a> {
    open spec fn spec_bytes(&self) -> Seq<u8> {
        self.0@
    }

    fn bytes(&self) -> (r: &[u8]) {
        self.0
    }
}

impl<'a> NetworkInfo<'a> {
    /// The network entries of the reply: exactly the advertised count,
    /// clamped so a truncated frame yields only complete records.
    pub fn networks<'b>(&'b self) -> (r: Vec<NetworkInfoEntry<'b>>)
        ensures
            r@.len() == spec_network_info_entries(spec_payload_of(self.0@)).len(),
            forall|i: int|
                0 <= i < r@.len() ==> r@[i]@ == spec_network_info_entries(
                    spec_payload_of(self.0@),
                )[i],
    {
        let data = self.payload();
        let mut records: Vec<NetworkInfoEntry<'b>> = Vec::new();
        if data.len() < 1 {
            return records;
        }
        let advertised = data[0] as usize;
        let available = (data.len() - 1) / 18;
        let n = if advertised <= available {
            advertised
        } else {
            available
        };
        let mut i: usize = 0;
        while i < n
            invariant
                n == spec_network_info_count(data@),
                1 + 18 * n <= data@.len(),
                i <= n,
                records@.len() == i,
                forall|j: int| 0 <= j < i ==> records@[j]@ == spec_network_info_entries(data@)[j],
            decreases n - i,
        {
            let record = vstd::slice::slice_subrange(data, 1 + 18 * i, 19 + 18 * i);
            records.push(NetworkInfoEntry(record));
            i = i + 1;
        }
        records
    }
}

} // verus!
