use crate::message::spec_payload_of;
use crate::message::write_bytes;
use crate::message::MessageReader;
use crate::message::MessageTX;
use crate::mmtype::MMType;
use crate::mmv::MMV;
use crate::oui::OUI;
use vstd::prelude::*;

verus! {

/// A property a Broadcom device advertises over its MediaXtream
/// vendor messages.
#[derive(PartialEq, Eq, Structural, Copy, Clone, Debug, Hash)]
pub struct Property(pub u8);

impl Default for Property {
    fn default() -> (r: Property)
        ensures
            r.0 == 0,
    {
        Property(0)
    }
}

impl Property {
    /// The firmware name.
    pub fn name_a0() -> (r: Property)
        ensures
            r.0 == 0x1b,
    {
        Property(0x1b)
    }

    /// The hardware name.
    pub fn name_b0() -> (r: Property)
        ensures
            r.0 == 0x1c,
    {
        Property(0x1c)
    }

    /// The user-set human-friendly identifier.
    pub fn hfid_user() -> (r: Property)
        ensures
            r.0 == 0x25,
    {
        Property(0x25)
    }

    /// A second hardware name slot.
    pub fn name_b1() -> (r: Property)
        ensures
            r.0 == 0x26,
    {
        Property(0x26)
    }
}

/// A request to read one property of a Broadcom device.
pub struct GetPropertyRequest {
    pub seq: u8,
    pub property: Property,
}

impl MessageTX for GetPropertyRequest {
    open spec fn spec_mmv(&self) -> MMV {
        MMV(0x02)
    }

    open spec fn spec_mmtype(&self) -> MMType {
        MMType(0xa05c)
    }

    open spec fn spec_oui(&self) -> OUI {
        OUI([0x00, 0x1f, 0x84])
    }

    open spec fn spec_payload(&self) -> Seq<u8> {
        seq![self.seq, self.property.0]
    }

    fn mmv(&self) -> (r: MMV) {
        MMV(0x02)
    }

    fn mmtype(&self) -> (r: MMType) {
        MMType(0xa05c)
    }

    fn oui(&self) -> (r: OUI) {
        OUI([0x00, 0x1f, 0x84])
    }

    fn set_payload(&self, bytes: &mut Vec<u8>, at: usize) -> (n: usize) {
        let blen = bytes.len();
        assert(at + 2 <= blen);
        bytes[at] = self.seq;
        bytes[at + 1] = self.property.0;
        proof {
            assert(final(bytes)@ =~= old(bytes)@.take(at as int) + self.spec_payload() + old(
                bytes,
            )@.skip(at + 2));
        }
        2
    }
}

/// The record count octet of a get-property reply.
pub open spec fn spec_property_count(payload: Seq<u8>) -> int {
    if payload.len() >= 2 {
        payload[1] as int
    } else {
        0
    }
}

/// The record size of a get-property reply: payload octets 2..4,
/// little-endian.
pub open spec fn spec_property_record_size(payload: Seq<u8>) -> int {
    if payload.len() >= 4 {
        payload[2] + payload[3] * 0x100
    } else {
        0
    }
}

/// How many complete records a get-property reply carries: none when
/// the advertised count or record size is zero.
pub open spec fn spec_property_records_len(payload: Seq<u8>) -> int {
    let count = spec_property_count(payload);
    let size = spec_property_record_size(payload);
    if count == 0 || size == 0 || payload.len() < 4 {
        0
    } else {
        let available = (payload.len() - 4) / size;
        if count <= available {
            count
        } else {
            available
        }
    }
}

/// The records of a get-property reply, in order.
pub open spec fn spec_property_records(payload: Seq<u8>) -> Seq<Seq<u8>> {
    let size = spec_property_record_size(payload);
    Seq::new(
        spec_property_records_len(payload) as nat,
        |i: int| payload.subrange(4 + size * i, 4 + size * (i + 1)),
    )
}

/// A decoder never reads past the end of the payload: every property
/// record it yields lies inside it.
pub proof fn lemma_property_records_in_bounds(payload: Seq<u8>)
    ensures
        spec_property_records_len(payload) > 0 ==> 4 + spec_property_record_size(payload)
            * spec_property_records_len(payload) <= payload.len(),
{
    let size = spec_property_record_size(payload);
    let n = spec_property_records_len(payload);
    if n > 0 {
        let available = (payload.len() - 4) as int / size;
        vstd::arithmetic::div_mod::lemma_remainder_lower((payload.len() - 4) as int, size);
        assert(size * n <= size * available) by (nonlinear_arith)
            requires
                size >= 1,
                0 <= n <= available,
        ;
    }
}

/// A decoded get-property confirm.
pub struct GetProperty<'a>(pub &'a [u8]);

impl<'a> MessageReader for GetProperty<'a> {
    open spec fn spec_bytes(&self) -> Seq<u8> {
        self.0@
    }

    fn bytes(&self) -> (r: &[u8]) {
        self.0
    }
}

impl<'a> GetProperty<'a> {
    /// The sequence octet the reply echoes.
    pub fn seq(&self) -> (r: u8)
        ensures
            r == if spec_payload_of(self.0@).len() >= 1 {
                spec_payload_of(self.0@)[0]
            } else {
                0
            },
    {
        let data = self.payload();
        if data.len() >= 1 {
            data[0]
        } else {
            0
        }
    }

    /// The advertised record count.
    pub fn count(&self) -> (r: usize)
        ensures
            r == spec_property_count(spec_payload_of(self.0@)),
    {
        let data = self.payload();
        if data.len() >= 2 {
            data[1] as usize
        } else {
            0
        }
    }

    /// The advertised record size in octets.
    pub fn record_size(&self) -> (r: usize)
        ensures
            r == spec_property_record_size(spec_payload_of(self.0@)),
    {
        let data = self.payload();
        if data.len() >= 4 {
            (data[2] as usize) + (data[3] as usize) * 0x100
        } else {
            0
        }
    }

    /// The property records of the reply: empty when the advertised
    /// count or record size is zero, clamped so a truncated frame
    /// yields only complete records.
    pub fn records<'b>(&'b self) -> (r: Vec<&'b [u8]>)
        ensures
            r@.len() == spec_property_records(spec_payload_of(self.0@)).len(),
            forall|i: int|
                0 <= i < r@.len() ==> r@[i]@ == spec_property_records(spec_payload_of(self.0@))[i],
    {
        let data = self.payload();
        let dlen = data.len();
        let mut records: Vec<&'b [u8]> = Vec::new();
        if dlen < 4 {
            return records;
        }
        let count = data[1] as usize;
        let size = (data[2] as usize) + (data[3] as usize) * 0x100;
        if count == 0 || size == 0 {
            return records;
        }
        let available = (data.len() - 4) / size;
        proof {
            vstd::arithmetic::div_mod::lemma_remainder_lower((data@.len() - 4) as int, size as int);
        }
        let n = if count <= available {
            count
        } else {
            available
        };
        assert(4 + size * n <= dlen) by (nonlinear_arith)
            requires
                size >= 1,
                n <= available,
                available * size <= dlen - 4,
        ;
        let mut i: usize = 0;
        while i < n
            invariant
                size >= 1,
                size == spec_property_record_size(data@),
                n == spec_property_records_len(data@),
                dlen == data@.len(),
                4 + size * n <= dlen,
                i <= n,
                records@.len() == i,
                forall|j: int| 0 <= j < i ==> records@[j]@ == spec_property_records(data@)[j],
            decreases n - i,
        {
            proof {
                assert(0 <= size * i && size * i <= size * (i + 1) && size * (i + 1) <= size * n)
                    by (nonlinear_arith)
                    requires
                        size >= 1,
                        0 <= i,
                        i < n,
                ;
            }
            let record = vstd::slice::slice_subrange(data, 4 + size * i, 4 + size * (i + 1));
            records.push(record);
            i = i + 1;
        }
        records
    }

    /// The first property record of the reply, if it carries any.
    pub fn first<'b>(&'b self) -> (r: Option<&'b [u8]>)
        ensures
            r is Some <==> spec_property_records(spec_payload_of(self.0@)).len() > 0,
            r matches Some(s) ==> s@ == spec_property_records(spec_payload_of(self.0@))[0],
    {
        let records = self.records();
        if records.len() > 0 {
            Some(records[0])
        } else {
            None
        }
    }
}

/// A request to change one property of a Broadcom device: a six-octet
/// block of sequence, property, a reserved zero octet, a record count
/// of one and the 64 record size, then the 64-octet value.
pub struct SetPropertyRequest {
    pub seq: u8,
    pub property: Property,
    pub data: [u8; 64],
}

impl MessageTX for SetPropertyRequest {
    open spec fn spec_mmv(&self) -> MMV {
        MMV(0x02)
    }

    open spec fn spec_mmtype(&self) -> MMType {
        MMType(0xa058)
    }

    open spec fn spec_oui(&self) -> OUI {
        OUI([0x00, 0x1f, 0x84])
    }

    open spec fn spec_payload(&self) -> Seq<u8> {
        seq![self.seq, self.property.0, 0x00u8, 0x01u8, 0x40u8, 0x00u8] + self.data@
    }

    fn mmv(&self) -> (r: MMV) {
        MMV(0x02)
    }

    fn mmtype(&self) -> (r: MMType) {
        MMType(0xa058)
    }

    fn oui(&self) -> (r: OUI) {
        OUI([0x00, 0x1f, 0x84])
    }

    fn set_payload(&self, bytes: &mut Vec<u8>, at: usize) -> (n: usize) {
        let blen = bytes.len();
        assert(at + 70 <= blen);
        bytes[at] = self.seq;
        bytes[at + 1] = self.property.0;
        bytes[at + 2] = 0x00;
        bytes[at + 3] = 0x01;
        bytes[at + 4] = 0x40;
        bytes[at + 5] = 0x00;
        write_bytes(bytes, at + 6, self.data.as_slice());
        proof {
            assert(final(bytes)@ =~= old(bytes)@.take(at as int) + self.spec_payload() + old(
                bytes,
            )@.skip(at + 70));
        }
        70
    }
}

/// A decoded set-property confirm; it carries no fields of its own.
pub struct SetProperty<'a>(pub &'a [u8]);

impl<'a> MessageReader for SetProperty<'a> {
    open spec fn spec_bytes(&self) -> Seq<u8> {
        self.0@
    }

    fn bytes(&self) -> (r: &[u8]) {
        self.0
    }
}

} // verus!
