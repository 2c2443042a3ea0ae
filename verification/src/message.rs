use crate::mmtype::MMType;
use crate::mmv::MMV;
use crate::oui::OUI;
use vstd::prelude::*;

verus! {

/// The MME header length owed to a version and message code: 3 octets
/// under HomePlug AV 1.0; 5 under 1.1/2.0 (adding FMI and FMSN); 8 for
/// a vendor-specific code under 1.1/2.0 (adding a 3-octet OUI). An
/// unrecognised version has an empty header: encoding writes nothing
/// and decoding yields an empty payload.
pub open spec fn spec_header_size(mmv: MMV, mmtype: MMType) -> int {
    if mmv.0 == 0x01 || mmv.0 == 0x02 {
        if mmtype.spec_is_vendor() {
            8
        } else {
            5
        }
    } else if mmv.0 == 0x00 {
        3
    } else {
        0
    }
}

/// The octets of an encoded MME header: the version, the code in
/// little-endian order, zeroed FMI and FMSN when the version carries
/// them, and the OUI when the code is vendor-specific.
pub open spec fn spec_header_bytes(mmv: MMV, mmtype: MMType, oui: OUI) -> Seq<u8> {
    let lo = (mmtype.0 % 0x100) as u8;
    let hi = (mmtype.0 / 0x100) as u8;
    if mmv.0 == 0x01 || mmv.0 == 0x02 {
        if mmtype.spec_is_vendor() {
            seq![mmv.0, lo, hi, 0x00, 0x00, oui.0[0], oui.0[1], oui.0[2]]
        } else {
            seq![mmv.0, lo, hi, 0x00, 0x00]
        }
    } else if mmv.0 == 0x00 {
        seq![mmv.0, lo, hi]
    } else {
        Seq::empty()
    }
}

/// An encoded header is exactly as long as `header_length_of` says,
/// whatever the version, code and OUI.
pub proof fn lemma_header_bytes_len(mmv: MMV, mmtype: MMType, oui: OUI)
    ensures
        spec_header_bytes(mmv, mmtype, oui).len() == spec_header_size(mmv, mmtype),
{
}

/// The header length owed to a version and message code.
pub fn header_length_of(mmv: MMV, mmtype: MMType) -> (r: usize)
    ensures
        r == spec_header_size(mmv, mmtype),
        r == if mmv.0 == 0x01 || mmv.0 == 0x02 {
            if mmtype.0 / 0x2000 % 8 == 5 {
                8int
            } else {
                5int
            }
        } else if mmv.0 == 0x00 {
            3int
        } else {
            0int
        },
{
    if mmv.0 == 0x01 || mmv.0 == 0x02 {
        if mmtype.is_vendor() {
            8
        } else {
            5
        }
    } else if mmv.0 == 0x00 {
        3
    } else {
        0
    }
}

/// Writes the MME header into the first octets of `bytes` and returns
/// its length; the rest of the buffer is left as it was.
pub fn set_header(bytes: &mut Vec<u8>, mmv: MMV, mmtype: MMType, oui: OUI) -> (size: usize)
    requires
        old(bytes)@.len() >= spec_header_size(mmv, mmtype),
    ensures
        size == spec_header_size(mmv, mmtype),
        final(bytes)@.len() == old(bytes)@.len(),
        final(bytes)@ =~= spec_header_bytes(mmv, mmtype, oui) + old(bytes)@.skip(size as int),
{
    let size = header_length_of(mmv, mmtype);
    if size == 0 {
        return 0;
    }
    let le = mmtype.to_le_bytes();
    bytes[0] = mmv.0;
    bytes[1] = le[0];
    bytes[2] = le[1];
    if size >= 5 {
        bytes[3] = 0x00;
        bytes[4] = 0x00;
    }
    if size == 8 {
        bytes[5] = oui.0[0];
        bytes[6] = oui.0[1];
        bytes[7] = oui.0[2];
    }
    size
}

/// Copies `src` into `bytes` starting at `at`; the rest of the buffer
/// is left as it was.
pub fn write_bytes(bytes: &mut Vec<u8>, at: usize, src: &[u8]) -> (n: usize)
    requires
        at + src@.len() <= old(bytes)@.len(),
    ensures
        n == src@.len(),
        final(bytes)@.len() == old(bytes)@.len(),
        final(bytes)@ =~= old(bytes)@.take(at as int) + src@ + old(bytes)@.skip(
            at + src@.len(),
        ),
{
    let n = src.len();
    let blen = bytes.len();
    assert(at + n <= blen);
    let mut i: usize = 0;
    while i < n
        invariant
            n == src@.len(),
            at + n <= blen,
            at + n <= bytes@.len(),
            bytes@.len() == old(bytes)@.len(),
            i <= n,
            bytes@ =~= old(bytes)@.take(at as int) + src@.take(i as int) + old(bytes)@.skip(
                at + i,
            ),
        decreases n - i,
    {
        bytes[at + i] = src[i];
        proof {
            assert(bytes@ =~= old(bytes)@.take(at as int) + src@.take(i + 1) + old(bytes)@.skip(
                at + i + 1,
            ));
        }
        i = i + 1;
    }
    n
}

/// The version octet of a captured frame; zero-valued when the frame is
/// empty.
pub open spec fn spec_mmv_of(data: Seq<u8>) -> MMV {
    if data.len() >= 1 {
        MMV(data[0])
    } else {
        MMV(0)
    }
}

/// The message code of a captured frame, from its two little-endian
/// octets; zero-valued when the frame is too short to carry them.
pub open spec fn spec_mmtype_of(data: Seq<u8>) -> MMType {
    if data.len() >= 3 {
        MMType((data[1] + data[2] * 0x100) as u16)
    } else {
        MMType(0)
    }
}

/// The fragmentation management information octet: present under
/// versions 1.1 and 2.0, zero otherwise or when the frame is short.
pub open spec fn spec_fmi_of(data: Seq<u8>) -> u8 {
    if (spec_mmv_of(data).0 == 0x01 || spec_mmv_of(data).0 == 0x02) && data.len() >= 4 {
        data[3]
    } else {
        0
    }
}

/// The fragmentation sequence number octet: present under versions 1.1
/// and 2.0, zero otherwise or when the frame is short.
pub open spec fn spec_fmsn_of(data: Seq<u8>) -> u8 {
    if (spec_mmv_of(data).0 == 0x01 || spec_mmv_of(data).0 == 0x02) && data.len() >= 5 {
        data[4]
    } else {
        0
    }
}

/// The vendor OUI of a captured frame: octets 5..8 of a vendor-specific
/// message, all-zero otherwise or when the frame is short.
pub open spec fn spec_oui_of(data: Seq<u8>) -> OUI {
    if spec_mmtype_of(data).spec_is_vendor() && data.len() >= 8 {
        OUI([data[5], data[6], data[7]])
    } else {
        OUI([0x00, 0x00, 0x00])
    }
}

/// Where the payload of a captured frame starts: at the end of the
/// header, clamped to the frame; a frame of an unrecognised version has
/// an empty payload.
pub open spec fn spec_payload_offset(data: Seq<u8>) -> int {
    let mmv = spec_mmv_of(data);
    if mmv.spec_is_known() {
        let hs = spec_header_size(mmv, spec_mmtype_of(data));
        if hs <= data.len() {
            hs
        } else {
            data.len() as int
        }
    } else {
        data.len() as int
    }
}

/// The payload of a captured frame: everything after the header.
pub open spec fn spec_payload_of(data: Seq<u8>) -> Seq<u8> {
    data.skip(spec_payload_offset(data))
}

/// Encoding and decoding are reciprocal: on a frame built from a header
/// of a recognised version and any payload, the decoders give back the
/// version, the code, the OUI of a vendor code, and the payload, and
/// the decoded payload offset equals the encoded header size.
pub proof fn lemma_header_roundtrip(mmv: MMV, mmtype: MMType, oui: OUI, payload: Seq<u8>)
    requires
        mmv.spec_is_known(),
    ensures
        spec_mmv_of(spec_header_bytes(mmv, mmtype, oui) + payload) == mmv,
        spec_mmtype_of(spec_header_bytes(mmv, mmtype, oui) + payload) == mmtype,
        spec_payload_offset(spec_header_bytes(mmv, mmtype, oui) + payload) == spec_header_size(
            mmv,
            mmtype,
        ),
        spec_payload_of(spec_header_bytes(mmv, mmtype, oui) + payload) =~= payload,
        mmv.0 != 0x00 && mmtype.spec_is_vendor() ==> spec_oui_of(
            spec_header_bytes(mmv, mmtype, oui) + payload,
        ).0@ =~= oui.0@,
{
    let frame = spec_header_bytes(mmv, mmtype, oui) + payload;
    assert(frame[1] == (mmtype.0 % 0x100) as u8);
    assert(frame[2] == (mmtype.0 / 0x100) as u8);
    assert((mmtype.0 % 0x100) + (mmtype.0 / 0x100) * 0x100 == mmtype.0);
    assert(frame.skip(spec_header_size(mmv, mmtype)) =~= payload);
}

/// A decoded view over a captured management-message frame. Accessors
/// never read past the end of the frame: a truncated frame yields
/// zero-valued fields and an empty payload.
pub trait MessageReader {
    spec fn spec_bytes(&self) -> Seq<u8>;

    /// All octets of the captured frame.
    fn bytes(&self) -> (r: &[u8])
        ensures
            r@ == self.spec_bytes(),
    ;

    /// Management message version.
    fn mmv(&self) -> (r: MMV)
        ensures
            r == spec_mmv_of(self.spec_bytes()),
    {
        let data = self.bytes();
        if data.len() >= 1 {
            MMV(data[0])
        } else {
            MMV(0)
        }
    }

    /// Management message type.
    fn mmtype(&self) -> (r: MMType)
        ensures
            r == spec_mmtype_of(self.spec_bytes()),
    {
        let data = self.bytes();
        if data.len() >= 3 {
            MMType((data[1] as u16) + (data[2] as u16) * 0x100)
        } else {
            MMType(0)
        }
    }

    /// Fragmentation management information (versions 1.1 and 2.0).
    fn fmi(&self) -> (r: u8)
        ensures
            r == spec_fmi_of(self.spec_bytes()),
    {
        let data = self.bytes();
        let mmv = self.mmv();
        if (mmv.0 == 0x01 || mmv.0 == 0x02) && data.len() >= 4 {
            data[3]
        } else {
            0
        }
    }

    /// Fragmentation message sequence number (versions 1.1 and 2.0).
    fn fmsn(&self) -> (r: u8)
        ensures
            r == spec_fmsn_of(self.spec_bytes()),
    {
        let data = self.bytes();
        let mmv = self.mmv();
        if (mmv.0 == 0x01 || mmv.0 == 0x02) && data.len() >= 5 {
            data[4]
        } else {
            0
        }
    }

    /// Organizationally unique identifier (vendor-specific messages).
    fn oui(&self) -> (r: OUI)
        ensures
            r == spec_oui_of(self.spec_bytes()),
    {
        let data = self.bytes();
        if self.mmtype().is_vendor() && data.len() >= 8 {
            OUI([data[5], data[6], data[7]])
        } else {
            OUI([0x00, 0x00, 0x00])
        }
    }

    /// The payload octets: everything after the header.
    fn payload(&self) -> (r: &[u8])
        ensures
            r@ == spec_payload_of(self.spec_bytes()),
    {
        let data = self.bytes();
        let mmv = self.mmv();
        let known = mmv.0 == 0x00 || mmv.0 == 0x01 || mmv.0 == 0x02;
        if known {
            let hs = header_length_of(mmv, self.mmtype());
            if hs <= data.len() {
                vstd::slice::slice_subrange(data, hs, data.len())
            } else {
                vstd::slice::slice_subrange(data, data.len(), data.len())
            }
        } else {
            vstd::slice::slice_subrange(data, data.len(), data.len())
        }
    }
}

/// A captured frame of no particular family.
pub struct UnknownMessage<'a>(pub &'a [u8]);

impl<'a> MessageReader for UnknownMessage<'a> {
    open spec fn spec_bytes(&self) -> Seq<u8> {
        self.0@
    }

    fn bytes(&self) -> (r: &[u8]) {
        self.0
    }
}

/// A request message that knows its version, code, OUI and payload, and
/// can be encoded into a caller-supplied buffer.
pub trait MessageTX {
    spec fn spec_mmv(&self) -> MMV;

    spec fn spec_mmtype(&self) -> MMType;

    spec fn spec_oui(&self) -> OUI;

    spec fn spec_payload(&self) -> Seq<u8>;

    /// Management message version of the request.
    fn mmv(&self) -> (r: MMV)
        ensures
            r == self.spec_mmv(),
    ;

    /// Management message type of the request (its REQ variant).
    fn mmtype(&self) -> (r: MMType)
        ensures
            r == self.spec_mmtype(),
    ;

    /// Vendor identifier of the request; all-zero for standard messages.
    fn oui(&self) -> (r: OUI)
        ensures
            r == self.spec_oui(),
    ;

    /// Writes the request payload into `bytes` starting at `at` and
    /// returns its length; the rest of the buffer is left as it was.
    fn set_payload(&self, bytes: &mut Vec<u8>, at: usize) -> (n: usize)
        requires
            at + self.spec_payload().len() <= old(bytes)@.len(),
        ensures
            n == self.spec_payload().len(),
            final(bytes)@.len() == old(bytes)@.len(),
            final(bytes)@ =~= old(bytes)@.take(at as int) + self.spec_payload() + old(bytes)@.skip(
                at + self.spec_payload().len(),
            ),
    ;

    /// Encodes the request into the front of `bytes` — the MME header,
    /// then the payload — and returns the number of octets produced;
    /// the rest of the buffer is left as it was.
    fn encode(&self, bytes: &mut Vec<u8>) -> (n: usize)
        requires
            8 + self.spec_payload().len() <= old(bytes)@.len(),
        ensures
            n == spec_header_bytes(self.spec_mmv(), self.spec_mmtype(), self.spec_oui()).len()
                + self.spec_payload().len(),
            final(bytes)@.len() == old(bytes)@.len(),
            final(bytes)@ =~= spec_header_bytes(self.spec_mmv(), self.spec_mmtype(), self.spec_oui())
                + self.spec_payload() + old(bytes)@.skip(n as int),
    {
        let mmv = self.mmv();
        let mmtype = self.mmtype();
        let oui = self.oui();
        proof {
            lemma_header_bytes_len(mmv, mmtype, oui);
        }
        let hs = set_header(bytes, mmv, mmtype, oui);
        let pn = self.set_payload(bytes, hs);
        let blen = bytes.len();
        assert(hs + pn <= blen);
        hs + pn
    }
}



/// The octets of an encoded request: the MME header followed by the
/// request payload.
pub open spec fn spec_encoded<M: MessageTX>(request: &M) -> Seq<u8> {
    spec_header_bytes(request.spec_mmv(), request.spec_mmtype(), request.spec_oui())
        + request.spec_payload()
}

} // verus!
