use crate::message::spec_payload_of;
use crate::message::write_bytes;
use crate::message::MessageReader;
use crate::message::MessageTX;
use crate::mmtype::MMType;
use crate::mmv::MMV;
use crate::oui::OUI;
use vstd::prelude::*;
use vstd::utf8::encode_utf8;
use vstd::utf8::valid_utf8;

verus! {

/// The subtype octet of a human-friendly identifier request or reply.
#[derive(PartialEq, Eq, Structural, Copy, Clone, Debug, Hash)]
pub struct HFIDReqType(pub u8);

impl Default for HFIDReqType {
    fn default() -> (r: HFIDReqType)
        ensures
            r.0 == 0,
    {
        HFIDReqType(0)
    }
}

impl HFIDReqType {
    /// Read the manufacturer-set identifier.
    pub fn get_mfg() -> (r: HFIDReqType)
        ensures
            r.0 == 0x00,
    {
        HFIDReqType(0x00)
    }

    /// Read the user-set identifier.
    pub fn get_usr() -> (r: HFIDReqType)
        ensures
            r.0 == 0x01,
    {
        HFIDReqType(0x01)
    }

    /// Read a network's identifier.
    pub fn get_net() -> (r: HFIDReqType)
        ensures
            r.0 == 0x02,
    {
        HFIDReqType(0x02)
    }

    /// Set the user identifier.
    pub fn set_usr() -> (r: HFIDReqType)
        ensures
            r.0 == 0x03,
    {
        HFIDReqType(0x03)
    }

    /// Set a network's identifier.
    pub fn set_net() -> (r: HFIDReqType)
        ensures
            r.0 == 0x04,
    {
        HFIDReqType(0x04)
    }

    /// The station could not serve the request.
    pub fn failure() -> (r: HFIDReqType)
        ensures
            r.0 == 0xff,
    {
        HFIDReqType(0xff)
    }

    /// True of the subtypes that `name` knows.
    pub open spec fn spec_is_named(self) -> bool {
        self.0 == 0x00 || self.0 == 0x01 || self.0 == 0x02 || self.0 == 0x03 || self.0 == 0x04
            || self.0 == 0xff
    }

    /// The name of a recognised subtype.
    pub open spec fn spec_name_chars(self) -> Seq<char> {
        if self.0 == 0x00 {
            "GET_MFG"@
        } else if self.0 == 0x01 {
            "GET_USR"@
        } else if self.0 == 0x02 {
            "GET_NET"@
        } else if self.0 == 0x03 {
            "SET_USR"@
        } else if self.0 == 0x04 {
            "SET_NET"@
        } else {
            "FAILURE"@
        }
    }

    pub fn name(&self) -> (r: Option<&'static str>)
        ensures
            r is Some <==> self.spec_is_named(),
            r matches Some(s) ==> s@ == self.spec_name_chars(),
    {
        if self.0 == 0x00 {
            Some("GET_MFG")
        } else if self.0 == 0x01 {
            Some("GET_USR")
        } else if self.0 == 0x02 {
            Some("GET_NET")
        } else if self.0 == 0x03 {
            Some("SET_USR")
        } else if self.0 == 0x04 {
            Some("SET_NET")
        } else if self.0 == 0xff {
            Some("FAILURE")
        } else {
            None
        }
    }
}

/// A request to read or change a human-friendly identifier: a one-octet
/// subtype, then the six-octet network identifier where the subtype
/// names a network, then the 64-octet name where the subtype sets one.
pub enum HFIDRequest {
    GetMfg,
    GetUsr,
    GetNet { nid: [u8; 6] },
    SetUsr { hfid: [u8; 64] },
    SetNet { nid: [u8; 6], hfid: [u8; 64] },
}

impl MessageTX for HFIDRequest {
    open spec fn spec_mmv(&self) -> MMV {
        MMV(0x01)
    }

    open spec fn spec_mmtype(&self) -> MMType {
        MMType(0x6040)
    }

    open spec fn spec_oui(&self) -> OUI {
        OUI([0x00, 0x00, 0x00])
    }

    open spec fn spec_payload(&self) -> Seq<u8> {
        match self {
            HFIDRequest::GetMfg => seq![0x00u8],
            HFIDRequest::GetUsr => seq![0x01u8],
            HFIDRequest::GetNet { nid } => seq![0x02u8] + nid@,
            HFIDRequest::SetUsr { hfid } => seq![0x03u8] + hfid@,
            HFIDRequest::SetNet { nid, hfid } => seq![0x04u8] + nid@ + hfid@,
        }
    }

    fn mmv(&self) -> (r: MMV) {
        MMV(0x01)
    }

    fn mmtype(&self) -> (r: MMType) {
        MMType(0x6040)
    }

    fn oui(&self) -> (r: OUI) {
        OUI([0x00, 0x00, 0x00])
    }

    fn set_payload(&self, bytes: &mut Vec<u8>, at: usize) -> (n: usize) {
        let blen = bytes.len();
        match self {
            HFIDRequest::GetMfg => {
                bytes[at] = 0x00;
                proof {
                    assert(final(bytes)@ =~= old(bytes)@.take(at as int) + self.spec_payload()
                        + old(bytes)@.skip(at + 1));
                }
                1
            },
            HFIDRequest::GetUsr => {
                bytes[at] = 0x01;
                proof {
                    assert(final(bytes)@ =~= old(bytes)@.take(at as int) + self.spec_payload()
                        + old(bytes)@.skip(at + 1));
                }
                1
            },
            HFIDRequest::GetNet { nid } => {
                assert(at + 7 <= blen);
                bytes[at] = 0x02;
                write_bytes(bytes, at + 1, nid.as_slice());
                proof {
                    assert(final(bytes)@ =~= old(bytes)@.take(at as int) + self.spec_payload()
                        + old(bytes)@.skip(at + 7));
                }
                7
            },
            HFIDRequest::SetUsr { hfid } => {
                assert(at + 65 <= blen);
                bytes[at] = 0x03;
                write_bytes(bytes, at + 1, hfid.as_slice());
                proof {
                    assert(final(bytes)@ =~= old(bytes)@.take(at as int) + self.spec_payload()
                        + old(bytes)@.skip(at + 65));
                }
                65
            },
            HFIDRequest::SetNet { nid, hfid } => {
                assert(at + 71 <= blen);
                bytes[at] = 0x04;
                write_bytes(bytes, at + 1, nid.as_slice());
                write_bytes(bytes, at + 7, hfid.as_slice());
                proof {
                    assert(final(bytes)@ =~= old(bytes)@.take(at as int) + self.spec_payload()
                        + old(bytes)@.skip(at + 71));
                }
                71
            },
        }
    }
}

/// The name octets of a human-friendly identifier reply: up to 64
/// octets after the subtype, fewer when the frame is truncated.
pub open spec fn spec_hfid_bytes(payload: Seq<u8>) -> Seq<u8> {
    if payload.len() < 1 {
        Seq::empty()
    } else if payload.len() >= 65 {
        payload.subrange(1, 65)
    } else {
        payload.subrange(1, payload.len() as int)
    }
}

/// The name octets with their trailing NUL padding removed.
pub open spec fn spec_trim_nul(bytes: Seq<u8>) -> Seq<u8>
    decreases bytes.len(),
{
    if bytes.len() > 0 && bytes[bytes.len() - 1] == 0 {
        spec_trim_nul(bytes.drop_last())
    } else {
        bytes
    }
}

/// A decoded human-friendly identifier reply.
pub struct HFID<'a>(pub &'a [u8]);

impl<'a> MessageReader for HFID<'a> {
    open spec fn spec_bytes(&self) -> Seq<u8> {
        self.0@
    }

    fn bytes(&self) -> (r: &[u8]) {
        self.0
    }
}

impl<'a> HFID<'a> {
    /// The reply's subtype: the first payload octet.
    pub fn req_type(&self) -> (r: HFIDReqType)
        ensures
            r.0 == if spec_payload_of(self.0@).len() >= 1 {
                spec_payload_of(self.0@)[0]
            } else {
                0
            },
    {
        let data = self.payload();
        if data.len() >= 1 {
            HFIDReqType(data[0])
        } else {
            HFIDReqType(0)
        }
    }

    /// The name octets of the reply, NUL padding included.
    pub fn hfid_bytes(&self) -> (r: &[u8])
        ensures
            r@ == spec_hfid_bytes(spec_payload_of(self.0@)),
    {
        let data = self.payload();
        if data.len() < 1 {
            vstd::slice::slice_subrange(data, 0, 0)
        } else if data.len() >= 65 {
            vstd::slice::slice_subrange(data, 1, 65)
        } else {
            vstd::slice::slice_subrange(data, 1, data.len())
        }
    }

    /// The name of the reply: its octets with trailing NULs trimmed,
    /// decoded as UTF-8; an invalid name decodes empty.
    pub fn hfid(&self) -> (r: String)
        ensures
            valid_utf8(spec_trim_nul(spec_hfid_bytes(spec_payload_of(self.0@)))) ==> encode_utf8(
                r@,
            ) == spec_trim_nul(spec_hfid_bytes(spec_payload_of(self.0@))),
            !valid_utf8(spec_trim_nul(spec_hfid_bytes(spec_payload_of(self.0@)))) ==> r@ =~= Seq::<
                char,
            >::empty(),
    {
        let data = self.hfid_bytes();
        let mut end: usize = data.len();
        proof {
            assert(data@.take(data@.len() as int) =~= data@);
        }
        while end > 0 && data[end - 1] == 0
            invariant
                end <= data@.len(),
                spec_trim_nul(data@) == spec_trim_nul(data@.take(end as int)),
            decreases end,
        {
            proof {
                assert(data@.take(end as int).drop_last() =~= data@.take(end - 1));
            }
            end = end - 1;
        }
        let trimmed = vstd::slice::slice_subrange(data, 0, end);
        proof {
            assert(data@.take(end as int) =~= trimmed@);
            assert(spec_trim_nul(trimmed@) == trimmed@);
        }
        match utf8_to_string(trimmed) {
            Some(s) => s,
            None => String::new(),
        }
    }
}

/// Relies on str::from_utf8, which succeeds exactly on valid UTF-8, and
/// str::to_owned; the octets come through unchanged.
#[verifier::external_body]
fn utf8_to_string(bytes: &[u8]) -> (r: Option<String>)
    ensures
        r is Some <==> valid_utf8(bytes@),
        r matches Some(s) ==> encode_utf8(s@) == bytes@,
{
    match core::str::from_utf8(bytes) {
        Ok(s) => Some(s.to_owned()),
        Err(_) => None,
    }
}

} // verus!
