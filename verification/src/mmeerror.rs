use crate::message::spec_payload_of;
use crate::message::MessageReader;
use crate::mmtype::MMType;
use crate::mmv::MMV;
use vstd::prelude::*;

verus! {

/// The error code a station reports in a `CM_MME_ERROR` indication.
#[derive(PartialEq, Eq, Structural, Copy, Clone, Debug, Hash)]
pub struct ErrorType(pub u8);

impl Default for ErrorType {
    fn default() -> (r: ErrorType)
        ensures
            r.0 == 0,
    {
        ErrorType(0)
    }
}

impl ErrorType {
    /// The station does not support the request at all.
    pub fn not_supported() -> (r: ErrorType)
        ensures
            r.0 == 0x00,
    {
        ErrorType(0x00)
    }

    /// The request carried invalid fields.
    pub fn invalid_fields() -> (r: ErrorType)
        ensures
            r.0 == 0x01,
    {
        ErrorType(0x01)
    }

    /// The request asked for an unsupported feature.
    pub fn unsupported_feature() -> (r: ErrorType)
        ensures
            r.0 == 0x02,
    {
        ErrorType(0x02)
    }

    /// True of the codes that `name` knows.
    pub open spec fn spec_is_named(self) -> bool {
        self.0 == 0x00 || self.0 == 0x01 || self.0 == 0x02
    }

    /// The description of a recognised code.
    pub open spec fn spec_name_chars(self) -> Seq<char> {
        if self.0 == 0x00 {
            "Not Supported"@
        } else if self.0 == 0x01 {
            "Invalid Fields"@
        } else {
            "Unsupported Feature"@
        }
    }

    pub fn name(&self) -> (r: Option<&'static str>)
        ensures
            r is Some <==> self.spec_is_named(),
            r matches Some(s) ==> s@ == self.spec_name_chars(),
    {
        if self.0 == 0x00 {
            Some("Not Supported")
        } else if self.0 == 0x01 {
            Some("Invalid Fields")
        } else if self.0 == 0x02 {
            Some("Unsupported Feature")
        } else {
            None
        }
    }
}

/// A decoded `CM_MME_ERROR` indication: a station's complaint about a
/// request it could not serve.
pub struct MMEError<'a>(pub &'a [u8]);

impl<'a> MessageReader for MMEError<'a> {
    open spec fn spec_bytes(&self) -> Seq<u8> {
        self.0@
    }

    fn bytes(&self) -> (r: &[u8]) {
        self.0
    }
}

impl<'a> MMEError<'a> {
    /// The reported error code: the first payload octet.
    pub fn error(&self) -> (r: ErrorType)
        ensures
            r.0 == if spec_payload_of(self.0@).len() >= 1 {
                spec_payload_of(self.0@)[0]
            } else {
                0
            },
    {
        let data = self.payload();
        if data.len() >= 1 {
            ErrorType(data[0])
        } else {
            ErrorType(0)
        }
    }

    /// The version of the offending request: the second payload octet.
    pub fn error_mmv(&self) -> (r: MMV)
        ensures
            r.0 == if spec_payload_of(self.0@).len() >= 2 {
                spec_payload_of(self.0@)[1]
            } else {
                0
            },
    {
        let data = self.payload();
        if data.len() >= 2 {
            MMV(data[1])
        } else {
            MMV(0)
        }
    }

    /// The code of the offending request: payload octets 2..4,
    /// little-endian.
    pub fn error_mmtype(&self) -> (r: MMType)
        ensures
            r.0 == if spec_payload_of(self.0@).len() >= 4 {
                spec_payload_of(self.0@)[2] + spec_payload_of(self.0@)[3] * 0x100
            } else {
                0
            },
    {
        let data = self.payload();
        if data.len() >= 4 {
            MMType((data[2] as u16) + (data[3] as u16) * 0x100)
        } else {
            MMType(0)
        }
    }

    /// Where in the offending request the error lies: payload octets
    /// 4..6, little-endian.
    pub fn error_offset(&self) -> (r: usize)
        ensures
            r == if spec_payload_of(self.0@).len() >= 6 {
                spec_payload_of(self.0@)[4] + spec_payload_of(self.0@)[5] * 0x100
            } else {
                0
            },
    {
        let data = self.payload();
        if data.len() >= 6 {
            (data[4] as usize) + (data[5] as usize) * 0x100
        } else {
            0
        }
    }
}

} // verus!
