use vstd::prelude::*;

verus! {

/// A management message version: the first octet of every MME frame.
#[derive(PartialEq, Eq, Structural, Copy, Clone, Debug, Hash)]
pub struct MMV(pub u8);

impl MMV {
    pub fn homeplug_av_1_0() -> (r: MMV)
        ensures
            r.0 == 0x00,
    {
        MMV(0x00)
    }

    pub fn homeplug_av_1_1() -> (r: MMV)
        ensures
            r.0 == 0x01,
    {
        MMV(0x01)
    }

    pub fn homeplug_av_2_0() -> (r: MMV)
        ensures
            r.0 == 0x02,
    {
        MMV(0x02)
    }

    /// True of the versions this library recognises.
    pub open spec fn spec_is_known(self) -> bool {
        self.0 == 0x00 || self.0 == 0x01 || self.0 == 0x02
    }

    /// The version name of a recognised version.
    pub open spec fn spec_name_chars(self) -> Seq<char> {
        if self.0 == 0x00 {
            "HPAV1.0"@
        } else if self.0 == 0x01 {
            "HPAV1.1"@
        } else {
            "HPAV2.0"@
        }
    }

    pub fn name(&self) -> (r: Option<&'static str>)
        ensures
            r is Some <==> self.spec_is_known(),
            r matches Some(s) ==> s@ == self.spec_name_chars(),
    {
        if self.0 == 0x00 {
            Some("HPAV1.0")
        } else if self.0 == 0x01 {
            Some("HPAV1.1")
        } else if self.0 == 0x02 {
            Some("HPAV2.0")
        } else {
            None
        }
    }
}

} // verus!
