use vstd::prelude::*;

verus! {

/// The low two bits of a management message code: the request /
/// confirm / indication / response split.
#[derive(PartialEq, Eq, Structural, Copy, Clone, Debug, Hash)]
pub enum MMTypeCode {
    REQ,
    CNF,
    IND,
    RSP,
}

impl MMTypeCode {
    /// The two wire bits that carry this code.
    pub open spec fn spec_bits(self) -> u16 {
        match self {
            MMTypeCode::REQ => 0,
            MMTypeCode::CNF => 1,
            MMTypeCode::IND => 2,
            MMTypeCode::RSP => 3,
        }
    }

    pub fn bits(&self) -> (r: u16)
        ensures
            r == self.spec_bits(),
    {
        match self {
            MMTypeCode::REQ => 0,
            MMTypeCode::CNF => 1,
            MMTypeCode::IND => 2,
            MMTypeCode::RSP => 3,
        }
    }
}

/// A 16-bit management message code. The upper 14 bits are a "base"
/// identifying the message; the low two bits are its `MMTypeCode`.
/// Every 16-bit value is a legal code.
#[derive(PartialEq, Eq, Structural, Copy, Clone, Debug, Hash)]
pub struct MMType(pub u16);

impl MMType {
    /// The code with its low two bits cleared.
    pub open spec fn spec_base(self) -> u16 {
        self.0 & 0xfffc
    }

    /// The request/confirm/indication/response split of the low two bits.
    pub open spec fn spec_code(self) -> MMTypeCode {
        if self.0 & 0b11 == 0b00 {
            MMTypeCode::REQ
        } else if self.0 & 0b11 == 0b01 {
            MMTypeCode::CNF
        } else if self.0 & 0b11 == 0b10 {
            MMTypeCode::IND
        } else {
            MMTypeCode::RSP
        }
    }

    /// The family of the three most significant bits after the top bit
    /// pair; 0b101 marks vendor-specific messages.
    pub open spec fn spec_family(self) -> u16 {
        (self.0 >> 13) & 0b111
    }

    pub open spec fn spec_is_vendor(self) -> bool {
        self.spec_family() == 0b101
    }

    /// Reads a code out of its two little-endian octets.
    pub fn from_le_bytes(value: [u8; 2]) -> (r: MMType)
        ensures
            r.0 == value@[0] + value@[1] * 0x100,
    {
        MMType((value[0] as u16) + (value[1] as u16) * 0x100)
    }

    pub fn base(&self) -> (r: MMType)
        ensures
            r.0 == self.spec_base(),
            r.0 == self.0 / 4 * 4,
    {
        let x = self.0;
        proof {
            assert(x & 0xfffc == x / 4 * 4) by (bit_vector);
        }
        MMType(x & 0xfffc)
    }

    pub fn code(&self) -> (r: MMTypeCode)
        ensures
            r == self.spec_code(),
            r.spec_bits() == self.0 % 4,
    {
        let x = self.0;
        proof {
            assert(x & 0b11 == x % 4) by (bit_vector);
        }
        let bits = self.0 & 0b11;
        if bits == 0b00 {
            MMTypeCode::REQ
        } else if bits == 0b01 {
            MMTypeCode::CNF
        } else if bits == 0b10 {
            MMTypeCode::IND
        } else {
            MMTypeCode::RSP
        }
    }

    /// The (base, code) decomposition.
    pub fn split(&self) -> (r: (MMType, MMTypeCode))
        ensures
            r.0.0 == self.spec_base(),
            r.0.0 == self.0 / 4 * 4,
            r.1 == self.spec_code(),
            r.1.spec_bits() == self.0 % 4,
    {
        (self.base(), self.code())
    }

    /// The request variant of this code's base.
    pub fn req(&self) -> (r: MMType)
        ensures
            r.0 == self.spec_base() + 0b00,
            r.0 == self.0 / 4 * 4 + 0b00,
    {
        let x = self.0;
        proof {
            assert((x & 0xfffc) + 0b11 <= 0xffff && x & 0xfffc == x / 4 * 4) by (bit_vector);
        }
        MMType((x & 0xfffc) + 0b00)
    }

    /// The confirm variant of this code's base.
    pub fn cnf(&self) -> (r: MMType)
        ensures
            r.0 == self.spec_base() + 0b01,
            r.0 == self.0 / 4 * 4 + 0b01,
    {
        let x = self.0;
        proof {
            assert((x & 0xfffc) + 0b11 <= 0xffff && x & 0xfffc == x / 4 * 4) by (bit_vector);
        }
        MMType((x & 0xfffc) + 0b01)
    }

    /// The indication variant of this code's base.
    pub fn ind(&self) -> (r: MMType)
        ensures
            r.0 == self.spec_base() + 0b10,
            r.0 == self.0 / 4 * 4 + 0b10,
    {
        let x = self.0;
        proof {
            assert((x & 0xfffc) + 0b11 <= 0xffff && x & 0xfffc == x / 4 * 4) by (bit_vector);
        }
        MMType((x & 0xfffc) + 0b10)
    }

    /// The response variant of this code's base.
    pub fn rsp(&self) -> (r: MMType)
        ensures
            r.0 == self.spec_base() + 0b11,
            r.0 == self.0 / 4 * 4 + 0b11,
    {
        let x = self.0;
        proof {
            assert((x & 0xfffc) + 0b11 <= 0xffff && x & 0xfffc == x / 4 * 4) by (bit_vector);
        }
        MMType((x & 0xfffc) + 0b11)
    }

    pub fn value(&self) -> (r: u16)
        ensures
            r == self.0,
    {
        self.0
    }

    /// The code as two little-endian octets, as the MME header carries it.
    pub fn to_le_bytes(&self) -> (r: [u8; 2])
        ensures
            r@ =~= seq![(self.0 % 0x100) as u8, (self.0 / 0x100) as u8],
    {
        [(self.0 % 0x100) as u8, (self.0 / 0x100) as u8]
    }

    /// Vendor-specific codes carry an OUI in their MME header.
    pub fn is_vendor(&self) -> (r: bool)
        ensures
            r == self.spec_is_vendor(),
            r == (self.0 / 0x2000 % 8 == 5),
    {
        let x = self.0;
        proof {
            assert((x >> 13) & 0b111 == x / 0x2000 % 8) by (bit_vector);
        }
        (x >> 13) & 0b111 == 0b101
    }

    pub fn cc_cco_appoint() -> (r: MMType)
        ensures
            r.0 == 0x0000,
    {
        MMType(0x0000)
    }

    pub fn cc_backup_appoint() -> (r: MMType)
        ensures
            r.0 == 0x0004,
    {
        MMType(0x0004)
    }

    pub fn cc_link_info() -> (r: MMType)
        ensures
            r.0 == 0x0008,
    {
        MMType(0x0008)
    }

    pub fn cc_handover() -> (r: MMType)
        ensures
            r.0 == 0x000c,
    {
        MMType(0x000c)
    }

    pub fn cc_handover_info() -> (r: MMType)
        ensures
            r.0 == 0x0010,
    {
        MMType(0x0010)
    }

    pub fn cc_discover_list() -> (r: MMType)
        ensures
            r.0 == 0x0014,
    {
        MMType(0x0014)
    }

    pub fn cc_link_new() -> (r: MMType)
        ensures
            r.0 == 0x0018,
    {
        MMType(0x0018)
    }

    pub fn cc_link_mod() -> (r: MMType)
        ensures
            r.0 == 0x001c,
    {
        MMType(0x001c)
    }

    pub fn cc_link_sqz() -> (r: MMType)
        ensures
            r.0 == 0x0020,
    {
        MMType(0x0020)
    }

    pub fn cc_link_rel() -> (r: MMType)
        ensures
            r.0 == 0x0024,
    {
        MMType(0x0024)
    }

    pub fn cc_detect_report() -> (r: MMType)
        ensures
            r.0 == 0x0028,
    {
        MMType(0x0028)
    }

    pub fn cc_who_ru() -> (r: MMType)
        ensures
            r.0 == 0x002c,
    {
        MMType(0x002c)
    }

    pub fn cc_assoc() -> (r: MMType)
        ensures
            r.0 == 0x0030,
    {
        MMType(0x0030)
    }

    pub fn cc_leave() -> (r: MMType)
        ensures
            r.0 == 0x0034,
    {
        MMType(0x0034)
    }

    pub fn cc_set_tei_map() -> (r: MMType)
        ensures
            r.0 == 0x0038,
    {
        MMType(0x0038)
    }

    pub fn cc_relay() -> (r: MMType)
        ensures
            r.0 == 0x003c,
    {
        MMType(0x003c)
    }

    pub fn cc_beacon_reliability() -> (r: MMType)
        ensures
            r.0 == 0x0040,
    {
        MMType(0x0040)
    }

    pub fn cc_alloc_move() -> (r: MMType)
        ensures
            r.0 == 0x0044,
    {
        MMType(0x0044)
    }

    pub fn cc_access_new() -> (r: MMType)
        ensures
            r.0 == 0x0048,
    {
        MMType(0x0048)
    }

    pub fn cc_access_rel() -> (r: MMType)
        ensures
            r.0 == 0x004c,
    {
        MMType(0x004c)
    }

    pub fn cc_dcppc() -> (r: MMType)
        ensures
            r.0 == 0x0050,
    {
        MMType(0x0050)
    }

    pub fn cc_hp1_det() -> (r: MMType)
        ensures
            r.0 == 0x0054,
    {
        MMType(0x0054)
    }

    pub fn cc_ble_update() -> (r: MMType)
        ensures
            r.0 == 0x0058,
    {
        MMType(0x0058)
    }

    pub fn cc_bcast_repeat() -> (r: MMType)
        ensures
            r.0 == 0x005c,
    {
        MMType(0x005c)
    }

    pub fn cc_mh_link_new() -> (r: MMType)
        ensures
            r.0 == 0x0060,
    {
        MMType(0x0060)
    }

    pub fn cc_isp_detection_report() -> (r: MMType)
        ensures
            r.0 == 0x0064,
    {
        MMType(0x0064)
    }

    pub fn cc_isp_start_resync() -> (r: MMType)
        ensures
            r.0 == 0x0068,
    {
        MMType(0x0068)
    }

    pub fn cc_isp_finish_resync() -> (r: MMType)
        ensures
            r.0 == 0x006c,
    {
        MMType(0x006c)
    }

    pub fn cc_isp_resync_detected() -> (r: MMType)
        ensures
            r.0 == 0x0070,
    {
        MMType(0x0070)
    }

    pub fn cc_isp_resync_transmit() -> (r: MMType)
        ensures
            r.0 == 0x0074,
    {
        MMType(0x0074)
    }

    pub fn cc_powersave() -> (r: MMType)
        ensures
            r.0 == 0x0078,
    {
        MMType(0x0078)
    }

    pub fn cc_powersave_exit() -> (r: MMType)
        ensures
            r.0 == 0x007c,
    {
        MMType(0x007c)
    }

    pub fn cc_powersave_list() -> (r: MMType)
        ensures
            r.0 == 0x0080,
    {
        MMType(0x0080)
    }

    pub fn cc_stop_powersave() -> (r: MMType)
        ensures
            r.0 == 0x0084,
    {
        MMType(0x0084)
    }

    pub fn cp_proxy_appoint() -> (r: MMType)
        ensures
            r.0 == 0x2000,
    {
        MMType(0x2000)
    }

    pub fn ph_proxy_appoint() -> (r: MMType)
        ensures
            r.0 == 0x2004,
    {
        MMType(0x2004)
    }

    pub fn cp_proxy_wake() -> (r: MMType)
        ensures
            r.0 == 0x2008,
    {
        MMType(0x2008)
    }

    pub fn nn_inl() -> (r: MMType)
        ensures
            r.0 == 0x4000,
    {
        MMType(0x4000)
    }

    pub fn nn_new_net() -> (r: MMType)
        ensures
            r.0 == 0x4004,
    {
        MMType(0x4004)
    }

    pub fn nn_add_alloc() -> (r: MMType)
        ensures
            r.0 == 0x4008,
    {
        MMType(0x4008)
    }

    pub fn nn_rel_alloc() -> (r: MMType)
        ensures
            r.0 == 0x400c,
    {
        MMType(0x400c)
    }

    pub fn nn_rel_net() -> (r: MMType)
        ensures
            r.0 == 0x4010,
    {
        MMType(0x4010)
    }

    pub fn cm_unassociated_sta() -> (r: MMType)
        ensures
            r.0 == 0x6000,
    {
        MMType(0x6000)
    }

    pub fn cm_encrypted_payload() -> (r: MMType)
        ensures
            r.0 == 0x6004,
    {
        MMType(0x6004)
    }

    pub fn cm_set_key() -> (r: MMType)
        ensures
            r.0 == 0x6008,
    {
        MMType(0x6008)
    }

    pub fn cm_get_key() -> (r: MMType)
        ensures
            r.0 == 0x600c,
    {
        MMType(0x600c)
    }

    pub fn cm_sc_join() -> (r: MMType)
        ensures
            r.0 == 0x6010,
    {
        MMType(0x6010)
    }

    pub fn cm_chan_est() -> (r: MMType)
        ensures
            r.0 == 0x6014,
    {
        MMType(0x6014)
    }

    pub fn cm_tm_update() -> (r: MMType)
        ensures
            r.0 == 0x6018,
    {
        MMType(0x6018)
    }

    pub fn cm_amp_map() -> (r: MMType)
        ensures
            r.0 == 0x601c,
    {
        MMType(0x601c)
    }

    pub fn cm_brg_info() -> (r: MMType)
        ensures
            r.0 == 0x6020,
    {
        MMType(0x6020)
    }

    pub fn cm_conn_new() -> (r: MMType)
        ensures
            r.0 == 0x6024,
    {
        MMType(0x6024)
    }

    pub fn cm_conn_rel() -> (r: MMType)
        ensures
            r.0 == 0x6028,
    {
        MMType(0x6028)
    }

    pub fn cm_conn_mod() -> (r: MMType)
        ensures
            r.0 == 0x602c,
    {
        MMType(0x602c)
    }

    pub fn cm_conn_info() -> (r: MMType)
        ensures
            r.0 == 0x6030,
    {
        MMType(0x6030)
    }

    pub fn cm_sta_cap() -> (r: MMType)
        ensures
            r.0 == 0x6034,
    {
        MMType(0x6034)
    }

    pub fn cm_nw_info() -> (r: MMType)
        ensures
            r.0 == 0x6038,
    {
        MMType(0x6038)
    }

    pub fn cm_get_beacon() -> (r: MMType)
        ensures
            r.0 == 0x603c,
    {
        MMType(0x603c)
    }

    pub fn cm_hfid() -> (r: MMType)
        ensures
            r.0 == 0x6040,
    {
        MMType(0x6040)
    }

    pub fn cm_mme_error() -> (r: MMType)
        ensures
            r.0 == 0x6044,
    {
        MMType(0x6044)
    }

    pub fn cm_nw_stats() -> (r: MMType)
        ensures
            r.0 == 0x6048,
    {
        MMType(0x6048)
    }

    pub fn cm_link_stats() -> (r: MMType)
        ensures
            r.0 == 0x604c,
    {
        MMType(0x604c)
    }

    pub fn cm_route_info() -> (r: MMType)
        ensures
            r.0 == 0x6050,
    {
        MMType(0x6050)
    }

    pub fn cm_unreachable() -> (r: MMType)
        ensures
            r.0 == 0x6054,
    {
        MMType(0x6054)
    }

    pub fn cm_mh_conn_new() -> (r: MMType)
        ensures
            r.0 == 0x6058,
    {
        MMType(0x6058)
    }

    pub fn cm_extendedtonemask() -> (r: MMType)
        ensures
            r.0 == 0x605c,
    {
        MMType(0x605c)
    }

    pub fn cm_sta_identify() -> (r: MMType)
        ensures
            r.0 == 0x6060,
    {
        MMType(0x6060)
    }

    pub fn cm_trigger_atten_char() -> (r: MMType)
        ensures
            r.0 == 0x6064,
    {
        MMType(0x6064)
    }

    pub fn cm_start_atten_char() -> (r: MMType)
        ensures
            r.0 == 0x6068,
    {
        MMType(0x6068)
    }

    pub fn cm_atten_char() -> (r: MMType)
        ensures
            r.0 == 0x606c,
    {
        MMType(0x606c)
    }

    pub fn cm_pkcs_cert() -> (r: MMType)
        ensures
            r.0 == 0x6070,
    {
        MMType(0x6070)
    }

    pub fn cm_mnbc_sound() -> (r: MMType)
        ensures
            r.0 == 0x6074,
    {
        MMType(0x6074)
    }

    pub fn cm_validate() -> (r: MMType)
        ensures
            r.0 == 0x6078,
    {
        MMType(0x6078)
    }

    pub fn cm_slac_match() -> (r: MMType)
        ensures
            r.0 == 0x607c,
    {
        MMType(0x607c)
    }

    pub fn cm_slac_user_data() -> (r: MMType)
        ensures
            r.0 == 0x6080,
    {
        MMType(0x6080)
    }

    pub fn cm_atten_profile() -> (r: MMType)
        ensures
            r.0 == 0x6084,
    {
        MMType(0x6084)
    }

    /// True of the bases that `name` knows.
    pub open spec fn spec_is_named(self) -> bool {
        let base = self.spec_base();
        base == 0x0000 || base == 0x0004 || base == 0x0008 || base == 0x000c || base == 0x0010 || base == 0x0014 || base == 0x0018 || base == 0x001c || base == 0x0020 || base == 0x0024 || base == 0x0028 || base == 0x002c || base == 0x0030 || base == 0x0034 || base == 0x0038 || base == 0x003c || base == 0x0040 || base == 0x0044 || base == 0x0048 || base == 0x004c || base == 0x0050 || base == 0x0054 || base == 0x0058 || base == 0x005c || base == 0x0060 || base == 0x0064 || base == 0x0068 || base == 0x006c || base == 0x0070 || base == 0x0074 || base == 0x0078 || base == 0x007c || base == 0x0080 || base == 0x0084 || base == 0x2000 || base == 0x2004 || base == 0x2008 || base == 0x4000 || base == 0x4004 || base == 0x4008 || base == 0x400c || base == 0x4010 || base == 0x6000 || base == 0x6004 || base == 0x6008 || base == 0x600c || base == 0x6010 || base == 0x6014 || base == 0x6018 || base == 0x601c || base == 0x6020 || base == 0x6024 || base == 0x6028 || base == 0x602c || base == 0x6030 || base == 0x6034 || base == 0x6038 || base == 0x603c || base == 0x6040 || base == 0x6044 || base == 0x6048 || base == 0x604c || base == 0x6050 || base == 0x6054 || base == 0x6058 || base == 0x605c || base == 0x6060 || base == 0x6064 || base == 0x6068 || base == 0x606c || base == 0x6070 || base == 0x6074 || base == 0x6078 || base == 0x607c || base == 0x6080 || base == 0x6084
    }

    /// The name of a recognised base.
    pub open spec fn spec_name_chars(self) -> Seq<char> {
        match self.spec_base() {
            0x0000 => "CC_CCO_APPOINT"@,
            0x0004 => "CC_BACKUP_APPOINT"@,
            0x0008 => "CC_LINK_INFO"@,
            0x000c => "CC_HANDOVER"@,
            0x0010 => "CC_HANDOVER_INFO"@,
            0x0014 => "CC_DISCOVER_LIST"@,
            0x0018 => "CC_LINK_NEW"@,
            0x001c => "CC_LINK_MOD"@,
            0x0020 => "CC_LINK_SQZ"@,
            0x0024 => "CC_LINK_REL"@,
            0x0028 => "CC_DETECT_REPORT"@,
            0x002c => "CC_WHO_RU"@,
            0x0030 => "CC_ASSOC"@,
            0x0034 => "CC_LEAVE"@,
            0x0038 => "CC_SET_TEI_MAP"@,
            0x003c => "CC_RELAY"@,
            0x0040 => "CC_BEACON_RELIABILITY"@,
            0x0044 => "CC_ALLOC_MOVE"@,
            0x0048 => "CC_ACCESS_NEW"@,
            0x004c => "CC_ACCESS_REL"@,
            0x0050 => "CC_DCPPC"@,
            0x0054 => "CC_HP1_DET"@,
            0x0058 => "CC_BLE_UPDATE"@,
            0x005c => "CC_BCAST_REPEAT"@,
            0x0060 => "CC_MH_LINK_NEW"@,
            0x0064 => "CC_ISP_DETECTION_REPORT"@,
            0x0068 => "CC_ISP_START_RESYNC"@,
            0x006c => "CC_ISP_FINISH_RESYNC"@,
            0x0070 => "CC_ISP_RESYNC_DETECTED"@,
            0x0074 => "CC_ISP_RESYNC_TRANSMIT"@,
            0x0078 => "CC_POWERSAVE"@,
            0x007c => "CC_POWERSAVE_EXIT"@,
            0x0080 => "CC_POWERSAVE_LIST"@,
            0x0084 => "CC_STOP_POWERSAVE"@,
            0x2000 => "CP_PROXY_APPOINT"@,
            0x2004 => "PH_PROXY_APPOINT"@,
            0x2008 => "CP_PROXY_WAKE"@,
            0x4000 => "NN_INL"@,
            0x4004 => "NN_NEW_NET"@,
            0x4008 => "NN_ADD_ALLOC"@,
            0x400c => "NN_REL_ALLOC"@,
            0x4010 => "NN_REL_NET"@,
            0x6000 => "CM_UNASSOCIATED_STA"@,
            0x6004 => "CM_ENCRYPTED_PAYLOAD"@,
            0x6008 => "CM_SET_KEY"@,
            0x600c => "CM_GET_KEY"@,
            0x6010 => "CM_SC_JOIN"@,
            0x6014 => "CM_CHAN_EST"@,
            0x6018 => "CM_TM_UPDATE"@,
            0x601c => "CM_AMP_MAP"@,
            0x6020 => "CM_BRG_INFO"@,
            0x6024 => "CM_CONN_NEW"@,
            0x6028 => "CM_CONN_REL"@,
            0x602c => "CM_CONN_MOD"@,
            0x6030 => "CM_CONN_INFO"@,
            0x6034 => "CM_STA_CAP"@,
            0x6038 => "CM_NW_INFO"@,
            0x603c => "CM_GET_BEACON"@,
            0x6040 => "CM_HFID"@,
            0x6044 => "CM_MME_ERROR"@,
            0x6048 => "CM_NW_STATS"@,
            0x604c => "CM_LINK_STATS"@,
            0x6050 => "CM_ROUTE_INFO"@,
            0x6054 => "CM_UNREACHABLE"@,
            0x6058 => "CM_MH_CONN_NEW"@,
            0x605c => "CM_EXTENDEDTONEMASK"@,
            0x6060 => "CM_STA_IDENTIFY"@,
            0x6064 => "CM_TRIGGER_ATTEN_CHAR"@,
            0x6068 => "CM_START_ATTEN_CHAR"@,
            0x606c => "CM_ATTEN_CHAR"@,
            0x6070 => "CM_PKCS_CERT"@,
            0x6074 => "CM_MNBC_SOUND"@,
            0x6078 => "CM_VALIDATE"@,
            0x607c => "CM_SLAC_MATCH"@,
            0x6080 => "CM_SLAC_USER_DATA"@,
            0x6084 => "CM_ATTEN_PROFILE"@,
            _ => Seq::empty(),
        }
    }

    /// The name of a recognised base; codes with an unrecognised base
    /// still print, with `family_name` and their hex value.
    pub fn name(&self) -> (r: Option<&'static str>)
        ensures
            r is Some <==> self.spec_is_named(),
            r matches Some(s) ==> s@ == self.spec_name_chars(),
    {
        match self.0 & 0xfffc {
            0x0000 => Some("CC_CCO_APPOINT"),
            0x0004 => Some("CC_BACKUP_APPOINT"),
            0x0008 => Some("CC_LINK_INFO"),
            0x000c => Some("CC_HANDOVER"),
            0x0010 => Some("CC_HANDOVER_INFO"),
            0x0014 => Some("CC_DISCOVER_LIST"),
            0x0018 => Some("CC_LINK_NEW"),
            0x001c => Some("CC_LINK_MOD"),
            0x0020 => Some("CC_LINK_SQZ"),
            0x0024 => Some("CC_LINK_REL"),
            0x0028 => Some("CC_DETECT_REPORT"),
            0x002c => Some("CC_WHO_RU"),
            0x0030 => Some("CC_ASSOC"),
            0x0034 => Some("CC_LEAVE"),
            0x0038 => Some("CC_SET_TEI_MAP"),
            0x003c => Some("CC_RELAY"),
            0x0040 => Some("CC_BEACON_RELIABILITY"),
            0x0044 => Some("CC_ALLOC_MOVE"),
            0x0048 => Some("CC_ACCESS_NEW"),
            0x004c => Some("CC_ACCESS_REL"),
            0x0050 => Some("CC_DCPPC"),
            0x0054 => Some("CC_HP1_DET"),
            0x0058 => Some("CC_BLE_UPDATE"),
            0x005c => Some("CC_BCAST_REPEAT"),
            0x0060 => Some("CC_MH_LINK_NEW"),
            0x0064 => Some("CC_ISP_DETECTION_REPORT"),
            0x0068 => Some("CC_ISP_START_RESYNC"),
            0x006c => Some("CC_ISP_FINISH_RESYNC"),
            0x0070 => Some("CC_ISP_RESYNC_DETECTED"),
            0x0074 => Some("CC_ISP_RESYNC_TRANSMIT"),
            0x0078 => Some("CC_POWERSAVE"),
            0x007c => Some("CC_POWERSAVE_EXIT"),
            0x0080 => Some("CC_POWERSAVE_LIST"),
            0x0084 => Some("CC_STOP_POWERSAVE"),
            0x2000 => Some("CP_PROXY_APPOINT"),
            0x2004 => Some("PH_PROXY_APPOINT"),
            0x2008 => Some("CP_PROXY_WAKE"),
            0x4000 => Some("NN_INL"),
            0x4004 => Some("NN_NEW_NET"),
            0x4008 => Some("NN_ADD_ALLOC"),
            0x400c => Some("NN_REL_ALLOC"),
            0x4010 => Some("NN_REL_NET"),
            0x6000 => Some("CM_UNASSOCIATED_STA"),
            0x6004 => Some("CM_ENCRYPTED_PAYLOAD"),
            0x6008 => Some("CM_SET_KEY"),
            0x600c => Some("CM_GET_KEY"),
            0x6010 => Some("CM_SC_JOIN"),
            0x6014 => Some("CM_CHAN_EST"),
            0x6018 => Some("CM_TM_UPDATE"),
            0x601c => Some("CM_AMP_MAP"),
            0x6020 => Some("CM_BRG_INFO"),
            0x6024 => Some("CM_CONN_NEW"),
            0x6028 => Some("CM_CONN_REL"),
            0x602c => Some("CM_CONN_MOD"),
            0x6030 => Some("CM_CONN_INFO"),
            0x6034 => Some("CM_STA_CAP"),
            0x6038 => Some("CM_NW_INFO"),
            0x603c => Some("CM_GET_BEACON"),
            0x6040 => Some("CM_HFID"),
            0x6044 => Some("CM_MME_ERROR"),
            0x6048 => Some("CM_NW_STATS"),
            0x604c => Some("CM_LINK_STATS"),
            0x6050 => Some("CM_ROUTE_INFO"),
            0x6054 => Some("CM_UNREACHABLE"),
            0x6058 => Some("CM_MH_CONN_NEW"),
            0x605c => Some("CM_EXTENDEDTONEMASK"),
            0x6060 => Some("CM_STA_IDENTIFY"),
            0x6064 => Some("CM_TRIGGER_ATTEN_CHAR"),
            0x6068 => Some("CM_START_ATTEN_CHAR"),
            0x606c => Some("CM_ATTEN_CHAR"),
            0x6070 => Some("CM_PKCS_CERT"),
            0x6074 => Some("CM_MNBC_SOUND"),
            0x6078 => Some("CM_VALIDATE"),
            0x607c => Some("CM_SLAC_MATCH"),
            0x6080 => Some("CM_SLAC_USER_DATA"),
            0x6084 => Some("CM_ATTEN_PROFILE"),
            _ => None,
        }
    }

    /// The family prefix under which an unrecognised base prints.
    pub open spec fn spec_family_chars(self) -> Seq<char> {
        if self.spec_family() == 0b000 {
            "STA<>CCo"@
        } else if self.spec_family() == 0b001 {
            "Proxy"@
        } else if self.spec_family() == 0b010 {
            "CCo<>CCo"@
        } else if self.spec_family() == 0b011 {
            "STA<>STA"@
        } else if self.spec_family() == 0b100 {
            "Manufacturer"@
        } else if self.spec_family() == 0b101 {
            "Vendor"@
        } else {
            "Unknown"@
        }
    }

    pub fn family_name(&self) -> (r: &'static str)
        ensures
            r@ == self.spec_family_chars(),
    {
        let family = (self.0 >> 13) & 0b111;
        if family == 0b000 {
            "STA<>CCo"
        } else if family == 0b001 {
            "Proxy"
        } else if family == 0b010 {
            "CCo<>CCo"
        } else if family == 0b011 {
            "STA<>STA"
        } else if family == 0b100 {
            "Manufacturer"
        } else if family == 0b101 {
            "Vendor"
        } else {
            "Unknown"
        }
    }
}

/// A 16-bit value as four lowercase hexadecimal digits.
pub open spec fn spec_hex16_chars(v: u16) -> Seq<char> {
    seq![
        crate::addr_text::spec_hex_char((v / 0x1000) as u8),
        crate::addr_text::spec_hex_char(((v / 0x100) % 16) as u8),
        crate::addr_text::spec_hex_char(((v / 16) % 16) as u8),
        crate::addr_text::spec_hex_char((v % 16) as u8),
    ]
}

/// Writes a 16-bit value as four lowercase hexadecimal digits.
pub fn hex16_string(v: u16) -> (r: String)
    ensures
        r@ =~= spec_hex16_chars(v),
{
    let mut s = String::new();
    s.append(crate::addr_text::hex_char_str((v / 0x1000) as u8));
    s.append(crate::addr_text::hex_char_str(((v / 0x100) % 16) as u8));
    s.append(crate::addr_text::hex_char_str(((v / 16) % 16) as u8));
    s.append(crate::addr_text::hex_char_str((v % 16) as u8));
    s
}

impl MMTypeCode {
    /// The name of the code's two bits.
    pub open spec fn spec_name_chars(self) -> Seq<char> {
        match self {
            MMTypeCode::REQ => "REQ"@,
            MMTypeCode::CNF => "CNF"@,
            MMTypeCode::IND => "IND"@,
            MMTypeCode::RSP => "RSP"@,
        }
    }

    pub fn name(&self) -> (r: &'static str)
        ensures
            r@ == self.spec_name_chars(),
    {
        match self {
            MMTypeCode::REQ => "REQ",
            MMTypeCode::CNF => "CNF",
            MMTypeCode::IND => "IND",
            MMTypeCode::RSP => "RSP",
        }
    }
}

impl MMType {
    /// How the code prints: its base's name where that is recognised,
    /// its family prefix and hex value otherwise, then a dot and its
    /// request/confirm/indication/response split.
    pub open spec fn spec_describe_chars(self) -> Seq<char> {
        let head = if self.spec_is_named() {
            self.spec_name_chars()
        } else {
            self.spec_family_chars() + spec_hex16_chars(self.0)
        };
        head + seq!['.'] + self.spec_code().spec_name_chars()
    }

    /// Renders the code for a reader: `name` for a recognised base, the
    /// family prefix and hex value for the rest, and the code split.
    pub fn describe(&self) -> (r: String)
        ensures
            r@ =~= self.spec_describe_chars(),
    {
        proof {
            reveal_strlit(".");
        }
        let mut s = match self.name() {
            Some(named) => String::from_str(named),
            None => {
                let mut head = String::from_str(self.family_name());
                head.append(hex16_string(self.0).as_str());
                head
            },
        };
        s.append(".");
        s.append(self.code().name());
        s
    }
}

/// Base and code assemble back into the value they came from, for
/// every code: `base(v) | bits(code(v)) == v`.
pub proof fn lemma_mmtype_split_assembles(v: MMType)
    ensures
        v.spec_base() | v.spec_code().spec_bits() == v.0,
{
    let x = v.0;
    assert((x & 0xfffc) | (x & 0b11) == x) by (bit_vector);
    assert(x & 0b11 == 0 || x & 0b11 == 1 || x & 0b11 == 2 || x & 0b11 == 3) by (bit_vector);
}

/// The four constructors `req`/`cnf`/`ind`/`rsp` preserve the base and
/// set the code to the intended two bits.
pub proof fn lemma_mmtype_constructor(v: MMType, bits: u16)
    requires
        bits <= 0b11,
    ensures
        (MMType((v.spec_base() + bits) as u16)).spec_base() == v.spec_base(),
        (MMType((v.spec_base() + bits) as u16)).spec_code().spec_bits() == bits,
{
    let x = v.0;
    assert(((x & 0xfffc) + bits) as u16 & 0xfffc == x & 0xfffc) by (bit_vector)
        requires bits <= 3;
    assert(((x & 0xfffc) + bits) as u16 & 0b11 == bits) by (bit_vector)
        requires bits <= 3;
}

/// Serialising a code to its two little-endian octets and parsing them
/// back yields the code unchanged.
pub proof fn lemma_mmtype_le_roundtrip(v: MMType)
    ensures
        (v.0 % 0x100) + (v.0 / 0x100) * 0x100 == v.0,
{
}

} // verus!
