mod addr_text;
pub mod bpf;
mod bridge_info;
mod broadcom;
mod discover_list;
mod engine;
mod ether_addr;
mod ether_type;
mod hfid;
mod message;
mod mmeerror;
mod mmtype;
mod mmv;
mod network_info;
mod nmk;
mod oui;
mod station_capabilities;

pub use addr_text::lemma_addr_text_roundtrip;
pub use addr_text::spec_addr_chars;
pub use addr_text::spec_parse_ether;
pub use bridge_info::BridgeInfo;
pub use bridge_info::BridgeInfoRequest;
pub use bridge_info::lemma_bridge_records_in_bounds;
pub use broadcom::GetProperty;
pub use broadcom::GetPropertyRequest;
pub use broadcom::lemma_property_records_in_bounds;
pub use broadcom::Property;
pub use broadcom::SetProperty;
pub use broadcom::SetPropertyRequest;
pub use discover_list::DiscoverList;
pub use discover_list::DiscoverListRequest;
pub use discover_list::lemma_discover_records_in_bounds;
pub use discover_list::Network;
pub use discover_list::signal_level_str;
pub use discover_list::Station;
pub use engine::discover_devices;
pub use engine::EtherInterface;
pub use engine::EtherSocket;
pub use engine::lemma_reply_matches_meaning;
pub use engine::is_error_indication;
pub use engine::reply_matches;
pub use engine::send_request;
pub use engine::spec_reply_matches;
pub use ether_addr::EtherAddr;
pub use ether_type::EtherType;
pub use hfid::HFID;
pub use hfid::HFIDReqType;
pub use hfid::HFIDRequest;
pub use message::header_length_of;
pub use message::lemma_header_bytes_len;
pub use message::lemma_header_roundtrip;
pub use message::MessageReader;
pub use message::MessageTX;
pub use message::set_header;
pub use message::spec_header_bytes;
pub use message::spec_header_size;
pub use message::spec_payload_of;
pub use message::UnknownMessage;
pub use message::write_bytes;
pub use mmeerror::ErrorType;
pub use mmeerror::MMEError;
pub use mmtype::lemma_mmtype_constructor;
pub use mmtype::lemma_mmtype_le_roundtrip;
pub use mmtype::lemma_mmtype_split_assembles;
pub use mmtype::MMType;
pub use mmtype::MMTypeCode;
pub use mmv::MMV;
pub use network_info::lemma_network_info_records_in_bounds;
pub use network_info::NetworkInfo;
pub use network_info::NetworkInfoEntry;
pub use network_info::NetworkInfoRequest;
pub use network_info::StationRole;
pub use nmk::generate_nid;
pub use nmk::generate_nmk;
pub use nmk::nmk_homeplug_av0123;
pub use nmk::nmk_homeplug_av;
pub use nmk::SecurityLevel;
pub use nmk::sha256_of;
pub use nmk::spec_nid;
pub use nmk::spec_nmk;
pub use oui::OUI;
pub use station_capabilities::StationCapabilities;
pub use station_capabilities::StationCapabilitiesRequest;
pub use station_capabilities::Version;
