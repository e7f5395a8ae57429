//! Readable names for the entries of the firmware's configuration table.

use vstd::prelude::*;
use vstd::std_specs::convert::FromSpecImpl;
use crate::guid::Guid;
use crate::known_tables::{
    acpi2_bytes, acpi2_guid, acpi_bytes, acpi_guid, debug_image_info_bytes, debug_image_info_guid,
    dxe_services_bytes, dxe_services_guid, esrt_bytes, esrt_guid, hand_off_block_list_bytes,
    hand_off_block_list_guid, lzma_compress_bytes, lzma_compress_guid,
    memory_status_code_record_bytes, memory_status_code_record_guid,
    memory_type_information_bytes, memory_type_information_guid, properties_table_bytes,
    properties_table_guid, smbios3_bytes, smbios3_guid, smbios_bytes, smbios_guid,
    tiano_compress_bytes, tiano_compress_guid,
};

verus! {

/// The identifier of one configuration table, kept for the sake of printing it.
#[derive(Clone, Copy, Debug)]
pub struct CfgTableType(pub Guid);

impl From<Guid> for CfgTableType {
    fn from(guid: Guid) -> (table: CfgTableType) {
        CfgTableType(guid)
    }
}

impl FromSpecImpl<Guid> for CfgTableType {
    open spec fn obeys_from_spec() -> bool {
        true
    }

    open spec fn from_spec(guid: Guid) -> CfgTableType {
        CfgTableType(guid)
    }
}

/// The text that the `uefi` crate prints for the identifier with these bytes.
pub uninterp spec fn guid_text(bytes: Seq<u8>) -> Seq<char>;

/// Formats an identifier with `uefi::Guid`'s `Display`, after rebuilding the value with
/// `uefi::Guid::from_bytes`. Trusted: that the text depends on the sixteen bytes alone.
#[verifier::external_body]
fn guid_to_text(guid: &Guid) -> (text: String)
    ensures
        text@ == guid_text(guid@),
{
    uefi::Guid::from_bytes(guid.bytes).to_string()
}

/// What a table is called when it is listed: a short name for each table known here,
/// and the identifier's own text for every other one.
pub open spec fn table_name(guid: Seq<u8>) -> Seq<char> {
    if guid == acpi2_bytes() {
        "ACPI2"@
    } else if guid == acpi_bytes() {
        "ACPI1"@
    } else if guid == debug_image_info_bytes() {
        "Debug Image"@
    } else if guid == dxe_services_bytes() {
        "DXE Services"@
    } else if guid == esrt_bytes() {
        "EFI System Resources"@
    } else if guid == hand_off_block_list_bytes() {
        "Hand-off Block List"@
    } else if guid == lzma_compress_bytes() {
        "LZMA Compressed filesystem"@
    } else if guid == memory_status_code_record_bytes() {
        "Hand-off Status Code"@
    } else if guid == memory_type_information_bytes() {
        "Memory Type Information"@
    } else if guid == properties_table_bytes() {
        "Properties Table"@
    } else if guid == smbios3_bytes() {
        "SMBIOS3"@
    } else if guid == smbios_bytes() {
        "SMBIOS1"@
    } else if guid == tiano_compress_bytes() {
        "Tiano compressed filesystem"@
    } else {
        guid_text(guid)
    }
}

impl CfgTableType {
    /// The name under which this table is listed.
    pub fn to_string(&self) -> (name: String)
        ensures
            name@ == table_name(self.0@),
    {
        if self.0 == acpi2_guid() {
            "ACPI2".to_owned()
        } else if self.0 == acpi_guid() {
            "ACPI1".to_owned()
        } else if self.0 == debug_image_info_guid() {
            "Debug Image".to_owned()
        } else if self.0 == dxe_services_guid() {
            "DXE Services".to_owned()
        } else if self.0 == esrt_guid() {
            "EFI System Resources".to_owned()
        } else if self.0 == hand_off_block_list_guid() {
            "Hand-off Block List".to_owned()
        } else if self.0 == lzma_compress_guid() {
            "LZMA Compressed filesystem".to_owned()
        } else if self.0 == memory_status_code_record_guid() {
            "Hand-off Status Code".to_owned()
        } else if self.0 == memory_type_information_guid() {
            "Memory Type Information".to_owned()
        } else if self.0 == properties_table_guid() {
            "Properties Table".to_owned()
        } else if self.0 == smbios3_guid() {
            "SMBIOS3".to_owned()
        } else if self.0 == smbios_guid() {
            "SMBIOS1".to_owned()
        } else if self.0 == tiano_compress_guid() {
            "Tiano compressed filesystem".to_owned()
        } else {
            guid_to_text(&self.0)
        }
    }
}

} // verus!
