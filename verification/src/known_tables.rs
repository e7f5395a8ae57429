//! The identifiers of the configuration tables that this boot stage knows by name.
//!
//! Each identifier is taken from the `uefi` crate when the code runs; the byte sequences
//! below say, for the proofs, which value each of them is.

use vstd::prelude::*;
use crate::guid::Guid;

verus! {

/// The bytes of `8868e871-e4f1-11d3-bc22-0080c73c8881`, which marks the ACPI 2.0 root pointer.
pub open spec fn acpi2_bytes() -> Seq<u8> {
    seq![
        0x71u8, 0xe8u8, 0x68u8, 0x88u8, 0xf1u8, 0xe4u8, 0xd3u8, 0x11u8,
        0xbcu8, 0x22u8, 0x00u8, 0x80u8, 0xc7u8, 0x3cu8, 0x88u8, 0x81u8,
    ]
}

/// Reads `uefi::table::cfg::ConfigTableEntry::ACPI2_GUID` and hands out its bytes in memory
/// order. Trusted: that the constant is `8868e871-e4f1-11d3-bc22-0080c73c8881`.
#[verifier::external_body]
pub(crate) fn acpi2_guid() -> (guid: Guid)
    ensures
        guid@ == acpi2_bytes(),
{
    Guid { bytes: uefi::table::cfg::ConfigTableEntry::ACPI2_GUID.to_bytes() }
}

/// The bytes of `eb9d2d30-2d88-11d3-9a16-0090273fc14d`, which marks the ACPI 1.0 root pointer.
pub open spec fn acpi_bytes() -> Seq<u8> {
    seq![
        0x30u8, 0x2du8, 0x9du8, 0xebu8, 0x88u8, 0x2du8, 0xd3u8, 0x11u8,
        0x9au8, 0x16u8, 0x00u8, 0x90u8, 0x27u8, 0x3fu8, 0xc1u8, 0x4du8,
    ]
}

/// Reads `uefi::table::cfg::ConfigTableEntry::ACPI_GUID` and hands out its bytes in memory
/// order. Trusted: that the constant is `eb9d2d30-2d88-11d3-9a16-0090273fc14d`.
#[verifier::external_body]
pub(crate) fn acpi_guid() -> (guid: Guid)
    ensures
        guid@ == acpi_bytes(),
{
    Guid { bytes: uefi::table::cfg::ConfigTableEntry::ACPI_GUID.to_bytes() }
}

/// The bytes of `49152e77-1ada-4764-b7a2-7afefed95e8b`, which marks the debug image info table.
pub open spec fn debug_image_info_bytes() -> Seq<u8> {
    seq![
        0x77u8, 0x2eu8, 0x15u8, 0x49u8, 0xdau8, 0x1au8, 0x64u8, 0x47u8,
        0xb7u8, 0xa2u8, 0x7au8, 0xfeu8, 0xfeu8, 0xd9u8, 0x5eu8, 0x8bu8,
    ]
}

/// Reads `uefi::table::cfg::ConfigTableEntry::DEBUG_IMAGE_INFO_GUID` and hands out its bytes in memory
/// order. Trusted: that the constant is `49152e77-1ada-4764-b7a2-7afefed95e8b`.
#[verifier::external_body]
pub(crate) fn debug_image_info_guid() -> (guid: Guid)
    ensures
        guid@ == debug_image_info_bytes(),
{
    Guid { bytes: uefi::table::cfg::ConfigTableEntry::DEBUG_IMAGE_INFO_GUID.to_bytes() }
}

/// The bytes of `05ad34ba-6f02-4214-952e-4da0398e2bb9`, which marks the DXE services table.
pub open spec fn dxe_services_bytes() -> Seq<u8> {
    seq![
        0xbau8, 0x34u8, 0xadu8, 0x05u8, 0x02u8, 0x6fu8, 0x14u8, 0x42u8,
        0x95u8, 0x2eu8, 0x4du8, 0xa0u8, 0x39u8, 0x8eu8, 0x2bu8, 0xb9u8,
    ]
}

/// Reads `uefi::table::cfg::ConfigTableEntry::DXE_SERVICES_GUID` and hands out its bytes in memory
/// order. Trusted: that the constant is `05ad34ba-6f02-4214-952e-4da0398e2bb9`.
#[verifier::external_body]
pub(crate) fn dxe_services_guid() -> (guid: Guid)
    ensures
        guid@ == dxe_services_bytes(),
{
    Guid { bytes: uefi::table::cfg::ConfigTableEntry::DXE_SERVICES_GUID.to_bytes() }
}

/// The bytes of `b122a263-3661-4f68-9929-78f8b0d62180`, which marks the EFI system resource table.
pub open spec fn esrt_bytes() -> Seq<u8> {
    seq![
        0x63u8, 0xa2u8, 0x22u8, 0xb1u8, 0x61u8, 0x36u8, 0x68u8, 0x4fu8,
        0x99u8, 0x29u8, 0x78u8, 0xf8u8, 0xb0u8, 0xd6u8, 0x21u8, 0x80u8,
    ]
}

/// Reads `uefi::table::cfg::ConfigTableEntry::ESRT_GUID` and hands out its bytes in memory
/// order. Trusted: that the constant is `b122a263-3661-4f68-9929-78f8b0d62180`.
#[verifier::external_body]
pub(crate) fn esrt_guid() -> (guid: Guid)
    ensures
        guid@ == esrt_bytes(),
{
    Guid { bytes: uefi::table::cfg::ConfigTableEntry::ESRT_GUID.to_bytes() }
}

/// The bytes of `7739f24c-93d7-11d4-9a3a-0090273fc14d`, which marks the hand-off block list.
pub open spec fn hand_off_block_list_bytes() -> Seq<u8> {
    seq![
        0x4cu8, 0xf2u8, 0x39u8, 0x77u8, 0xd7u8, 0x93u8, 0xd4u8, 0x11u8,
        0x9au8, 0x3au8, 0x00u8, 0x90u8, 0x27u8, 0x3fu8, 0xc1u8, 0x4du8,
    ]
}

/// Reads `uefi::table::cfg::ConfigTableEntry::HAND_OFF_BLOCK_LIST_GUID` and hands out its bytes in memory
/// order. Trusted: that the constant is `7739f24c-93d7-11d4-9a3a-0090273fc14d`.
#[verifier::external_body]
pub(crate) fn hand_off_block_list_guid() -> (guid: Guid)
    ensures
        guid@ == hand_off_block_list_bytes(),
{
    Guid { bytes: uefi::table::cfg::ConfigTableEntry::HAND_OFF_BLOCK_LIST_GUID.to_bytes() }
}

/// The bytes of `ee4e5898-3914-4259-9d6e-dc7bd79403cf`, which marks the LZMA-compressed filesystem.
pub open spec fn lzma_compress_bytes() -> Seq<u8> {
    seq![
        0x98u8, 0x58u8, 0x4eu8, 0xeeu8, 0x14u8, 0x39u8, 0x59u8, 0x42u8,
        0x9du8, 0x6eu8, 0xdcu8, 0x7bu8, 0xd7u8, 0x94u8, 0x03u8, 0xcfu8,
    ]
}

/// Reads `uefi::table::cfg::ConfigTableEntry::LZMA_COMPRESS_GUID` and hands out its bytes in memory
/// order. Trusted: that the constant is `ee4e5898-3914-4259-9d6e-dc7bd79403cf`.
#[verifier::external_body]
pub(crate) fn lzma_compress_guid() -> (guid: Guid)
    ensures
        guid@ == lzma_compress_bytes(),
{
    Guid { bytes: uefi::table::cfg::ConfigTableEntry::LZMA_COMPRESS_GUID.to_bytes() }
}

/// The bytes of `060cc026-4c0d-4dda-8f41-595fef00a502`, which marks the hand-off status code records.
pub open spec fn memory_status_code_record_bytes() -> Seq<u8> {
    seq![
        0x26u8, 0xc0u8, 0x0cu8, 0x06u8, 0x0du8, 0x4cu8, 0xdau8, 0x4du8,
        0x8fu8, 0x41u8, 0x59u8, 0x5fu8, 0xefu8, 0x00u8, 0xa5u8, 0x02u8,
    ]
}

/// Reads `uefi::table::cfg::ConfigTableEntry::MEMORY_STATUS_CODE_RECORD_GUID` and hands out its bytes in memory
/// order. Trusted: that the constant is `060cc026-4c0d-4dda-8f41-595fef00a502`.
#[verifier::external_body]
pub(crate) fn memory_status_code_record_guid() -> (guid: Guid)
    ensures
        guid@ == memory_status_code_record_bytes(),
{
    Guid { bytes: uefi::table::cfg::ConfigTableEntry::MEMORY_STATUS_CODE_RECORD_GUID.to_bytes() }
}

/// The bytes of `4c19049f-4137-4dd3-9c10-8b97a83ffdfa`, which marks the memory type information table.
pub open spec fn memory_type_information_bytes() -> Seq<u8> {
    seq![
        0x9fu8, 0x04u8, 0x19u8, 0x4cu8, 0x37u8, 0x41u8, 0xd3u8, 0x4du8,
        0x9cu8, 0x10u8, 0x8bu8, 0x97u8, 0xa8u8, 0x3fu8, 0xfdu8, 0xfau8,
    ]
}

/// Reads `uefi::table::cfg::ConfigTableEntry::MEMORY_TYPE_INFORMATION_GUID` and hands out its bytes in memory
/// order. Trusted: that the constant is `4c19049f-4137-4dd3-9c10-8b97a83ffdfa`.
#[verifier::external_body]
pub(crate) fn memory_type_information_guid() -> (guid: Guid)
    ensures
        guid@ == memory_type_information_bytes(),
{
    Guid { bytes: uefi::table::cfg::ConfigTableEntry::MEMORY_TYPE_INFORMATION_GUID.to_bytes() }
}

/// The bytes of `880aaca3-4adc-4a04-9079-b747340825e5`, which marks the UEFI properties table.
pub open spec fn properties_table_bytes() -> Seq<u8> {
    seq![
        0xa3u8, 0xacu8, 0x0au8, 0x88u8, 0xdcu8, 0x4au8, 0x04u8, 0x4au8,
        0x90u8, 0x79u8, 0xb7u8, 0x47u8, 0x34u8, 0x08u8, 0x25u8, 0xe5u8,
    ]
}

/// Reads `uefi::table::cfg::ConfigTableEntry::PROPERTIES_TABLE_GUID` and hands out its bytes in memory
/// order. Trusted: that the constant is `880aaca3-4adc-4a04-9079-b747340825e5`.
#[verifier::external_body]
pub(crate) fn properties_table_guid() -> (guid: Guid)
    ensures
        guid@ == properties_table_bytes(),
{
    Guid { bytes: uefi::table::cfg::ConfigTableEntry::PROPERTIES_TABLE_GUID.to_bytes() }
}

/// The bytes of `f2fd1544-9794-4a2c-992e-e5bbcf20e394`, which marks the SMBIOS 3.0 entry point.
pub open spec fn smbios3_bytes() -> Seq<u8> {
    seq![
        0x44u8, 0x15u8, 0xfdu8, 0xf2u8, 0x94u8, 0x97u8, 0x2cu8, 0x4au8,
        0x99u8, 0x2eu8, 0xe5u8, 0xbbu8, 0xcfu8, 0x20u8, 0xe3u8, 0x94u8,
    ]
}

/// Reads `uefi::table::cfg::ConfigTableEntry::SMBIOS3_GUID` and hands out its bytes in memory
/// order. Trusted: that the constant is `f2fd1544-9794-4a2c-992e-e5bbcf20e394`.
#[verifier::external_body]
pub(crate) fn smbios3_guid() -> (guid: Guid)
    ensures
        guid@ == smbios3_bytes(),
{
    Guid { bytes: uefi::table::cfg::ConfigTableEntry::SMBIOS3_GUID.to_bytes() }
}

/// The bytes of `eb9d2d31-2d88-11d3-9a16-0090273fc14d`, which marks the SMBIOS 1.0 entry point.
pub open spec fn smbios_bytes() -> Seq<u8> {
    seq![
        0x31u8, 0x2du8, 0x9du8, 0xebu8, 0x88u8, 0x2du8, 0xd3u8, 0x11u8,
        0x9au8, 0x16u8, 0x00u8, 0x90u8, 0x27u8, 0x3fu8, 0xc1u8, 0x4du8,
    ]
}

/// Reads `uefi::table::cfg::ConfigTableEntry::SMBIOS_GUID` and hands out its bytes in memory
/// order. Trusted: that the constant is `eb9d2d31-2d88-11d3-9a16-0090273fc14d`.
#[verifier::external_body]
pub(crate) fn smbios_guid() -> (guid: Guid)
    ensures
        guid@ == smbios_bytes(),
{
    Guid { bytes: uefi::table::cfg::ConfigTableEntry::SMBIOS_GUID.to_bytes() }
}

/// The bytes of `a31280ad-481e-41b6-95e8-127f4c984779`, which marks the Tiano-compressed filesystem.
pub open spec fn tiano_compress_bytes() -> Seq<u8> {
    seq![
        0xadu8, 0x80u8, 0x12u8, 0xa3u8, 0x1eu8, 0x48u8, 0xb6u8, 0x41u8,
        0x95u8, 0xe8u8, 0x12u8, 0x7fu8, 0x4cu8, 0x98u8, 0x47u8, 0x79u8,
    ]
}

/// Reads `uefi::table::cfg::ConfigTableEntry::TIANO_COMPRESS_GUID` and hands out its bytes in memory
/// order. Trusted: that the constant is `a31280ad-481e-41b6-95e8-127f4c984779`.
#[verifier::external_body]
pub(crate) fn tiano_compress_guid() -> (guid: Guid)
    ensures
        guid@ == tiano_compress_bytes(),
{
    Guid { bytes: uefi::table::cfg::ConfigTableEntry::TIANO_COMPRESS_GUID.to_bytes() }
}

} // verus!
