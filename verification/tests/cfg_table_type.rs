use bootloader::cfg_table_type::CfgTableType;
use bootloader::guid::Guid;

fn name_of(text: &str) -> String {
    let guid = Guid::from_bytes(uefi::Guid::parse_or_panic(text).to_bytes());
    CfgTableType::from(guid).to_string()
}

#[test]
fn acpi_tables_are_named() {
    assert_eq!(name_of("8868e871-e4f1-11d3-bc22-0080c73c8881"), "ACPI2");
    assert_eq!(name_of("eb9d2d30-2d88-11d3-9a16-0090273fc14d"), "ACPI1");
}

#[test]
fn smbios_tables_are_named() {
    assert_eq!(name_of("f2fd1544-9794-4a2c-992e-e5bbcf20e394"), "SMBIOS3");
    assert_eq!(name_of("eb9d2d31-2d88-11d3-9a16-0090273fc14d"), "SMBIOS1");
}

#[test]
fn other_known_tables_are_named() {
    assert_eq!(name_of("49152e77-1ada-4764-b7a2-7afefed95e8b"), "Debug Image");
    assert_eq!(name_of("05ad34ba-6f02-4214-952e-4da0398e2bb9"), "DXE Services");
    assert_eq!(name_of("b122a263-3661-4f68-9929-78f8b0d62180"), "EFI System Resources");
    assert_eq!(name_of("7739f24c-93d7-11d4-9a3a-0090273fc14d"), "Hand-off Block List");
    assert_eq!(name_of("ee4e5898-3914-4259-9d6e-dc7bd79403cf"), "LZMA Compressed filesystem");
    assert_eq!(name_of("060cc026-4c0d-4dda-8f41-595fef00a502"), "Hand-off Status Code");
    assert_eq!(name_of("4c19049f-4137-4dd3-9c10-8b97a83ffdfa"), "Memory Type Information");
    assert_eq!(name_of("880aaca3-4adc-4a04-9079-b747340825e5"), "Properties Table");
    assert_eq!(name_of("a31280ad-481e-41b6-95e8-127f4c984779"), "Tiano compressed filesystem");
}

#[test]
fn known_table_from_literal_bytes() {
    let guid = Guid::from_bytes([
        0x71, 0xe8, 0x68, 0x88, 0xf1, 0xe4, 0xd3, 0x11, 0xbc, 0x22, 0x00, 0x80, 0xc7, 0x3c, 0x88,
        0x81,
    ]);
    assert_eq!(CfgTableType::from(guid).to_string(), "ACPI2");
}

#[test]
fn unknown_table_is_listed_by_its_identifier() {
    let guid = Guid::from_bytes([1, 2, 3, 4, 5, 6, 7, 8, 9, 10, 11, 12, 13, 14, 15, 16]);
    assert_eq!(CfgTableType::from(guid).to_string(), "04030201-0605-0807-090a-0b0c0d0e0f10");
}

#[test]
fn zero_identifier_is_listed_as_zeros() {
    let guid = Guid::from_bytes([0; 16]);
    assert_eq!(CfgTableType::from(guid).to_string(), "00000000-0000-0000-0000-000000000000");
}

#[test]
fn identifier_text_is_lower_case_hex() {
    assert_eq!(
        name_of("ABCDEF01-2345-6789-ABCD-EF0123456789"),
        "abcdef01-2345-6789-abcd-ef0123456789"
    );
}

#[test]
fn identifiers_compare_by_their_bytes() {
    let a = Guid::from_bytes([7; 16]);
    let b = Guid::from_bytes([7; 16]);
    let mut other = [7u8; 16];
    other[15] = 8;
    let c = Guid::from_bytes(other);
    assert!(a == b);
    assert!(a != c);
    assert_eq!(a.to_bytes(), [7; 16]);
    assert_eq!(c.to_bytes(), other);
}
