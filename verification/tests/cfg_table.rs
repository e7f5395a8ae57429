use bootloader::cfg_table::{Anchor, ConfigTableEntry, TableFamily};
use bootloader::guid::Guid;
use bootloader::kernel_args::KernelArgs;

const ACPI1: [u8; 16] = [
    0x30, 0x2d, 0x9d, 0xeb, 0x88, 0x2d, 0xd3, 0x11, 0x9a, 0x16, 0x00, 0x90, 0x27, 0x3f, 0xc1, 0x4d,
];
const ACPI2: [u8; 16] = [
    0x71, 0xe8, 0x68, 0x88, 0xf1, 0xe4, 0xd3, 0x11, 0xbc, 0x22, 0x00, 0x80, 0xc7, 0x3c, 0x88, 0x81,
];
const SMBIOS1: [u8; 16] = [
    0x31, 0x2d, 0x9d, 0xeb, 0x88, 0x2d, 0xd3, 0x11, 0x9a, 0x16, 0x00, 0x90, 0x27, 0x3f, 0xc1, 0x4d,
];
const SMBIOS3: [u8; 16] = [
    0x44, 0x15, 0xfd, 0xf2, 0x94, 0x97, 0x2c, 0x4a, 0x99, 0x2e, 0xe5, 0xbb, 0xcf, 0x20, 0xe3, 0x94,
];
const ESRT: [u8; 16] = [
    0x63, 0xa2, 0x22, 0xb1, 0x61, 0x36, 0x68, 0x4f, 0x99, 0x29, 0x78, 0xf8, 0xb0, 0xd6, 0x21, 0x80,
];

fn entry(bytes: [u8; 16], address: usize) -> ConfigTableEntry {
    ConfigTableEntry { guid: Guid::from_bytes(bytes), address }
}

fn resolved(entries: &[ConfigTableEntry]) -> KernelArgs {
    let mut args = KernelArgs::default();
    args.populate_from_cfg_table(entries);
    args
}

#[test]
fn known_identifiers_match_their_text_form() {
    assert_eq!(uefi::Guid::parse_or_panic("eb9d2d30-2d88-11d3-9a16-0090273fc14d").to_bytes(), ACPI1);
    assert_eq!(uefi::Guid::parse_or_panic("8868e871-e4f1-11d3-bc22-0080c73c8881").to_bytes(), ACPI2);
    assert_eq!(
        uefi::Guid::parse_or_panic("eb9d2d31-2d88-11d3-9a16-0090273fc14d").to_bytes(),
        SMBIOS1
    );
    assert_eq!(
        uefi::Guid::parse_or_panic("f2fd1544-9794-4a2c-992e-e5bbcf20e394").to_bytes(),
        SMBIOS3
    );
}

#[test]
fn family_versions_of_each_identifier() {
    assert_eq!(TableFamily::Acpi.version_of(&Guid::from_bytes(ACPI2)), 2);
    assert_eq!(TableFamily::Acpi.version_of(&Guid::from_bytes(ACPI1)), 1);
    assert_eq!(TableFamily::Acpi.version_of(&Guid::from_bytes(SMBIOS3)), 0);
    assert_eq!(TableFamily::Acpi.version_of(&Guid::from_bytes(ESRT)), 0);
    assert_eq!(TableFamily::Smbios.version_of(&Guid::from_bytes(SMBIOS3)), 3);
    assert_eq!(TableFamily::Smbios.version_of(&Guid::from_bytes(SMBIOS1)), 1);
    assert_eq!(TableFamily::Smbios.version_of(&Guid::from_bytes(ACPI2)), 0);
    assert_eq!(TableFamily::Smbios.version_of(&Guid::from_bytes([0; 16])), 0);
}

#[test]
fn empty_table_leaves_anchors_unset() {
    let args = resolved(&[]);
    assert_eq!(args.get_acpi(), (0, 0));
    assert_eq!(args.get_smbios(), (0, 0));
}

#[test]
fn acpi1_alone_gives_version_1() {
    let args = resolved(&[entry(ACPI1, 0x1000)]);
    assert_eq!(args.get_acpi(), (0x1000, 1));
    assert_eq!(args.get_smbios(), (0, 0));
}

#[test]
fn acpi2_wins_when_it_comes_first() {
    let args = resolved(&[entry(ACPI2, 0x2000), entry(ACPI1, 0x1000)]);
    assert_eq!(args.get_acpi(), (0x2000, 2));
}

#[test]
fn acpi2_wins_when_it_comes_last() {
    let args = resolved(&[entry(ACPI1, 0x1000), entry(ACPI2, 0x2000)]);
    assert_eq!(args.get_acpi(), (0x2000, 2));
}

#[test]
fn acpi2_wins_in_every_order_of_four_entries() {
    let entries = [
        entry(ACPI1, 0x1000),
        entry(ACPI2, 0x2000),
        entry(SMBIOS1, 0x3000),
        entry(ESRT, 0x4000),
    ];
    let mut orders = 0;
    for a in 0..4 {
        for b in 0..4 {
            for c in 0..4 {
                for d in 0..4 {
                    if a != b && a != c && a != d && b != c && b != d && c != d {
                        let args = resolved(&[entries[a], entries[b], entries[c], entries[d]]);
                        assert_eq!(args.get_acpi(), (0x2000, 2));
                        assert_eq!(args.get_smbios(), (0x3000, 1));
                        orders += 1;
                    }
                }
            }
        }
    }
    assert_eq!(orders, 24);
}

#[test]
fn smbios3_wins_over_smbios1_in_both_orders() {
    let first = resolved(&[entry(SMBIOS3, 0x30), entry(SMBIOS1, 0x10)]);
    assert_eq!(first.get_smbios(), (0x30, 3));
    let last = resolved(&[entry(SMBIOS1, 0x10), entry(SMBIOS3, 0x30)]);
    assert_eq!(last.get_smbios(), (0x30, 3));
    assert_eq!(last.get_acpi(), (0, 0));
}

#[test]
fn unrecognized_identifiers_are_ignored() {
    let args = resolved(&[entry(ESRT, 0x4000), entry([0xff; 16], 0x5000)]);
    assert_eq!(args.get_acpi(), (0, 0));
    assert_eq!(args.get_smbios(), (0, 0));
}

#[test]
fn equal_version_does_not_replace_the_first() {
    let args = resolved(&[entry(ACPI2, 0x2000), entry(ACPI2, 0x9000)]);
    assert_eq!(args.get_acpi(), (0x2000, 2));
}

#[test]
fn populate_keeps_a_higher_version_already_held() {
    let mut args = KernelArgs::default();
    args.set_acpi(0x7000, 2);
    args.set_smbios(0x8000, 1);
    args.populate_from_cfg_table(&[entry(ACPI1, 0x1000), entry(ACPI2, 0x2000), entry(SMBIOS3, 0x3000)]);
    assert_eq!(args.get_acpi(), (0x7000, 2));
    assert_eq!(args.get_smbios(), (0x3000, 3));
}

#[test]
fn populate_leaves_the_rest_of_the_context() {
    let mut args = KernelArgs::default();
    args.set_pcie(0xe000_0000);
    args.set_memmap(0x9_0000, 12);
    args.populate_from_cfg_table(&[entry(ACPI2, 0x2000)]);
    assert_eq!(args.get_pcie(), 0xe000_0000);
    assert_eq!(args.get_memmap(), 0x9_0000);
    assert_eq!(args.get_memmap_entries(), 12);
}

#[test]
fn offer_takes_only_a_strictly_higher_version() {
    let unset = Anchor { address: 0, version: 0 };
    let one = unset.offer(TableFamily::Acpi, &entry(ACPI1, 0x1000));
    assert_eq!(one, Anchor { address: 0x1000, version: 1 });
    let still_one = one.offer(TableFamily::Acpi, &entry(ACPI1, 0x1100));
    assert_eq!(still_one, Anchor { address: 0x1000, version: 1 });
    let two = one.offer(TableFamily::Acpi, &entry(ACPI2, 0x2000));
    assert_eq!(two, Anchor { address: 0x2000, version: 2 });
    let still_two = two.offer(TableFamily::Acpi, &entry(ACPI1, 0x1000));
    assert_eq!(still_two, Anchor { address: 0x2000, version: 2 });
    let other_family = two.offer(TableFamily::Acpi, &entry(SMBIOS3, 0x3000));
    assert_eq!(other_family, Anchor { address: 0x2000, version: 2 });
}

#[test]
fn resolve_from_agrees_with_offering_one_by_one() {
    let entries = [entry(SMBIOS1, 0x10), entry(ACPI1, 0x20), entry(SMBIOS3, 0x30), entry(SMBIOS3, 0x40)];
    let start = Anchor { address: 0, version: 0 };
    let mut step = start;
    for e in entries.iter() {
        step = step.offer(TableFamily::Smbios, e);
    }
    assert_eq!(start.resolve_from(TableFamily::Smbios, &entries), step);
    assert_eq!(step, Anchor { address: 0x30, version: 3 });
}
