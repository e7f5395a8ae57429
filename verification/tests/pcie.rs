use bootloader::pcie::{locate_ecam, scan_step, EcamBase, ScanStep};
use std::cell::Cell;

#[test]
fn only_segment_7_resolves() {
    let found = locate_ecam(|segment| if segment == 7 { Some(0xe000_0000) } else { None });
    assert_eq!(found, Some(EcamBase { segment: 7, address: 0xe000_0000 }));
}

#[test]
fn no_segment_resolves() {
    let asked = Cell::new(0u32);
    let found = locate_ecam(|_segment| {
        asked.set(asked.get() + 1);
        None
    });
    assert_eq!(found, None);
    assert_eq!(asked.get(), 65536);
}

#[test]
fn search_stops_at_the_first_answer() {
    let asked = Cell::new(0u32);
    let found = locate_ecam(|segment| {
        asked.set(asked.get() + 1);
        if segment >= 7 {
            Some(0x1000 * segment as u64)
        } else {
            None
        }
    });
    assert_eq!(found, Some(EcamBase { segment: 7, address: 0x7000 }));
    assert_eq!(asked.get(), 8);
}

#[test]
fn segments_are_asked_in_ascending_order() {
    let last = Cell::new(None);
    let found = locate_ecam(|segment| {
        match last.get() {
            None => assert_eq!(segment, 0),
            Some(previous) => assert_eq!(segment, previous + 1),
        }
        last.set(Some(segment));
        if segment == 300 {
            Some(0xb000_0000)
        } else {
            None
        }
    });
    assert_eq!(found, Some(EcamBase { segment: 300, address: 0xb000_0000 }));
}

#[test]
fn segment_0_is_found_at_once() {
    let asked = Cell::new(0u32);
    let found = locate_ecam(|_segment| {
        asked.set(asked.get() + 1);
        Some(0)
    });
    assert_eq!(found, Some(EcamBase { segment: 0, address: 0 }));
    assert_eq!(asked.get(), 1);
}

#[test]
fn last_segment_is_still_asked() {
    let found = locate_ecam(|segment| if segment == u16::MAX { Some(u64::MAX) } else { None });
    assert_eq!(found, Some(EcamBase { segment: u16::MAX, address: u64::MAX }));
}

#[test]
fn scan_steps() {
    assert_eq!(scan_step(7, Some(0x10)), ScanStep::Found(EcamBase { segment: 7, address: 0x10 }));
    assert_eq!(scan_step(7, None), ScanStep::Ask(8));
    assert_eq!(scan_step(0, None), ScanStep::Ask(1));
    assert_eq!(scan_step(65534, None), ScanStep::Ask(65535));
    assert_eq!(scan_step(65535, None), ScanStep::NotFound);
    assert_eq!(
        scan_step(65535, Some(1)),
        ScanStep::Found(EcamBase { segment: 65535, address: 1 })
    );
}
