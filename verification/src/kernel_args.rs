//! The context that is handed to the kernel, and the steps that fill it.

use vstd::prelude::*;
use crate::cfg_table::{resolve, Anchor, ConfigTableEntry, TableFamily};
use crate::error::HandoffError;

pub use crate::os_mem::OSMemEntry;

verus! {

/// What the context holds, as the contracts speak of it.
pub struct HandoffView {
    /// Where the ACPI root table lies.
    pub acpi: Anchor,
    /// Where the SMBIOS entry point lies.
    pub smbios: Anchor,
    /// The base of the PCI Express configuration space, 0 if none was found.
    pub pcie: usize,
    /// Where the translated memory map lies, 0 if none was made.
    pub memmap: usize,
    /// The number of entries in the translated memory map.
    pub memmap_entries: usize,
}

impl HandoffView {
    /// The context in which nothing has been recorded.
    pub open spec fn blank() -> HandoffView {
        HandoffView {
            acpi: Anchor::unset(),
            smbios: Anchor::unset(),
            pcie: 0,
            memmap: 0,
            memmap_entries: 0,
        }
    }
}

/// What the boot stage has found out for the kernel.
///
/// Every address in it is an opaque physical address. Nothing here reads what it points to.
#[derive(Clone, Copy, Debug)]
pub struct KernelArgs {
    acpi_ptr: usize,
    smbios_ptr: usize,
    acpi_ver: u8,
    smbios_ver: u8,
    pcie_ptr: usize,
    memmap_ptr: usize,
    memmap_entries: usize,
}

impl View for KernelArgs {
    type V = HandoffView;

    closed spec fn view(&self) -> HandoffView {
        HandoffView {
            acpi: Anchor { address: self.acpi_ptr, version: self.acpi_ver },
            smbios: Anchor { address: self.smbios_ptr, version: self.smbios_ver },
            pcie: self.pcie_ptr,
            memmap: self.memmap_ptr,
            memmap_entries: self.memmap_entries,
        }
    }
}

impl Default for KernelArgs {
    fn default() -> (args: KernelArgs)
        ensures
            args@ == HandoffView::blank(),
    {
        KernelArgs {
            acpi_ptr: 0,
            smbios_ptr: 0,
            acpi_ver: 0,
            smbios_ver: 0,
            pcie_ptr: 0,
            memmap_ptr: 0,
            memmap_entries: 0,
        }
    }
}

impl KernelArgs {
    /// Looks through the configuration table and keeps, for ACPI and for SMBIOS, the entry
    /// of the highest version, unless the context already holds one as high.
    pub fn populate_from_cfg_table(&mut self, cfg_tables: &[ConfigTableEntry])
        ensures
            final(self)@ == (HandoffView {
                acpi: resolve(TableFamily::Acpi, old(self)@.acpi, cfg_tables@),
                smbios: resolve(TableFamily::Smbios, old(self)@.smbios, cfg_tables@),
                ..old(self)@
            }),
    {
        let acpi = Anchor { address: self.acpi_ptr, version: self.acpi_ver }.resolve_from(
            TableFamily::Acpi,
            cfg_tables,
        );
        let smbios = Anchor { address: self.smbios_ptr, version: self.smbios_ver }.resolve_from(
            TableFamily::Smbios,
            cfg_tables,
        );
        self.acpi_ptr = acpi.address;
        self.acpi_ver = acpi.version;
        self.smbios_ptr = smbios.address;
        self.smbios_ver = smbios.version;
    }

    /// Records where the ACPI root table lies and of which version it is.
    pub fn set_acpi(&mut self, ptr: usize, ver: u8)
        ensures
            final(self)@ == (HandoffView {
                acpi: Anchor { address: ptr, version: ver },
                ..old(self)@
            }),
    {
        self.acpi_ptr = ptr;
        self.acpi_ver = ver;
    }

    /// The address and the version of the ACPI root table, both 0 if none was found.
    pub fn get_acpi(&self) -> (anchor: (usize, u8))
        ensures
            anchor == (self@.acpi.address, self@.acpi.version),
    {
        (self.acpi_ptr, self.acpi_ver)
    }

    /// The ACPI root table for a stage that cannot do without it.
    pub fn require_acpi(&self) -> (anchor: Result<Anchor, HandoffError>)
        ensures
            self@.acpi.is_set() ==> anchor == Ok::<Anchor, HandoffError>(self@.acpi),
            !self@.acpi.is_set() ==> anchor == Err::<Anchor, HandoffError>(
                HandoffError::MissingAcpi,
            ),
    {
        if self.acpi_ver != 0 && self.acpi_ptr != 0 {
            Ok(Anchor { address: self.acpi_ptr, version: self.acpi_ver })
        } else {
            Err(HandoffError::MissingAcpi)
        }
    }

    /// Records where the SMBIOS entry point lies and of which version it is.
    pub fn set_smbios(&mut self, ptr: usize, ver: u8)
        ensures
            final(self)@ == (HandoffView {
                smbios: Anchor { address: ptr, version: ver },
                ..old(self)@
            }),
    {
        self.smbios_ptr = ptr;
        self.smbios_ver = ver;
    }

    /// The address and the version of the SMBIOS entry point, both 0 if none was found.
    pub fn get_smbios(&self) -> (anchor: (usize, u8))
        ensures
            anchor == (self@.smbios.address, self@.smbios.version),
    {
        (self.smbios_ptr, self.smbios_ver)
    }

    /// Records the base of the PCI Express configuration space.
    pub fn set_pcie(&mut self, ptr: usize)
        ensures
            final(self)@ == (HandoffView { pcie: ptr, ..old(self)@ }),
    {
        self.pcie_ptr = ptr
    }

    /// The base of the PCI Express configuration space, 0 if none was found.
    pub fn get_pcie(&self) -> (ptr: usize)
        ensures
            ptr == self@.pcie,
    {
        self.pcie_ptr
    }

    /// Records where the translated memory map lies and how many entries were written
    /// to it.
    pub fn set_memmap(&mut self, ptr: usize, entries: usize)
        ensures
            final(self)@ == (HandoffView { memmap: ptr, memmap_entries: entries, ..old(self)@ }),
    {
        self.memmap_ptr = ptr;
        self.memmap_entries = entries;
    }

    /// Where the translated memory map lies, 0 if none was made.
    pub fn get_memmap(&self) -> (ptr: usize)
        ensures
            ptr == self@.memmap,
    {
        self.memmap_ptr
    }

    /// The number of entries in the translated memory map.
    pub fn get_memmap_entries(&self) -> (entries: usize)
        ensures
            entries == self@.memmap_entries,
    {
        self.memmap_entries
    }
}

} // verus!
