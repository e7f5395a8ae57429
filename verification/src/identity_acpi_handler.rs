//! What the ACPI table parser is told when it asks for memory and devices: memory is
//! where its physical address says, and nothing else is there to be read or written.

use vstd::prelude::*;

verus! {

/// A region of physical memory made reachable for the parser.
#[derive(Clone, Copy, Debug, PartialEq, Eq, Structural)]
pub struct MappedRegion {
    /// The physical address that was asked for.
    pub physical_start: usize,
    /// The address at which the parser reaches it.
    pub virtual_start: usize,
    /// The number of bytes that were asked for.
    pub region_length: usize,
    /// The number of bytes that were made reachable.
    pub mapped_length: usize,
}

/// The place of a PCI function: segment group, bus, device and function number.
#[derive(Clone, Copy, Debug, PartialEq, Eq, Structural)]
pub struct PciAddress {
    pub segment: u16,
    pub bus: u8,
    pub device: u8,
    pub function: u8,
}

/// Why the handler did not do what it was asked.
#[derive(Clone, Copy, Debug, PartialEq, Eq, Structural)]
pub enum HandlerError {
    /// The handler has no such service.
    Unimplemented,
}

/// Serves the parser while the firmware still maps all physical memory one to one.
#[derive(Clone, Copy, Debug)]
pub struct IdentityAcpiHandler;

impl IdentityAcpiHandler {
    /// Makes a region reachable. Every physical address is its own virtual address here,
    /// so nothing is mapped and the region is exactly the one asked for.
    pub fn map_physical_region(&self, physical_address: usize, size: usize) -> (region:
        MappedRegion)
        ensures
            region == (MappedRegion {
                physical_start: physical_address,
                virtual_start: physical_address,
                region_length: size,
                mapped_length: size,
            }),
    {
        MappedRegion {
            physical_start: physical_address,
            virtual_start: physical_address,
            region_length: size,
            mapped_length: size,
        }
    }

    /// Gives a region back. Nothing was mapped for it, so nothing is undone.
    pub fn unmap_physical_region(_region: &MappedRegion) {
    }

    /// Reads a byte of memory for the interpreter: always 0, memory is not read.
    pub fn read_u8(&self, _address: usize) -> (value: u8)
        ensures
            value == 0,
    {
        0
    }

    /// Reads 16 bits of memory for the interpreter: always 0.
    pub fn read_u16(&self, _address: usize) -> (value: u16)
        ensures
            value == 0,
    {
        0
    }

    /// Reads 32 bits of memory for the interpreter: always 0.
    pub fn read_u32(&self, _address: usize) -> (value: u32)
        ensures
            value == 0,
    {
        0
    }

    /// Reads 64 bits of memory for the interpreter: always 0.
    pub fn read_u64(&self, _address: usize) -> (value: u64)
        ensures
            value == 0,
    {
        0
    }

    /// Writes a byte of memory for the interpreter: nothing is written.
    pub fn write_u8(&self, _address: usize, _value: u8) {
    }

    /// Writes 16 bits of memory for the interpreter: nothing is written.
    pub fn write_u16(&self, _address: usize, _value: u16) {
    }

    /// Writes 32 bits of memory for the interpreter: nothing is written.
    pub fn write_u32(&self, _address: usize, _value: u32) {
    }

    /// Writes 64 bits of memory for the interpreter: nothing is written.
    pub fn write_u64(&self, _address: usize, _value: u64) {
    }

    /// Reads a byte from an I/O port: always 0, no port is read.
    pub fn read_io_u8(&self, _port: u16) -> (value: u8)
        ensures
            value == 0,
    {
        0
    }

    /// Reads 16 bits from an I/O port: always 0.
    pub fn read_io_u16(&self, _port: u16) -> (value: u16)
        ensures
            value == 0,
    {
        0
    }

    /// Reads 32 bits from an I/O port: always 0.
    pub fn read_io_u32(&self, _port: u16) -> (value: u32)
        ensures
            value == 0,
    {
        0
    }

    /// Writes a byte to an I/O port: nothing is written.
    pub fn write_io_u8(&self, _port: u16, _value: u8) {
    }

    /// Writes 16 bits to an I/O port: nothing is written.
    pub fn write_io_u16(&self, _port: u16, _value: u16) {
    }

    /// Writes 32 bits to an I/O port: nothing is written.
    pub fn write_io_u32(&self, _port: u16, _value: u32) {
    }

    /// Reads a byte of a function's configuration space: always 0.
    pub fn read_pci_u8(&self, _address: PciAddress, _offset: u16) -> (value: u8)
        ensures
            value == 0,
    {
        0
    }

    /// Reads 16 bits of a function's configuration space: always 0.
    pub fn read_pci_u16(&self, _address: PciAddress, _offset: u16) -> (value: u16)
        ensures
            value == 0,
    {
        0
    }

    /// Reads 32 bits of a function's configuration space: always 0.
    pub fn read_pci_u32(&self, _address: PciAddress, _offset: u16) -> (value: u32)
        ensures
            value == 0,
    {
        0
    }

    /// Writes a byte of a function's configuration space: nothing is written.
    pub fn write_pci_u8(&self, _address: PciAddress, _offset: u16, _value: u8) {
    }

    /// Writes 16 bits of a function's configuration space: nothing is written.
    pub fn write_pci_u16(&self, _address: PciAddress, _offset: u16, _value: u16) {
    }

    /// Writes 32 bits of a function's configuration space: nothing is written.
    pub fn write_pci_u32(&self, _address: PciAddress, _offset: u16, _value: u32) {
    }

    /// The time since boot in nanoseconds: always 0, no clock is read.
    pub fn nanos_since_boot(&self) -> (nanos: u64)
        ensures
            nanos == 0,
    {
        0
    }

    /// Waits without giving up the processor: returns at once.
    pub fn stall(&self, _microseconds: u64) {
    }

    /// Waits and gives up the processor: returns at once.
    pub fn sleep(&self, _milliseconds: u64) {
    }

    /// Makes a mutex for the interpreter: every mutex has the handle 0.
    pub fn create_mutex(&self) -> (handle: u32)
        ensures
            handle == 0,
    {
        0
    }

    /// Takes a mutex: refused, the handler has no mutexes to take.
    pub fn acquire(&self, _mutex: u32, _timeout: u16) -> (taken: Result<(), HandlerError>)
        ensures
            taken == Err::<(), HandlerError>(HandlerError::Unimplemented),
    {
        Err(HandlerError::Unimplemented)
    }

    /// Gives a mutex back: nothing was taken, so nothing is done.
    pub fn release(&self, _mutex: u32) {
    }
}

} // verus!
