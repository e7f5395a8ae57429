//! The memory map as the kernel receives it, made from the one that the firmware keeps.

use vstd::prelude::*;
use vstd::std_specs::convert::FromSpecImpl;
use crate::error::HandoffError;

verus! {

/// The firmware's code for memory that it reserves.
pub const FW_RESERVED: u32 = 0;

/// The firmware's code for the code of the loaded boot stage.
pub const FW_LOADER_CODE: u32 = 1;

/// The firmware's code for the data of the loaded boot stage.
pub const FW_LOADER_DATA: u32 = 2;

/// The firmware's code for the code of its runtime services.
pub const FW_RUNTIME_SERVICES_CODE: u32 = 5;

/// The firmware's code for the data of its runtime services.
pub const FW_RUNTIME_SERVICES_DATA: u32 = 6;

/// The firmware's code for free memory.
pub const FW_CONVENTIONAL: u32 = 7;

/// The firmware's code for memory that holds ACPI tables.
pub const FW_ACPI_RECLAIM: u32 = 9;

/// The firmware's code for memory that the firmware keeps across sleep states.
pub const FW_ACPI_NON_VOLATILE: u32 = 10;

/// What a range of physical memory is used for.
///
/// The firmware's codes that have a meaning to the kernel get a variant of their own.
/// The firmware services that matter here are the runtime services, whose code and data
/// stay in place once the kernel runs. Every other code is kept as it came, in `Other`.
#[derive(Clone, Copy, Debug, PartialEq, Eq, Structural)]
pub enum RegionType {
    Free,
    Reserved,
    FirmwareCode,
    FirmwareData,
    AcpiReclaim,
    AcpiNvs,
    LoaderCode,
    LoaderData,
    Other(u32),
}

impl RegionType {
    /// The region type that a firmware code stands for.
    pub open spec fn of_code(code: u32) -> RegionType {
        if code == FW_CONVENTIONAL {
            RegionType::Free
        } else if code == FW_RESERVED {
            RegionType::Reserved
        } else if code == FW_RUNTIME_SERVICES_CODE {
            RegionType::FirmwareCode
        } else if code == FW_RUNTIME_SERVICES_DATA {
            RegionType::FirmwareData
        } else if code == FW_ACPI_RECLAIM {
            RegionType::AcpiReclaim
        } else if code == FW_ACPI_NON_VOLATILE {
            RegionType::AcpiNvs
        } else if code == FW_LOADER_CODE {
            RegionType::LoaderCode
        } else if code == FW_LOADER_DATA {
            RegionType::LoaderData
        } else {
            RegionType::Other(code)
        }
    }

    /// The firmware code that this region type came from.
    pub open spec fn to_code(self) -> u32 {
        match self {
            RegionType::Free => FW_CONVENTIONAL,
            RegionType::Reserved => FW_RESERVED,
            RegionType::FirmwareCode => FW_RUNTIME_SERVICES_CODE,
            RegionType::FirmwareData => FW_RUNTIME_SERVICES_DATA,
            RegionType::AcpiReclaim => FW_ACPI_RECLAIM,
            RegionType::AcpiNvs => FW_ACPI_NON_VOLATILE,
            RegionType::LoaderCode => FW_LOADER_CODE,
            RegionType::LoaderData => FW_LOADER_DATA,
            RegionType::Other(code) => code,
        }
    }

    /// `Other` holds only codes that have no variant of their own.
    pub open spec fn wf(self) -> bool {
        self matches RegionType::Other(code) ==> RegionType::of_code(code) == self
    }

    /// Translates a firmware code. No code is refused: one without a variant of its own
    /// is kept in `Other`.
    pub fn from_code(code: u32) -> (region: RegionType)
        ensures
            region == RegionType::of_code(code),
            region.wf(),
            region.to_code() == code,
    {
        if code == FW_CONVENTIONAL {
            RegionType::Free
        } else if code == FW_RESERVED {
            RegionType::Reserved
        } else if code == FW_RUNTIME_SERVICES_CODE {
            RegionType::FirmwareCode
        } else if code == FW_RUNTIME_SERVICES_DATA {
            RegionType::FirmwareData
        } else if code == FW_ACPI_RECLAIM {
            RegionType::AcpiReclaim
        } else if code == FW_ACPI_NON_VOLATILE {
            RegionType::AcpiNvs
        } else if code == FW_LOADER_CODE {
            RegionType::LoaderCode
        } else if code == FW_LOADER_DATA {
            RegionType::LoaderData
        } else {
            RegionType::Other(code)
        }
    }

    /// The firmware code that this region type came from.
    pub fn code(&self) -> (code: u32)
        ensures
            code == self.to_code(),
    {
        match self {
            RegionType::Free => FW_CONVENTIONAL,
            RegionType::Reserved => FW_RESERVED,
            RegionType::FirmwareCode => FW_RUNTIME_SERVICES_CODE,
            RegionType::FirmwareData => FW_RUNTIME_SERVICES_DATA,
            RegionType::AcpiReclaim => FW_ACPI_RECLAIM,
            RegionType::AcpiNvs => FW_ACPI_NON_VOLATILE,
            RegionType::LoaderCode => FW_LOADER_CODE,
            RegionType::LoaderData => FW_LOADER_DATA,
            RegionType::Other(code) => *code,
        }
    }
}

/// The range can be marked uncacheable.
pub const ATTR_UNCACHEABLE: u64 = 0x1;

/// The range supports write-combining.
pub const ATTR_WRITE_COMBINE: u64 = 0x2;

/// The range supports write-through caching.
pub const ATTR_WRITE_THROUGH: u64 = 0x4;

/// The range supports write-back caching.
pub const ATTR_WRITE_BACK: u64 = 0x8;

/// The range can be write-protected.
pub const ATTR_WRITE_PROTECT: u64 = 0x1000;

/// The range can be read-protected.
pub const ATTR_READ_PROTECT: u64 = 0x2000;

/// The range can be kept from being executed.
pub const ATTR_EXECUTE_PROTECT: u64 = 0x4000;

/// The range keeps its contents without power.
pub const ATTR_NON_VOLATILE: u64 = 0x8000;

/// The range can be made read-only.
pub const ATTR_READ_ONLY: u64 = 0x2_0000;

/// The firmware needs the range mapped whenever one of its runtime services is called.
pub const ATTR_RUNTIME: u64 = 0x8000_0000_0000_0000;

/// The attributes of a range of memory, one bit each.
///
/// The bits stand where the firmware has them, so that no attribute is lost on the way
/// to the kernel, named here or not.
#[derive(Clone, Copy, Debug, PartialEq, Eq, Structural)]
pub struct MemAttributes {
    pub bits: u64,
}

impl MemAttributes {
    /// The attribute set that the firmware's bits stand for.
    pub fn from_bits(bits: u64) -> (attributes: MemAttributes)
        ensures
            attributes.bits == bits,
    {
        MemAttributes { bits }
    }

    /// The set as the firmware's bits.
    pub fn bits(&self) -> (bits: u64)
        ensures
            bits == self.bits,
    {
        self.bits
    }

    /// Whether every bit of `flags` is in the set.
    pub open spec fn has(self, flags: u64) -> bool {
        self.bits & flags == flags
    }

    /// Whether every bit of `flags` is in the set.
    pub fn contains(&self, flags: u64) -> (all: bool)
        ensures
            all == self.has(flags),
    {
        self.bits & flags == flags
    }

    /// Whether the range can be written: it is neither write-protected nor read-only.
    pub fn writable(&self) -> (yes: bool)
        ensures
            yes == (self.bits & (ATTR_WRITE_PROTECT | ATTR_READ_ONLY) == 0),
    {
        self.bits & (ATTR_WRITE_PROTECT | ATTR_READ_ONLY) == 0
    }

    /// Whether the range can be cached, write-back or write-through.
    pub fn cacheable(&self) -> (yes: bool)
        ensures
            yes == (self.bits & (ATTR_WRITE_BACK | ATTR_WRITE_THROUGH) != 0),
    {
        self.bits & (ATTR_WRITE_BACK | ATTR_WRITE_THROUGH) != 0
    }

    /// Whether the range supports write-through caching.
    pub fn write_through(&self) -> (yes: bool)
        ensures
            yes == self.has(ATTR_WRITE_THROUGH),
    {
        self.contains(ATTR_WRITE_THROUGH)
    }

    /// Whether the range keeps its contents without power.
    pub fn non_volatile(&self) -> (yes: bool)
        ensures
            yes == self.has(ATTR_NON_VOLATILE),
    {
        self.contains(ATTR_NON_VOLATILE)
    }
}

/// One entry of the firmware's memory map, as plain values.
#[derive(Clone, Copy, Debug, PartialEq, Eq, Structural)]
pub struct MemoryDescriptor {
    /// The firmware's code for what the range is used for.
    pub ty: u32,
    /// Where the range starts in physical memory.
    pub phys_start: u64,
    /// Where the range starts in virtual memory.
    pub virt_start: u64,
    /// The number of 4 KiB pages in the range.
    pub page_count: u64,
    /// The firmware's attribute bits.
    pub att: u64,
}

/// One range of physical memory as the kernel sees it.
#[derive(Clone, Copy, Debug, PartialEq, Eq, Structural)]
pub struct OSMemEntry {
    pub mem_type: RegionType,
    pub base: u64,
    pub pages: u64,
    pub mem_attrib: MemAttributes,
}

impl OSMemEntry {
    /// The kernel's entry for a firmware descriptor: the same range with the same
    /// attributes, its use given as a region type.
    pub open spec fn of(descriptor: MemoryDescriptor) -> OSMemEntry {
        OSMemEntry {
            mem_type: RegionType::of_code(descriptor.ty),
            base: descriptor.phys_start,
            pages: descriptor.page_count,
            mem_attrib: MemAttributes { bits: descriptor.att },
        }
    }
}

impl<'a> From<&'a MemoryDescriptor> for OSMemEntry {
    fn from(mdesc: &'a MemoryDescriptor) -> (entry: OSMemEntry) {
        OSMemEntry {
            mem_type: RegionType::from_code(mdesc.ty),
            base: mdesc.phys_start,
            pages: mdesc.page_count,
            mem_attrib: MemAttributes::from_bits(mdesc.att),
        }
    }
}

impl<'a> FromSpecImpl<&'a MemoryDescriptor> for OSMemEntry {
    open spec fn obeys_from_spec() -> bool {
        true
    }

    open spec fn from_spec(mdesc: &'a MemoryDescriptor) -> OSMemEntry {
        OSMemEntry::of(*mdesc)
    }
}

/// Nothing is lost in translation: the type code, the base address, the page count and
/// the attribute bits of a descriptor can all be read back from its entry.
pub proof fn lemma_translation_lossless(descriptor: MemoryDescriptor)
    ensures
        OSMemEntry::of(descriptor).mem_type.to_code() == descriptor.ty,
        OSMemEntry::of(descriptor).mem_type.wf(),
        OSMemEntry::of(descriptor).base == descriptor.phys_start,
        OSMemEntry::of(descriptor).pages == descriptor.page_count,
        OSMemEntry::of(descriptor).mem_attrib.bits == descriptor.att,
{
}

/// Region types and firmware codes stand for each other one to one.
pub proof fn lemma_region_type_round_trip(region: RegionType)
    requires
        region.wf(),
    ensures
        RegionType::of_code(region.to_code()) == region,
{
}

/// Descriptors that differ in type, start, size or attributes give different entries.
pub proof fn lemma_translation_injective(a: MemoryDescriptor, b: MemoryDescriptor)
    requires
        OSMemEntry::of(a) == OSMemEntry::of(b),
    ensures
        a.ty == b.ty,
        a.phys_start == b.phys_start,
        a.page_count == b.page_count,
        a.att == b.att,
{
    lemma_translation_lossless(a);
    lemma_translation_lossless(b);
}

/// How many entries a translation writes: all of them, or as many as the buffer holds.
pub open spec fn entries_written(descriptors: nat, capacity: nat) -> nat {
    if descriptors <= capacity {
        descriptors
    } else {
        capacity
    }
}

/// Translates the firmware's memory map into `buffer`, entry by entry from the front,
/// and stops where the buffer ends. Returns the number of entries written; what lies
/// behind them in the buffer stays as it was.
pub fn translate_memory_map(descriptors: &[MemoryDescriptor], buffer: &mut [OSMemEntry]) -> (written:
    usize)
    ensures
        written == entries_written(descriptors@.len(), old(buffer)@.len()),
        final(buffer)@.len() == old(buffer)@.len(),
        forall|i: int| 0 <= i < written ==> final(buffer)@[i] == OSMemEntry::of(descriptors@[i]),
        forall|i: int| written <= i < old(buffer)@.len() ==> final(buffer)@[i] == old(buffer)@[i],
{
    let mut i: usize = 0;
    while i < descriptors.len() && i < buffer.len()
        invariant
            i <= descriptors@.len(),
            i <= buffer@.len(),
            buffer@.len() == old(buffer)@.len(),
            forall|k: int| 0 <= k < i ==> buffer@[k] == OSMemEntry::of(descriptors@[k]),
            forall|k: int| i <= k < buffer@.len() ==> buffer@[k] == old(buffer)@[k],
        decreases descriptors@.len() - i,
    {
        buffer[i] = OSMemEntry::from(&descriptors[i]);
        i += 1;
    }
    i
}

/// The number of bytes that a buffer of `entry_count` entries takes, each of `entry_size`
/// bytes. A number that does not fit the address size is refused, never wrapped.
pub fn buffer_bytes(entry_count: usize, entry_size: usize) -> (bytes: Result<usize, HandoffError>)
    ensures
        entry_count * entry_size <= usize::MAX ==> bytes == Ok::<usize, HandoffError>(
            (entry_count * entry_size) as usize,
        ),
        entry_count * entry_size > usize::MAX ==> bytes == Err::<usize, HandoffError>(
            HandoffError::SizeOverflow,
        ),
{
    match entry_count.checked_mul(entry_size) {
        Some(bytes) => Ok(bytes),
        None => Err(HandoffError::SizeOverflow),
    }
}

/// Takes the answer of the allocator that was asked for the buffer: the address of the
/// buffer, if one was granted.
pub fn granted_buffer(allocation: Option<usize>) -> (address: Result<usize, HandoffError>)
    ensures
        match allocation {
            Some(granted) if granted != 0 => address == Ok::<usize, HandoffError>(granted),
            _ => address == Err::<usize, HandoffError>(HandoffError::AllocationFailed),
        },
{
    match allocation {
        Some(granted) => {
            if granted != 0 {
                Ok(granted)
            } else {
                Err(HandoffError::AllocationFailed)
            }
        },
        None => Err(HandoffError::AllocationFailed),
    }
}

} // verus!
