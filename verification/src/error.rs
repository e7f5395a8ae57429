//! The conditions under which a stage of the handoff gives up.

use vstd::prelude::*;

verus! {

/// Why a stage could not deliver what the kernel needs from it.
#[derive(Clone, Copy, Debug, PartialEq, Eq, Structural)]
pub enum HandoffError {
    /// The configuration table names no ACPI root table.
    MissingAcpi,
    /// The size of the memory-map buffer does not fit the address size.
    SizeOverflow,
    /// The firmware granted no memory for the memory-map buffer.
    AllocationFailed,
    /// The graphics adapter offers no display mode.
    NoDisplayModes,
}

impl HandoffError {
    /// Whether the whole boot has to stop. Only the display can be done without.
    pub fn is_fatal(&self) -> (fatal: bool)
        ensures
            fatal == (*self != HandoffError::NoDisplayModes),
    {
        match self {
            HandoffError::NoDisplayModes => false,
            _ => true,
        }
    }

    /// A sentence for the log.
    pub fn to_string(&self) -> (text: String)
        ensures
            text@ == match *self {
                HandoffError::MissingAcpi => "no ACPI root table in the configuration table"@,
                HandoffError::SizeOverflow => "memory map buffer size overflows"@,
                HandoffError::AllocationFailed => "no memory for the memory map buffer"@,
                HandoffError::NoDisplayModes => "no display modes available"@,
            },
    {
        match self {
            HandoffError::MissingAcpi => "no ACPI root table in the configuration table".to_owned(),
            HandoffError::SizeOverflow => "memory map buffer size overflows".to_owned(),
            HandoffError::AllocationFailed => "no memory for the memory map buffer".to_owned(),
            HandoffError::NoDisplayModes => "no display modes available".to_owned(),
        }
    }
}

} // verus!
