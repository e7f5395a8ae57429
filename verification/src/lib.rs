//! Builds the context that a boot stage hands to the kernel it starts.

pub mod cfg_table;
pub mod cfg_table_type;
pub mod error;
pub mod frame_buffer;
pub mod guid;
pub mod identity_acpi_handler;
pub mod kernel_args;
pub mod known_tables;
pub mod os_mem;
pub mod pcie;
