//! Verified core of the YSOS teaching kernel: partition-table parsing, the
//! UART 16550 driver protocol, stack-trace collection, process resources,
//! system-call numbers and the user-space standard streams.

pub mod gdt;
pub mod io;
pub mod mbr;
pub mod memory;
pub mod panic;
pub mod proc_data;
pub mod resource;
pub mod serial;
pub mod stack_trace;
pub mod syscall;
pub mod text;
