//! A small UEFI library and the Linux boot loader built on it: status codes and their
//! descriptions, UEFI strings, table headers and protocol identities, and the decisions
//! of the loader, which asks the firmware for one thing at a time.

pub mod allocator;
pub mod boot;
pub mod console;
pub mod kernel;
pub mod protocols;
pub mod status;
pub mod tables;
pub mod wide;

pub use allocator::Allocator;
pub use protocols::{Guid, Protocol};
pub use status::{Result, Status};
pub use wide::w;
