//! Boot-time descriptor tables for x86-64: segment descriptor encoding, a
//! fixed-capacity global descriptor table, and the task-state segment that
//! carries the emergency fault stack.
pub mod bits;
pub mod boot;
pub mod descriptor;
pub mod flags;
pub mod table;
pub mod tss;

pub use descriptor::Descriptor;
pub use table::{DescriptorTableRegister, GlobalDescriptorTable};
pub use tss::TaskStateSegment;
