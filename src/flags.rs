//! Attribute bits of a segment descriptor, and the presets built from them.
//! Not every bit is meaningful for every kind of descriptor.
use vstd::prelude::*;

verus! {

/// Set by the processor when the segment is accessed; setting it in software
/// spares the processor a table write on first use.
pub const ACCESSED: u64 = 1 << 40;

/// Writable data segment, or readable code segment (ignored in 64-bit mode).
pub const WRITABLE: u64 = 1 << 41;

/// Conforming code segment, or expand-down data segment.
pub const CONFORMING: u64 = 1 << 42;

/// Set for code segments, clear for data segments.
pub const EXECUTABLE: u64 = 1 << 43;

/// Set for code and data segments, clear for system segments.
pub const USER_SEGMENT: u64 = 1 << 44;

/// Both bits of the descriptor privilege level: ring 3 when set, ring 0 when clear.
pub const DPL_RING_3: u64 = 3 << 45;

/// The segment is present; a segment-not-present fault comes otherwise.
pub const PRESENT: u64 = 1 << 47;

/// Free for the operating system's own use.
pub const AVAILABLE: u64 = 1 << 52;

/// Set for 64-bit code segments, clear otherwise.
pub const LONG_MODE: u64 = 1 << 53;

/// 32-bit rather than 16-bit operands; must be clear when `LONG_MODE` is set.
pub const DEFAULT_SIZE: u64 = 1 << 54;

/// The limit counts 4 KiB pages (ignored in 64-bit mode).
pub const GRANULARITY: u64 = 1 << 55;

/// Bits 0..16 of the limit.
pub const LIMIT_0_15: u64 = 0xFFFF;

/// Bits 16..20 of the limit.
pub const LIMIT_16_19: u64 = 0xF << 48;

/// Bits 0..24 of the base.
pub const BASE_0_23: u64 = 0xFF_FFFF << 16;

/// Bits 24..32 of the base.
pub const BASE_24_31: u64 = 0xFF << 56;

/// What every code and data segment of this kernel sets: a present,
/// accessed, writable user segment spanning the whole address space.
pub const COMMON: u64 = USER_SEGMENT | PRESENT | WRITABLE | ACCESSED | LIMIT_0_15 | LIMIT_16_19
    | BASE_0_23 | BASE_24_31 | GRANULARITY;

/// A 64-bit code segment at ring 0.
pub const KERNEL_CODE: u64 = COMMON | LONG_MODE | EXECUTABLE;

/// A data segment at ring 0.
pub const KERNEL_DATA: u64 = COMMON | DEFAULT_SIZE;

/// A 64-bit code segment at ring 3.
pub const USER_CODE: u64 = KERNEL_CODE | DPL_RING_3;

/// A data segment at ring 3.
pub const USER_DATA: u64 = KERNEL_DATA | DPL_RING_3;

/// The type nibble of a system descriptor for an available 64-bit TSS.
pub const TSS_AVAILABLE_64: u64 = 0b1001;

} // verus!
