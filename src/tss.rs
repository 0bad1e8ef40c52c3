//! The task-state segment: in 64-bit mode it mainly carries the interrupt
//! stack table, whose first slot points at a stack kept for faults only.
use vstd::prelude::*;

verus! {

/// Size in bytes of the processor's 64-bit task-state segment.
pub const TSS_SIZE: usize = 104;

/// Size in bytes of the stack kept for faults that must not run on the
/// regular stack.
pub const FAULT_STACK_SIZE: usize = 20 * 1024;

/// The fields of a 64-bit task-state segment that software sets; the
/// reserved words of the processor's layout are all zero.
#[derive(Clone, Copy, Debug)]
pub struct TaskStateSegment {
    /// Stack pointers loaded on a change to privilege levels 0, 1 and 2.
    pub privilege_stack_table: [u64; 3],
    /// Stack pointers that interrupt gates can select, slot 0 first.
    pub interrupt_stack_table: [u64; 7],
    /// Offset of the I/O permission bitmap from the segment's start.
    pub iomap_base: u16,
}

impl TaskStateSegment {
    /// A segment with every stack pointer zero and no I/O permission bitmap
    /// (its offset is the segment's size).
    pub fn new() -> (r: Self)
        ensures
            forall|i: int| 0 <= i < 3 ==> r.privilege_stack_table@[i] == 0,
            forall|i: int| 0 <= i < 7 ==> r.interrupt_stack_table@[i] == 0,
            r.iomap_base == TSS_SIZE,
    {
        TaskStateSegment {
            privilege_stack_table: [0u64; 3],
            interrupt_stack_table: [0u64; 7],
            iomap_base: TSS_SIZE as u16,
        }
    }

    /// A new segment whose interrupt-stack slot 0 holds the top (the end) of
    /// the stack of `stack_size` bytes starting at `stack_base`.
    pub fn with_fault_stack(stack_base: u64, stack_size: usize) -> (r: Self)
        requires
            stack_size > 0,
            stack_base + stack_size <= u64::MAX,
        ensures
            r.interrupt_stack_table@[0] == stack_base + stack_size,
            forall|i: int| 1 <= i < 7 ==> r.interrupt_stack_table@[i] == 0,
            forall|i: int| 0 <= i < 3 ==> r.privilege_stack_table@[i] == 0,
            r.iomap_base == TSS_SIZE,
    {
        let mut tss = TaskStateSegment::new();
        tss.interrupt_stack_table[0] = stack_base + stack_size as u64;
        tss
    }
}

} // verus!
