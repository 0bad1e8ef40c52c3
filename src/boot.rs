//! The kernel's own descriptor table: which descriptors it holds, in which
//! order, and the selectors that the rest of the kernel uses for them.
use crate::descriptor::{tss_high, tss_low, Descriptor};
use crate::flags::{KERNEL_CODE, KERNEL_DATA, USER_CODE, USER_DATA};
use crate::table::{GlobalDescriptorTable, ENTRY_SIZE};
use vstd::prelude::*;

verus! {

/// Capacity of the kernel's descriptor table.
pub const KERNEL_TABLE_CAPACITY: usize = 8;

/// Selector of the ring-0 code segment.
pub const KERNEL_CODE_SELECTOR: u16 = 0x08;

/// Selector of the ring-0 data segment.
pub const KERNEL_DATA_SELECTOR: u16 = 0x10;

/// Selector of the ring-3 code segment.
pub const USER_CODE_SELECTOR: u16 = 0x18;

/// Selector of the ring-3 data segment.
pub const USER_DATA_SELECTOR: u16 = 0x20;

/// Selector of the task-state segment.
pub const TSS_SELECTOR: u16 = 0x28;

/// The entries of the kernel's table for a task-state segment of `tss_size`
/// bytes at `tss_base`: null, kernel code, kernel data, user code, user
/// data, then the two quadwords of the TSS descriptor.
pub open spec fn kernel_entries(tss_base: u64, tss_size: u64) -> Seq<u64> {
    seq![
        0u64,
        KERNEL_CODE,
        KERNEL_DATA,
        USER_CODE,
        USER_DATA,
        tss_low(tss_base, tss_size),
        tss_high(tss_base),
    ]
}

/// Builds the kernel's table, pushing kernel code, kernel data, user code,
/// user data and the descriptor of the task-state segment of `tss_size`
/// bytes at `tss_base`, in that order.
pub fn kernel_table(tss_base: u64, tss_size: usize) -> (r: GlobalDescriptorTable<
    KERNEL_TABLE_CAPACITY,
>)
    requires
        1 <= tss_size <= 0x1_0000,
    ensures
        r.wf(),
        r@ == kernel_entries(tss_base, tss_size as u64),
{
    let mut gdt = GlobalDescriptorTable::<KERNEL_TABLE_CAPACITY>::empty();
    gdt.push(Descriptor::kernel_code_segment());
    gdt.push(Descriptor::kernel_data_segment());
    gdt.push(Descriptor::user_code_segment());
    gdt.push(Descriptor::user_data_segment());
    gdt.push(Descriptor::task_state_segment(tss_base, tss_size));
    assert(gdt@ =~= kernel_entries(tss_base, tss_size as u64));
    gdt
}

/// Each selector is the byte offset of its descriptor in the kernel's table:
/// the entry at `selector / 8` is the descriptor that was pushed for it, and
/// the offsets come out as 0x08, 0x10, 0x18, 0x20 and 0x28 in push order.
pub proof fn lemma_selector_offsets(tss_base: u64, tss_size: u64)
    ensures
        ({
            let e = kernel_entries(tss_base, tss_size);
            &&& KERNEL_CODE_SELECTOR as int == 1 * ENTRY_SIZE && e[1] == KERNEL_CODE
            &&& KERNEL_DATA_SELECTOR as int == 2 * ENTRY_SIZE && e[2] == KERNEL_DATA
            &&& USER_CODE_SELECTOR as int == 3 * ENTRY_SIZE && e[3] == USER_CODE
            &&& USER_DATA_SELECTOR as int == 4 * ENTRY_SIZE && e[4] == USER_DATA
            &&& TSS_SELECTOR as int == 5 * ENTRY_SIZE && e[5] == tss_low(tss_base, tss_size)
                && e[6] == tss_high(tss_base)
        }),
{
}

/// The kernel's table occupies seven entries, so the size that its table
/// register carries is 55 bytes.
pub proof fn lemma_kernel_register_size(tss_base: u64, tss_size: u64)
    ensures
        kernel_entries(tss_base, tss_size).len() == 7,
        kernel_entries(tss_base, tss_size).len() * ENTRY_SIZE - 1 == 55,
{
}

} // verus!
