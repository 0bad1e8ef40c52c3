use descriptor_tables::boot::{
    kernel_table, KERNEL_CODE_SELECTOR, KERNEL_DATA_SELECTOR, TSS_SELECTOR, USER_CODE_SELECTOR,
    USER_DATA_SELECTOR,
};
use descriptor_tables::flags::{
    DEFAULT_SIZE, EXECUTABLE, KERNEL_CODE, KERNEL_DATA, LONG_MODE, PRESENT, USER_CODE, USER_DATA,
    USER_SEGMENT,
};
use descriptor_tables::tss::{FAULT_STACK_SIZE, TSS_SIZE};
use descriptor_tables::{Descriptor, GlobalDescriptorTable, TaskStateSegment};

fn user_value(d: Descriptor) -> u64 {
    match d {
        Descriptor::UserSegment(v) => v,
        Descriptor::SystemSegment(_, _) => panic!("expected a user segment"),
    }
}

fn privilege_level(v: u64) -> u64 {
    (v >> 45) & 3
}

fn decode_base(low: u64, high: u64) -> u64 {
    ((low >> 16) & 0xFF_FFFF) | (((low >> 56) & 0xFF) << 24) | ((high & 0xFFFF_FFFF) << 32)
}

fn decode_limit(low: u64) -> u64 {
    (low & 0xFFFF) | (((low >> 48) & 0xF) << 16)
}

#[test]
fn kernel_code_segment_decodes() {
    let v = user_value(Descriptor::kernel_code_segment());
    assert_eq!(v, 0xFFAF_9BFF_FFFF_FFFF);
    assert_eq!(v, KERNEL_CODE);
    assert_eq!(privilege_level(v), 0);
    assert_ne!(v & EXECUTABLE, 0);
    assert_ne!(v & LONG_MODE, 0);
    assert_ne!(v & PRESENT, 0);
    assert_ne!(v & USER_SEGMENT, 0);
    assert_eq!(v & DEFAULT_SIZE, 0);
}

#[test]
fn user_code_segment_decodes() {
    let v = user_value(Descriptor::user_code_segment());
    assert_eq!(v, 0xFFAF_FBFF_FFFF_FFFF);
    assert_eq!(v, USER_CODE);
    assert_eq!(privilege_level(v), 3);
    assert_ne!(v & EXECUTABLE, 0);
    assert_ne!(v & LONG_MODE, 0);
    assert_ne!(v & PRESENT, 0);
    assert_ne!(v & USER_SEGMENT, 0);
}

#[test]
fn data_segments_decode() {
    let k = user_value(Descriptor::kernel_data_segment());
    let u = user_value(Descriptor::user_data_segment());
    assert_eq!(k, 0xFFCF_93FF_FFFF_FFFF);
    assert_eq!(u, 0xFFCF_F3FF_FFFF_FFFF);
    assert_eq!(k, KERNEL_DATA);
    assert_eq!(u, USER_DATA);
    assert_eq!(privilege_level(k), 0);
    assert_eq!(privilege_level(u), 3);
    assert_eq!(k & EXECUTABLE, 0);
    assert_eq!(u & LONG_MODE, 0);
    assert_ne!(k & DEFAULT_SIZE, 0);
}

#[test]
fn empty_table_holds_null_entry() {
    let t = GlobalDescriptorTable::<8>::empty();
    assert_eq!(t.len(), 1);
    assert_eq!(t.entry(0), 0);
    assert_eq!(t.entries(), &[0u64; 8]);
}

#[test]
fn append_keeps_push_order() {
    let mut t = GlobalDescriptorTable::<8>::empty();
    t.push(Descriptor::UserSegment(0xA));
    t.push(Descriptor::UserSegment(0xB));
    t.push(Descriptor::UserSegment(0xC));
    assert_eq!(t.len(), 4);
    assert_eq!(t.entry(0), 0);
    assert_eq!(t.entry(1), 0xA);
    assert_eq!(t.entry(2), 0xB);
    assert_eq!(t.entry(3), 0xC);
    assert_eq!(t.entries()[4..], [0u64; 4]);
}

#[test]
fn system_segment_takes_two_entries() {
    let mut t = GlobalDescriptorTable::<8>::empty();
    t.push(Descriptor::kernel_code_segment());
    let n = t.len();
    t.push(Descriptor::SystemSegment(0x1111, 0x2222));
    assert_eq!(t.len(), n + 2);
    assert_eq!(t.entry(n), 0x1111);
    assert_eq!(t.entry(n + 1), 0x2222);
    assert_eq!(t.entry(1), KERNEL_CODE);
}

#[test]
fn table_fills_to_capacity() {
    let mut t = GlobalDescriptorTable::<3>::empty();
    t.push(Descriptor::SystemSegment(5, 6));
    assert_eq!(t.len(), 3);
    assert_eq!(t.entries(), &[0, 5, 6]);
}

#[test]
fn slot_counts() {
    assert_eq!(Descriptor::UserSegment(1).slot_count(), 1);
    assert_eq!(Descriptor::SystemSegment(1, 2).slot_count(), 2);
}

#[test]
fn selectors_follow_push_order() {
    let t = kernel_table(0x1000, TSS_SIZE);
    assert_eq!(KERNEL_CODE_SELECTOR, 0x08);
    assert_eq!(KERNEL_DATA_SELECTOR, 0x10);
    assert_eq!(USER_CODE_SELECTOR, 0x18);
    assert_eq!(USER_DATA_SELECTOR, 0x20);
    assert_eq!(TSS_SELECTOR, 0x28);
    assert_eq!(t.entry(KERNEL_CODE_SELECTOR as usize / 8), KERNEL_CODE);
    assert_eq!(t.entry(KERNEL_DATA_SELECTOR as usize / 8), KERNEL_DATA);
    assert_eq!(t.entry(USER_CODE_SELECTOR as usize / 8), USER_CODE);
    assert_eq!(t.entry(USER_DATA_SELECTOR as usize / 8), USER_DATA);
    match Descriptor::task_state_segment(0x1000, TSS_SIZE) {
        Descriptor::SystemSegment(low, high) => {
            assert_eq!(t.entry(TSS_SELECTOR as usize / 8), low);
            assert_eq!(t.entry(TSS_SELECTOR as usize / 8 + 1), high);
        }
        Descriptor::UserSegment(_) => panic!("expected a system segment"),
    }
}

#[test]
fn tss_descriptor_encoding() {
    let a: u64 = 0xFFFF_8000_1234_5678;
    let d = Descriptor::task_state_segment(a, TSS_SIZE);
    assert_eq!(d, Descriptor::SystemSegment(0x1200_8934_5678_0067, 0xFFFF_8000));
    match d {
        Descriptor::SystemSegment(low, high) => {
            assert_eq!(decode_base(low, high), a);
            assert_eq!(decode_limit(low), 103);
            assert_eq!((low >> 40) & 0xF, 0b1001);
            assert_ne!(low & PRESENT, 0);
            assert_eq!(low & USER_SEGMENT, 0);
        }
        Descriptor::UserSegment(_) => panic!("expected a system segment"),
    }
}

#[test]
fn tss_descriptor_extreme_sizes() {
    match Descriptor::task_state_segment(u64::MAX, 0x1_0000) {
        Descriptor::SystemSegment(low, high) => {
            assert_eq!(decode_base(low, high), u64::MAX);
            assert_eq!(decode_limit(low), 0xFFFF);
            assert_eq!(high, 0xFFFF_FFFF);
        }
        Descriptor::UserSegment(_) => panic!("expected a system segment"),
    }
    match Descriptor::task_state_segment(0, 1) {
        Descriptor::SystemSegment(low, high) => {
            assert_eq!(low, PRESENT | (0b1001 << 40));
            assert_eq!(high, 0);
        }
        Descriptor::UserSegment(_) => panic!("expected a system segment"),
    }
}

#[test]
fn register_counts_occupied_bytes() {
    let mut t = GlobalDescriptorTable::<8>::empty();
    assert_eq!(t.register(0x5000).size, 7);
    t.push(Descriptor::kernel_code_segment());
    t.push(Descriptor::kernel_data_segment());
    let r = t.register(0xDEAD_B000);
    assert_eq!(r.size, 3 * 8 - 1);
    assert_eq!(r.address, 0xDEAD_B000);
}

#[test]
fn kernel_table_register_end_to_end() {
    let t = kernel_table(0xFFFF_8000_0000_2000, TSS_SIZE);
    assert_eq!(t.len(), 7);
    let address = t.entries().as_ptr() as u64;
    let r = t.register(address);
    assert_eq!(r.size, 55);
    assert_eq!(r.address, address);
    assert_eq!(t.entry(0), 0);
    assert_eq!(t.entries()[7], 0);
}

#[test]
fn fault_stack_sits_in_first_slot() {
    let tss = TaskStateSegment::with_fault_stack(0x10_0000, FAULT_STACK_SIZE);
    assert_eq!(tss.interrupt_stack_table[0], 0x10_0000 + 20 * 1024);
    assert_eq!(tss.interrupt_stack_table[1..], [0u64; 6]);
    assert_eq!(tss.privilege_stack_table, [0u64; 3]);
    assert_eq!(tss.iomap_base, 104);
}

#[test]
fn new_tss_is_zeroed() {
    let tss = TaskStateSegment::new();
    assert_eq!(tss.interrupt_stack_table, [0u64; 7]);
    assert_eq!(tss.iomap_base as usize, TSS_SIZE);
}
