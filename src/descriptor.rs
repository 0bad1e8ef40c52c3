//! Segment descriptors: what a table entry holds, how it is encoded, and how
//! its fields read back.
use crate::bits::{bit_range, get_bits, low_mask, set_bits, with_bit_range};
use crate::flags::{
    DPL_RING_3, EXECUTABLE, KERNEL_CODE, KERNEL_DATA, LONG_MODE, PRESENT, TSS_AVAILABLE_64,
    USER_CODE, USER_DATA, USER_SEGMENT, DEFAULT_SIZE,
};
use vstd::prelude::*;

verus! {

/// A descriptor ready to go into the table: a code or data segment takes one
/// entry, a system segment (such as a TSS) takes two, low quadword first.
#[derive(Clone, Copy, Debug, PartialEq, Eq, Structural)]
pub enum Descriptor {
    UserSegment(u64),
    SystemSegment(u64, u64),
}

/// The descriptor privilege level held in bits 45..47.
pub open spec fn privilege_level(v: u64) -> u64 {
    bit_range(v, 45, 47)
}

/// Every bit of `flag` is set in `v`.
pub open spec fn has_flag(v: u64, flag: u64) -> bool {
    v & flag == flag
}

/// The 20-bit limit, from bits 0..16 and 48..52.
pub open spec fn segment_limit(low: u64) -> u64 {
    bit_range(low, 0, 16) | (bit_range(low, 48, 52) << 16u64)
}

/// The type nibble of a system descriptor, bits 40..44.
pub open spec fn system_type(low: u64) -> u64 {
    bit_range(low, 40, 44)
}

/// The 64-bit base of a system descriptor: bits 0..24 from bits 16..40 of the
/// low quadword, bits 24..32 from its bits 56..64, bits 32..64 from the low
/// half of the high quadword.
pub open spec fn system_base(low: u64, high: u64) -> u64 {
    bit_range(low, 16, 40) | (bit_range(low, 56, 64) << 24u64) | (bit_range(high, 0, 32) << 32u64)
}

/// A present 64-bit code segment at privilege level `dpl`.
pub open spec fn is_code_segment(v: u64, dpl: u64) -> bool {
    &&& privilege_level(v) == dpl
    &&& has_flag(v, USER_SEGMENT)
    &&& has_flag(v, PRESENT)
    &&& has_flag(v, EXECUTABLE)
    &&& has_flag(v, LONG_MODE)
    &&& !has_flag(v, DEFAULT_SIZE)
}

/// A present data segment at privilege level `dpl`.
pub open spec fn is_data_segment(v: u64, dpl: u64) -> bool {
    &&& privilege_level(v) == dpl
    &&& has_flag(v, USER_SEGMENT)
    &&& has_flag(v, PRESENT)
    &&& !has_flag(v, EXECUTABLE)
    &&& !has_flag(v, LONG_MODE)
}

/// The low quadword of a TSS descriptor for a structure of `size` bytes at `base`.
pub open spec fn tss_low(base: u64, size: u64) -> u64 {
    PRESENT | (TSS_AVAILABLE_64 << 40u64) | (bit_range(base, 0, 24) << 16u64) | (bit_range(
        base,
        24,
        32,
    ) << 56u64) | ((size - 1) as u64)
}

/// The high quadword of a TSS descriptor for a structure at `base`.
pub open spec fn tss_high(base: u64) -> u64 {
    bit_range(base, 32, 64)
}

impl Descriptor {
    /// The table entries this descriptor occupies, in order.
    pub open spec fn slots(self) -> Seq<u64> {
        match self {
            Descriptor::UserSegment(v) => seq![v],
            Descriptor::SystemSegment(low, high) => seq![low, high],
        }
    }

    /// How many table entries this descriptor occupies.
    pub fn slot_count(&self) -> (r: usize)
        ensures
            r == self.slots().len(),
    {
        match self {
            Descriptor::UserSegment(_) => 1,
            Descriptor::SystemSegment(_, _) => 2,
        }
    }

    /// The ring-0 64-bit code segment.
    pub fn kernel_code_segment() -> (r: Descriptor)
        ensures
            r == Descriptor::UserSegment(KERNEL_CODE),
            KERNEL_CODE == 0xFFAF_9BFF_FFFF_FFFFu64,
            is_code_segment(KERNEL_CODE, 0),
    {
        assert(KERNEL_CODE == 0xFFAF_9BFF_FFFF_FFFFu64) by (bit_vector);
        assert(is_code_segment(0xFFAF_9BFF_FFFF_FFFFu64, 0)) by (bit_vector);
        Descriptor::UserSegment(KERNEL_CODE)
    }

    /// The ring-0 data segment.
    pub fn kernel_data_segment() -> (r: Descriptor)
        ensures
            r == Descriptor::UserSegment(KERNEL_DATA),
            KERNEL_DATA == 0xFFCF_93FF_FFFF_FFFFu64,
            is_data_segment(KERNEL_DATA, 0),
    {
        assert(KERNEL_DATA == 0xFFCF_93FF_FFFF_FFFFu64) by (bit_vector);
        assert(is_data_segment(0xFFCF_93FF_FFFF_FFFFu64, 0)) by (bit_vector);
        Descriptor::UserSegment(KERNEL_DATA)
    }

    /// The ring-3 64-bit code segment.
    pub fn user_code_segment() -> (r: Descriptor)
        ensures
            r == Descriptor::UserSegment(USER_CODE),
            USER_CODE == 0xFFAF_FBFF_FFFF_FFFFu64,
            is_code_segment(USER_CODE, 3),
    {
        assert(USER_CODE == 0xFFAF_FBFF_FFFF_FFFFu64) by (bit_vector);
        assert(is_code_segment(0xFFAF_FBFF_FFFF_FFFFu64, 3)) by (bit_vector);
        Descriptor::UserSegment(USER_CODE)
    }

    /// The ring-3 data segment.
    pub fn user_data_segment() -> (r: Descriptor)
        ensures
            r == Descriptor::UserSegment(USER_DATA),
            USER_DATA == 0xFFCF_F3FF_FFFF_FFFFu64,
            is_data_segment(USER_DATA, 3),
    {
        assert(USER_DATA == 0xFFCF_F3FF_FFFF_FFFFu64) by (bit_vector);
        assert(is_data_segment(0xFFCF_F3FF_FFFF_FFFFu64, 3)) by (bit_vector);
        Descriptor::UserSegment(USER_DATA)
    }

    /// The system descriptor of a task-state segment of `size` bytes that
    /// stands at address `base`: the base split over its three fields, the
    /// limit `size - 1`, the type of an available 64-bit TSS, present.
    pub fn task_state_segment(base: u64, size: usize) -> (r: Descriptor)
        requires
            1 <= size <= 0x1_0000,
        ensures
            r == Descriptor::SystemSegment(tss_low(base, size as u64), tss_high(base)),
            system_base(tss_low(base, size as u64), tss_high(base)) == base,
            segment_limit(tss_low(base, size as u64)) == size - 1,
            system_type(tss_low(base, size as u64)) == TSS_AVAILABLE_64,
            has_flag(tss_low(base, size as u64), PRESENT),
            !has_flag(tss_low(base, size as u64), USER_SEGMENT),
            privilege_level(tss_low(base, size as u64)) == 0,
    {
        let mut low: u64 = PRESENT;
        let mut high: u64 = 0;

        // address
        let base_0_23 = get_bits(base, 0, 24);
        let base_24_31 = get_bits(base, 24, 32);
        let base_32_63 = get_bits(base, 32, 64);
        assert(base_0_23 <= low_mask(24) && base_24_31 <= low_mask(8) && base_32_63 <= low_mask(
            32,
        )) by (bit_vector)
            requires
                base_0_23 == bit_range(base, 0, 24),
                base_24_31 == bit_range(base, 24, 32),
                base_32_63 == bit_range(base, 32, 64),
        ;
        set_bits(&mut low, 16, 40, base_0_23);
        set_bits(&mut low, 56, 64, base_24_31);
        set_bits(&mut high, 0, 32, base_32_63);

        // size
        let limit = (size - 1) as u64;
        assert(limit <= low_mask(16)) by (bit_vector)
            requires
                limit <= 0xFFFF,
        ;
        set_bits(&mut low, 0, 16, limit);

        // type
        assert(TSS_AVAILABLE_64 <= low_mask(4)) by (bit_vector);
        set_bits(&mut low, 40, 44, TSS_AVAILABLE_64);

        let ghost l1 = with_bit_range(PRESENT, 16, 40, base_0_23);
        let ghost l2 = with_bit_range(l1, 56, 64, base_24_31);
        let ghost l3 = with_bit_range(l2, 0, 16, limit);
        assert(low == tss_low(base, size as u64) && high == tss_high(base) && system_base(
            low,
            high,
        ) == base && segment_limit(low) == limit && system_type(low) == TSS_AVAILABLE_64
            && has_flag(low, PRESENT) && !has_flag(low, USER_SEGMENT) && privilege_level(low) == 0)
            by (bit_vector)
            requires
                base_0_23 == bit_range(base, 0, 24),
                base_24_31 == bit_range(base, 24, 32),
                base_32_63 == bit_range(base, 32, 64),
                limit <= 0xFFFF,
                limit == (size - 1) as u64,
                l1 == with_bit_range(PRESENT, 16, 40, base_0_23),
                l2 == with_bit_range(l1, 56, 64, base_24_31),
                l3 == with_bit_range(l2, 0, 16, limit),
                low == with_bit_range(l3, 40, 44, TSS_AVAILABLE_64),
                high == with_bit_range(0, 0, 32, base_32_63),
        ;
        Descriptor::SystemSegment(low, high)
    }
}

} // verus!
