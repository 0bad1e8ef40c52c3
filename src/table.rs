//! The global descriptor table: a fixed-capacity, append-only array of
//! entries whose first entry is the null descriptor.
use crate::descriptor::Descriptor;
use vstd::prelude::*;

verus! {

/// Width in bytes of one table entry.
pub const ENTRY_SIZE: usize = 8;

/// The most entries a descriptor table can hold: its limit is a 16-bit byte count.
pub const MAX_ENTRIES: usize = 8192;

/// A descriptor table of `MAX` entries. Entries are appended and never moved
/// or removed; entry 0 stays the null descriptor.
#[derive(Debug)]
pub struct GlobalDescriptorTable<const MAX: usize> {
    table: [u64; MAX],
    len: usize,
}

/// What the processor's table-load instruction reads: where the table
/// starts and its size in bytes, less one.
#[derive(Clone, Copy, Debug, PartialEq, Eq, Structural)]
pub struct DescriptorTableRegister {
    pub address: u64,
    pub size: u16,
}

impl<const MAX: usize> View for GlobalDescriptorTable<MAX> {
    type V = Seq<u64>;

    /// The occupied entries, the null descriptor first.
    closed spec fn view(&self) -> Seq<u64> {
        self.table@.subrange(0, self.len as int)
    }
}

impl<const MAX: usize> GlobalDescriptorTable<MAX> {
    /// The table's invariant: at least the null entry is occupied, no more
    /// than `MAX` entries are, the null entry is zero and so is every slot
    /// past the occupied ones.
    pub closed spec fn wf(&self) -> bool {
        &&& 1 <= self.len <= MAX <= MAX_ENTRIES
        &&& self.table@[0] == 0
        &&& forall|i: int| self.len <= i < MAX ==> self.table@[i] == 0
    }

    /// A table holding only the null descriptor, every slot zeroed.
    pub fn empty() -> (r: Self)
        requires
            1 <= MAX <= MAX_ENTRIES,
        ensures
            r.wf(),
            r@ == seq![0u64],
    {
        let r = GlobalDescriptorTable { table: [0u64; MAX], len: 1 };
        assert(r@ =~= seq![0u64]);
        r
    }

    /// Appends the entries of `descriptor` after the occupied ones.
    pub fn push(&mut self, descriptor: Descriptor)
        requires
            old(self).wf(),
            old(self)@.len() + descriptor.slots().len() <= MAX,
        ensures
            final(self).wf(),
            final(self)@ == old(self)@ + descriptor.slots(),
    {
        match descriptor {
            Descriptor::UserSegment(value) => {
                self.table[self.len] = value;
                self.len = self.len + 1;
            },
            Descriptor::SystemSegment(value_low, value_high) => {
                self.table[self.len] = value_low;
                self.len = self.len + 1;
                self.table[self.len] = value_high;
                self.len = self.len + 1;
            },
        }
        assert(self@ =~= old(self)@ + descriptor.slots());
    }
    /// The descriptor-table register for this table when its storage starts
    /// at `address`: that address, and the occupied bytes less one.
    pub fn register(&self, address: u64) -> (r: DescriptorTableRegister)
        requires
            self.wf(),
        ensures
            r.address == address,
            r.size == self@.len() * ENTRY_SIZE - 1,
    {
        DescriptorTableRegister { address, size: (self.len * ENTRY_SIZE - 1) as u16 }
    }

    /// How many entries are occupied, the null descriptor included.
    pub fn len(&self) -> (r: usize)
        requires
            self.wf(),
        ensures
            r == self@.len(),
    {
        self.len
    }

    /// The occupied entry at `index`.
    pub fn entry(&self, index: usize) -> (r: u64)
        requires
            self.wf(),
            index < self@.len(),
        ensures
            r == self@[index as int],
    {
        self.table[index]
    }

    /// The whole storage of the table, unoccupied slots included; its address
    /// is the one that goes into the table register.
    pub fn entries(&self) -> (r: &[u64; MAX])
        requires
            self.wf(),
        ensures
            r@.subrange(0, self@.len() as int) == self@,
            forall|i: int| self@.len() <= i < MAX ==> r@[i] == 0,
    {
        &self.table
    }

    /// Entry 0 is the null descriptor, and the occupied entries fit the
    /// capacity: this holds of every well-formed table.
    pub proof fn lemma_null_entry(&self)
        requires
            self.wf(),
        ensures
            1 <= self@.len() <= MAX <= MAX_ENTRIES,
            self@[0] == 0,
    {
    }
}

/// Pushing three code or data segments `a`, `b`, `c` onto an empty table
/// gives four entries: the null descriptor, then `a`, `b` and `c` in push order.
pub proof fn lemma_append_order(a: u64, b: u64, c: u64)
    ensures
        ({
            let t = seq![0u64] + Descriptor::UserSegment(a).slots() + Descriptor::UserSegment(
                b,
            ).slots() + Descriptor::UserSegment(c).slots();
            &&& t.len() == 4
            &&& t[0] == 0 && t[1] == a && t[2] == b && t[3] == c
        }),
{
}

/// Pushing a system segment onto `n` entries keeps them, writes its low
/// quadword at index `n` and its high quadword at `n + 1`, and adds two entries.
pub proof fn lemma_system_segment_append(entries: Seq<u64>, low: u64, high: u64)
    ensures
        ({
            let t = entries + Descriptor::SystemSegment(low, high).slots();
            &&& t.len() == entries.len() + 2
            &&& t.subrange(0, entries.len() as int) == entries
            &&& t[entries.len() as int] == low
            &&& t[entries.len() + 1int] == high
        }),
{
    let t = entries + Descriptor::SystemSegment(low, high).slots();
    assert(t.subrange(0, entries.len() as int) =~= entries);
}

} // verus!
