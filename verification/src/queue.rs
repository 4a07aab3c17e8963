//! The split-virtqueue engine: the 16-byte descriptor record, the
//! (base, length) descriptor-table view, the bounded descriptor-chain walk,
//! the available-ring consumer and the used-ring producer.
//!
//! Everything read from the rings lives in memory shared with the guest, so
//! the contracts below never pin down a value that came out of a ring; they
//! pin down how the cursors move, when an access can fail, and that no walk
//! is unbounded.

use vstd::prelude::*;

use crate::mem::{
    check_span, mem_spans, read_u16, read_u32, read_u64, release_fence, write_u16, write_u32,
    load_u16_relaxed, store_u16_relaxed,
};
use crate::{VIRTQ_DESC_F_INDIRECT, VIRTQ_DESC_F_NEXT, VIRTQ_DESC_F_WRITE};
use vm_memory::GuestMemoryMmap;

verus! {

/// Size in bytes of one descriptor record in guest memory.
pub const VIRTQ_DESCRIPTOR_SIZE: u64 = 16;

/// Virtio queue related errors.
#[derive(Clone, Copy, Debug, PartialEq, Eq, Structural)]
pub enum Error {
    /// Failed to access guest memory.
    GuestMemory,
    /// Invalid indirect descriptor.
    InvalidIndirectDescriptor,
    /// Invalid descriptor chain.
    InvalidChain,
    /// Address computation overflowed.
    Overflow,
}

/// A virtio split-queue descriptor: a guest buffer plus the link to the next
/// descriptor of the chain.
#[derive(Clone, Copy, Debug, PartialEq, Eq, Structural)]
pub struct Descriptor {
    /// Guest physical address of the buffer.
    pub addr: u64,
    /// Length of the buffer.
    pub len: u32,
    /// Flag bits: next, write and indirect.
    pub flags: u16,
    /// Index of the next descriptor when the next flag is set.
    pub next: u16,
}

impl Descriptor {
    /// Whether the descriptor names an indirect table.
    pub open spec fn spec_is_indirect(self) -> bool {
        self.flags & VIRTQ_DESC_F_INDIRECT != 0
    }

    /// Whether the descriptor links to a following descriptor.
    pub open spec fn spec_has_next(self) -> bool {
        self.flags & VIRTQ_DESC_F_NEXT != 0
    }

    /// Whether the device may write to the buffer.
    pub open spec fn spec_is_write_only(self) -> bool {
        self.flags & VIRTQ_DESC_F_WRITE != 0
    }

    /// Build a descriptor from its four wire fields.
    pub fn new(addr: u64, len: u32, flags: u16, next: u16) -> (r: Descriptor)
        ensures
            r == (Descriptor { addr, len, flags, next }),
    {
        Descriptor { addr, len, flags, next }
    }

    /// Return the guest physical address of the descriptor buffer.
    pub fn addr(&self) -> (r: u64)
        ensures
            r == self.addr,
    {
        self.addr
    }

    /// Return the length of the descriptor buffer.
    pub fn len(&self) -> (r: u32)
        ensures
            r == self.len,
    {
        self.len
    }

    /// Return the flags for this descriptor, including next, write and
    /// indirect bits.
    pub fn flags(&self) -> (r: u16)
        ensures
            r == self.flags,
    {
        self.flags
    }

    /// Check whether this descriptor refers to an indirect table.
    pub fn is_indirect(&self) -> (r: bool)
        ensures
            r == self.spec_is_indirect(),
    {
        self.flags & VIRTQ_DESC_F_INDIRECT != 0
    }

    /// Return the index of the next descriptor in the chain, meaningful only
    /// when the next flag is set.
    pub fn next(&self) -> (r: u16)
        ensures
            r == self.next,
    {
        self.next
    }

    /// Check whether the descriptor carries the next flag, linking it to a
    /// following descriptor of the chain.
    pub fn has_next(&self) -> (r: bool)
        ensures
            r == self.spec_has_next(),
    {
        self.flags & VIRTQ_DESC_F_NEXT != 0
    }

    /// Check whether the driver designated this as a write only descriptor.
    ///
    /// If this is false, the descriptor is read only: written by the driver
    /// and read by the device.
    pub fn is_write_only(&self) -> (r: bool)
        ensures
            r == self.spec_is_write_only(),
    {
        self.flags & VIRTQ_DESC_F_WRITE != 0
    }
}

/// A (base address, entry count) view of a descriptor table in guest memory.
#[derive(Clone, Copy, Debug, PartialEq, Eq, Structural)]
pub struct DescriptorTable {
    /// Guest physical address of the first entry.
    pub addr: u64,
    /// Number of 16-byte entries.
    pub len: u16,
}

/// Whether the four field reads of the descriptor record at `addr` can all
/// succeed.
pub open spec fn desc_slot_readable(m: GuestMemoryMmap, addr: int) -> bool {
    &&& mem_spans(m, addr, 8)
    &&& mem_spans(m, addr + 8, 4)
    &&& mem_spans(m, addr + 12, 2)
    &&& mem_spans(m, addr + 14, 2)
}

impl DescriptorTable {
    /// The guest address of entry `index`.
    pub open spec fn spec_entry_addr(self, index: u16) -> int {
        self.addr + index * VIRTQ_DESCRIPTOR_SIZE
    }

    /// Build a table view from a base address and an entry count.
    pub fn new(addr: u64, len: u16) -> (r: DescriptorTable)
        ensures
            r == (DescriptorTable { addr, len }),
    {
        DescriptorTable { addr, len }
    }

    /// Promote a descriptor carrying the indirect flag to the nested table it
    /// names.  The table must be 16-byte aligned, a whole number of entries,
    /// at least one entry long, and at most `u16::MAX` entries.
    pub fn new_indirect(desc: &Descriptor) -> (r: Result<DescriptorTable, Error>)
        ensures
            ({
                let ok = desc.addr % 16 == 0 && desc.len % 16 == 0 && desc.len >= 16
                    && desc.len / 16 <= u16::MAX;
                match r {
                    Ok(t) => ok && t.addr == desc.addr && t.len == desc.len / 16 && t.len >= 1,
                    Err(e) => !ok && e == Error::InvalidIndirectDescriptor,
                }
            }),
    {
        let table_len = desc.len / (VIRTQ_DESCRIPTOR_SIZE as u32);
        if desc.addr % 16 != 0 || desc.len % 16 != 0 || desc.len < 16 || table_len > u16::MAX as u32
        {
            return Err(Error::InvalidIndirectDescriptor);
        }
        Ok(DescriptorTable { addr: desc.addr, len: table_len as u16 })
    }

    /// Read entry `index` of the table from guest memory, field by field.
    ///
    /// The value that comes back is whatever the guest put there; the contract
    /// classifies only how the read can fail.
    pub fn read_descriptor(&self, mem: &GuestMemoryMmap, index: u16) -> (r: Result<
        Descriptor,
        Error,
    >)
        ensures
            r == Err::<Descriptor, Error>(Error::InvalidChain) <==> index >= self.len,
            index < self.len ==> (r == Err::<Descriptor, Error>(Error::Overflow) <==> self
                .spec_entry_addr(index) > u64::MAX),
            r is Ok <==> index < self.len && self.spec_entry_addr(index) + 16 <= u64::MAX + 1
                && desc_slot_readable(*mem, self.spec_entry_addr(index)),
    {
        if index >= self.len {
            return Err(Error::InvalidChain);
        }
        let offset = (index as u64) * VIRTQ_DESCRIPTOR_SIZE;
        let desc_addr = match self.addr.checked_add(offset) {
            Some(a) => a,
            None => {
                return Err(Error::Overflow);
            },
        };
        if desc_addr > u64::MAX - 15 {
            return Err(Error::GuestMemory);
        }
        let addr = match read_u64(mem, desc_addr) {
            Some(v) => v,
            None => {
                return Err(Error::GuestMemory);
            },
        };
        let len = match read_u32(mem, desc_addr + 8) {
            Some(v) => v,
            None => {
                return Err(Error::GuestMemory);
            },
        };
        let flags = match read_u16(mem, desc_addr + 12) {
            Some(v) => v,
            None => {
                return Err(Error::GuestMemory);
            },
        };
        let next = match read_u16(mem, desc_addr + 14) {
            Some(v) => v,
            None => {
                return Err(Error::GuestMemory);
            },
        };
        Ok(Descriptor { addr, len, flags, next })
    }
}

/// A lazy walk over a chain of descriptors, following the `next` link from a
/// head index, entering an indirect table only at the head, and bounded by a
/// time-to-live that never exceeds the active table length.
#[derive(Clone, Copy, Debug)]
pub struct DescriptorChain {
    /// The active table: the queue's own table, or the indirect one after a
    /// promotion.
    pub desc_table: DescriptorTable,
    /// Upper bound on the descriptors still to be yielded; walking stops when
    /// it reaches zero, which makes cycles harmless.
    pub ttl: u16,
    /// The current descriptor.
    pub desc: Descriptor,
    /// Whether the walk has entered an indirect table.
    pub indirect: bool,
    /// The index of the chain's head in the queue's own table, the value that
    /// is later published to the used ring.
    pub head_index: u16,
}

impl DescriptorChain {
    /// The walk never holds more credit than the active table has entries.
    pub open spec fn wf(self) -> bool {
        self.ttl <= self.desc_table.len
    }

    /// Whether the walk continues past the current descriptor.
    pub open spec fn spec_has_next(self) -> bool {
        self.desc.spec_has_next() && self.ttl > 1
    }

    /// Follow a `next` link to entry `index` of the active table.  The walk
    /// enters an indirect table only at the chain head, so a linked
    /// descriptor that carries the indirect flag is malformed here.
    fn read_new(
        mem: &GuestMemoryMmap,
        table: DescriptorTable,
        ttl: u16,
        index: u16,
        indirect: bool,
        head_index: u16,
    ) -> (r: Result<DescriptorChain, Error>)
        requires
            ttl <= table.len,
        ensures
            index >= table.len <==> r == Err::<DescriptorChain, Error>(Error::InvalidChain),
            match r {
                Ok(c) => {
                    &&& c == (DescriptorChain {
                        desc_table: table,
                        ttl,
                        desc: c.desc,
                        indirect,
                        head_index,
                    })
                    &&& c.wf()
                    &&& index < table.len
                    &&& !c.desc.spec_is_indirect()
                },
                Err(e) => index < table.len ==> e == Error::Overflow || e == Error::GuestMemory
                    || e == Error::InvalidIndirectDescriptor,
            },
    {
        if index >= table.len {
            return Err(Error::InvalidChain);
        }
        let desc = match table.read_descriptor(mem, index) {
            Ok(d) => d,
            Err(e) => {
                return Err(e);
            },
        };
        if desc.is_indirect() {
            // One level of indirection only, entered at the chain head: a
            // linked descriptor naming another table is a malformed chain.
            return Err(Error::InvalidIndirectDescriptor);
        }
        Ok(DescriptorChain { desc_table: table, ttl, desc, indirect, head_index })
    }

    /// Build a chain over `table` starting at `index`, reading the head
    /// descriptor and entering an indirect table when the head names one.
    pub fn checked_new(mem: &GuestMemoryMmap, table: DescriptorTable, index: u16) -> (r: Result<
        DescriptorChain,
        Error,
    >)
        ensures
            index >= table.len ==> r == Err::<DescriptorChain, Error>(Error::InvalidChain),
            match r {
                Ok(c) => {
                    &&& c.wf()
                    &&& c.head_index == index
                    &&& index < table.len
                    &&& !c.indirect ==> c.desc_table == table && c.ttl == table.len
                    &&& c.indirect ==> c.ttl == c.desc_table.len
                },
                Err(e) => index < table.len ==> e == Error::Overflow || e == Error::GuestMemory
                    || e == Error::InvalidIndirectDescriptor,
            },
    {
        if index >= table.len {
            return Err(Error::InvalidChain);
        }
        let head = match table.read_descriptor(mem, index) {
            Ok(d) => d,
            Err(e) => {
                return Err(e);
            },
        };
        if head.is_indirect() {
            let ind_table = match DescriptorTable::new_indirect(&head) {
                Ok(t) => t,
                Err(e) => {
                    return Err(e);
                },
            };
            let first = match ind_table.read_descriptor(mem, 0) {
                Ok(d) => d,
                Err(e) => {
                    return Err(e);
                },
            };
            Ok(
                DescriptorChain {
                    desc_table: ind_table,
                    ttl: ind_table.len,
                    desc: first,
                    indirect: true,
                    head_index: index,
                },
            )
        } else {
            Ok(
                DescriptorChain {
                    desc_table: table,
                    ttl: table.len,
                    desc: head,
                    indirect: false,
                    head_index: index,
                },
            )
        }
    }

    /// Check whether the chain continues past the current descriptor.
    pub fn has_next(&self) -> (r: bool)
        ensures
            r == self.spec_has_next(),
    {
        self.desc.flags & VIRTQ_DESC_F_NEXT != 0 && self.ttl > 1
    }

    /// Check whether the walk is inside an indirect table.
    pub fn is_indirect(&self) -> (r: bool)
        ensures
            r == self.indirect,
    {
        self.indirect
    }

    /// The index of the chain's head in the queue's own table.
    pub fn head_index(&self) -> (r: u16)
        ensures
            r == self.head_index,
    {
        self.head_index
    }

    /// Yield the current descriptor and advance the walk.
    ///
    /// A yielded step follows the `next` link with one credit less, so the
    /// walk yields at most `ttl` descriptors: no cycle the guest writes
    /// makes it unbounded.  A descriptor without the next flag is yielded
    /// and ends the walk; a link that leaves the table or names another
    /// indirect table ends the walk without a yield.
    pub fn next(&mut self, mem: &GuestMemoryMmap) -> (r: Option<Descriptor>)
        requires
            old(self).wf(),
        ensures
            final(self).wf(),
            final(self).head_index == old(self).head_index,
            r is None ==> *final(self) == *old(self),
            r matches Some(d) ==> d == old(self).desc && old(self).ttl > 0,
            r is Some ==> final(self).ttl < old(self).ttl,
            old(self).ttl == 0 ==> r is None,
            old(self).ttl > 0 && !old(self).spec_has_next() ==> r == Some(old(self).desc)
                && *final(self) == (DescriptorChain { ttl: 0u16, ..*old(self) }),
            old(self).spec_has_next() && old(self).desc.next >= old(self).desc_table.len ==> r
                is None,
            r is Some && old(self).spec_has_next() ==> final(self).ttl == old(self).ttl - 1
                && final(self).desc_table == old(self).desc_table && final(self).indirect == old(
                self,
            ).indirect,
    {
        if self.ttl == 0 {
            return None;
        }
        let curr = self.desc;
        if self.has_next() {
            match Self::read_new(
                mem,
                self.desc_table,
                self.ttl - 1,
                curr.next,
                self.indirect,
                self.head_index,
            ) {
                Ok(c) => {
                    *self = c;
                },
                Err(_) => {
                    return None;
                },
            }
        } else {
            self.ttl = 0;
        }
        Some(curr)
    }

    /// Collect the descriptors the walk still yields, in walk order: one
    /// pass over the chain, no second read of the table beyond the walk
    /// itself, and never more descriptors than the walk has credit for.
    pub fn collect(self, mem: &GuestMemoryMmap) -> (r: Vec<Descriptor>)
        requires
            self.wf(),
        ensures
            r@.len() <= self.ttl,
            self.ttl > 0 && !self.spec_has_next() ==> r@ == seq![self.desc],
    {
        let mut chain = self;
        let mut out: Vec<Descriptor> = Vec::new();
        loop
            invariant
                chain.wf(),
                out@.len() + chain.ttl <= self.ttl,
                self.ttl > 0 && !self.spec_has_next() ==> ((out@ == Seq::<Descriptor>::empty()
                    && chain == self) || (chain.ttl == 0 && out@ == seq![self.desc])),
            ensures
                out@.len() <= self.ttl,
                self.ttl > 0 && !self.spec_has_next() ==> out@ == seq![self.desc],
            decreases chain.ttl,
        {
            match chain.next(mem) {
                Some(d) => {
                    out.push(d);
                    proof {
                        if self.ttl > 0 && !self.spec_has_next() {
                            assert(out@ =~= seq![self.desc]);
                        }
                    }
                },
                None => {
                    break ;
                },
            }
        }
        out
    }

    /// The readable descriptors of the chain, in walk order: the single
    /// walk of `collect`, then the exact filter to those without the write
    /// flag, so no descriptor is read from guest memory a second time.
    pub fn readable(self, mem: &GuestMemoryMmap) -> (r: Vec<Descriptor>)
        requires
            self.wf(),
        ensures
            r@.len() <= self.ttl,
            forall|i: int| 0 <= i < r@.len() ==> !r@[i].spec_is_write_only(),
            self.ttl > 0 && !self.spec_has_next() ==> r@ == if !self.desc.spec_is_write_only() {
                seq![self.desc]
            } else {
                Seq::<Descriptor>::empty()
            },
    {
        let all = self.collect(mem);
        let r = filter_readable(&all);
        proof {
            if self.ttl > 0 && !self.spec_has_next() {
                assert(all@.drop_last() =~= Seq::<Descriptor>::empty());
                assert(spec_readable_of(Seq::<Descriptor>::empty())
                    == Seq::<Descriptor>::empty());
                if !self.desc.spec_is_write_only() {
                    assert(r@ =~= seq![self.desc]);
                } else {
                    assert(r@ =~= Seq::<Descriptor>::empty());
                }
            }
        }
        r
    }

    /// The writable descriptors of the chain, in walk order: the single
    /// walk of `collect`, then the exact filter to those with the write
    /// flag, so no descriptor is read from guest memory a second time.
    pub fn writable(self, mem: &GuestMemoryMmap) -> (r: Vec<Descriptor>)
        requires
            self.wf(),
        ensures
            r@.len() <= self.ttl,
            forall|i: int| 0 <= i < r@.len() ==> r@[i].spec_is_write_only(),
            self.ttl > 0 && !self.spec_has_next() ==> r@ == if self.desc.spec_is_write_only() {
                seq![self.desc]
            } else {
                Seq::<Descriptor>::empty()
            },
    {
        let all = self.collect(mem);
        let r = filter_writable(&all);
        proof {
            if self.ttl > 0 && !self.spec_has_next() {
                assert(all@.drop_last() =~= Seq::<Descriptor>::empty());
                assert(spec_writable_of(Seq::<Descriptor>::empty())
                    == Seq::<Descriptor>::empty());
                if self.desc.spec_is_write_only() {
                    assert(r@ =~= seq![self.desc]);
                } else {
                    assert(r@ =~= Seq::<Descriptor>::empty());
                }
            }
        }
        r
    }
}

/// The subsequence of `s` without the write flag, in order.
pub open spec fn spec_readable_of(s: Seq<Descriptor>) -> Seq<Descriptor>
    decreases s.len(),
{
    if s.len() == 0 {
        Seq::empty()
    } else {
        let rest = spec_readable_of(s.drop_last());
        if !s.last().spec_is_write_only() {
            rest.push(s.last())
        } else {
            rest
        }
    }
}

/// The subsequence of `s` with the write flag, in order.
pub open spec fn spec_writable_of(s: Seq<Descriptor>) -> Seq<Descriptor>
    decreases s.len(),
{
    if s.len() == 0 {
        Seq::empty()
    } else {
        let rest = spec_writable_of(s.drop_last());
        if s.last().spec_is_write_only() {
            rest.push(s.last())
        } else {
            rest
        }
    }
}

/// Keep exactly the descriptors without the write flag, in order.
pub fn filter_readable(v: &Vec<Descriptor>) -> (r: Vec<Descriptor>)
    ensures
        r@ == spec_readable_of(v@),
        r@.len() <= v@.len(),
        forall|i: int| 0 <= i < r@.len() ==> !r@[i].spec_is_write_only(),
{
    let mut out: Vec<Descriptor> = Vec::new();
    let mut i: usize = 0;
    while i < v.len()
        invariant
            i <= v@.len(),
            out@ == spec_readable_of(v@.subrange(0, i as int)),
            out@.len() <= i,
            forall|j: int| 0 <= j < out@.len() ==> !out@[j].spec_is_write_only(),
        decreases v@.len() - i,
    {
        let d = v[i];
        proof {
            assert(v@.subrange(0, i as int + 1).drop_last() =~= v@.subrange(0, i as int));
        }
        if !d.is_write_only() {
            out.push(d);
        }
        i = i + 1;
    }
    proof {
        assert(v@.subrange(0, v@.len() as int) =~= v@);
    }
    out
}

/// Keep exactly the descriptors with the write flag, in order.
pub fn filter_writable(v: &Vec<Descriptor>) -> (r: Vec<Descriptor>)
    ensures
        r@ == spec_writable_of(v@),
        r@.len() <= v@.len(),
        forall|i: int| 0 <= i < r@.len() ==> r@[i].spec_is_write_only(),
{
    let mut out: Vec<Descriptor> = Vec::new();
    let mut i: usize = 0;
    while i < v.len()
        invariant
            i <= v@.len(),
            out@ == spec_writable_of(v@.subrange(0, i as int)),
            out@.len() <= i,
            forall|j: int| 0 <= j < out@.len() ==> out@[j].spec_is_write_only(),
        decreases v@.len() - i,
    {
        let d = v[i];
        proof {
            assert(v@.subrange(0, i as int + 1).drop_last() =~= v@.subrange(0, i as int));
        }
        if d.is_write_only() {
            out.push(d);
        }
        i = i + 1;
    }
    proof {
        assert(v@.subrange(0, v@.len() as int) =~= v@);
    }
    out
}

/// Consuming iterator over the descriptor-chain heads the driver has made
/// available.  It advances its own cursor on every head it reads, and the
/// queue's persistent `next_avail` cursor only when a chain was actually
/// built, so a malformed head is consumed without being handed out.
#[derive(Clone, Copy, Debug)]
pub struct AvailIter {
    /// Guest physical address of the queue's descriptor table.
    pub desc_table: u64,
    /// Guest physical address of the available ring.
    pub avail_ring: u64,
    /// The next available-ring slot to read; wraps at 2^16.
    pub next_index: u16,
    /// Snapshot of the guest's `avail.idx` taken when the iterator was built;
    /// iteration stops when `next_index` catches up with it.
    pub last_index: u16,
    /// The negotiated queue size.
    pub queue_size: u16,
}

impl AvailIter {
    /// How many heads the iterator will still try to read, in wrapping
    /// sixteen-bit distance.
    pub open spec fn spec_remaining(self) -> int {
        self.last_index.wrapping_sub(self.next_index) as int
    }

    /// The guest address of the available-ring slot the iterator reads
    /// next; meaningful only for a nonzero queue size.
    pub open spec fn spec_slot_addr(self) -> int {
        self.avail_ring + 4 + (self.next_index as int % self.queue_size as int) * 2
    }

    /// Construct an iterator that yields nothing.
    pub fn new() -> (r: AvailIter)
        ensures
            r.next_index == r.last_index,
    {
        AvailIter { desc_table: 0, avail_ring: 0, next_index: 0, last_index: 0, queue_size: 0 }
    }

    /// Read the head index in the next available-ring slot and try to build
    /// its descriptor chain.
    ///
    /// `next_avail` is the queue's persistent cursor; it moves forward exactly
    /// when a chain is yielded.
    pub fn next(&mut self, mem: &GuestMemoryMmap, next_avail: &mut u16) -> (r: Option<
        DescriptorChain,
    >)
        ensures
            final(self).desc_table == old(self).desc_table,
            final(self).avail_ring == old(self).avail_ring,
            final(self).queue_size == old(self).queue_size,
            final(self).last_index == old(self).last_index,
            old(self).next_index == old(self).last_index ==> r is None && *final(self) == *old(
                self,
            ) && *final(next_avail) == *old(next_avail),
            r is None ==> *final(next_avail) == *old(next_avail),
            r is None ==> final(self).next_index == old(self).next_index || final(self).next_index
                == old(self).next_index.wrapping_add(1),
            r matches Some(c) ==> {
                &&& old(self).next_index != old(self).last_index
                &&& final(self).next_index == old(self).next_index.wrapping_add(1)
                &&& *final(next_avail) == old(next_avail).wrapping_add(1)
                &&& c.wf()
                &&& c.head_index < old(self).queue_size
            },
            r is Some ==> final(self).spec_remaining() < old(self).spec_remaining(),
            (old(self).next_index != old(self).last_index && old(self).queue_size > 0 && old(
                self,
            ).spec_slot_addr() <= u64::MAX && mem_spans(*mem, old(self).spec_slot_addr(), 2))
                ==> final(self).next_index == old(self).next_index.wrapping_add(1),
    {
        if self.next_index == self.last_index {
            return None;
        }
        if self.queue_size == 0 {
            return None;
        }
        let offset: u64 = 4 + ((self.next_index % self.queue_size) as u64) * 2;
        let slot_addr = match self.avail_ring.checked_add(offset) {
            Some(a) => a,
            None => {
                return None;
            },
        };
        let head = match read_u16(mem, slot_addr) {
            Some(h) => h,
            None => {
                return None;
            },
        };
        self.next_index = self.next_index.wrapping_add(1);
        match DescriptorChain::checked_new(
            mem,
            DescriptorTable::new(self.desc_table, self.queue_size),
            head,
        ) {
            Ok(c) => {
                *next_avail = next_avail.wrapping_add(1);
                Some(c)
            },
            Err(_) => None,
        }
    }
}

/// Whether the driver must be notified, under the event-index feature: true
/// exactly when the move of `used.idx` from `old_idx` to `used_idx` crossed
/// the driver's `used_event` threshold, in wrapping sixteen-bit arithmetic.
pub open spec fn spec_needs_notification(used_idx: u16, old_idx: u16, used_event: u16) -> bool {
    used_idx.wrapping_sub(used_event).wrapping_sub(1) < used_idx.wrapping_sub(old_idx)
}

/// A split virtqueue: ring addresses, negotiated size, readiness, the two
/// device cursors and the event-index notification state.
#[derive(Clone, Copy, Debug)]
pub struct Queue {
    /// The maximal queue size in elements the device offers.
    pub max_size: u16,
    /// The next head index the device will consume; monotonic modulo 2^16.
    pub next_avail: u16,
    /// The next used-ring slot the device will write; monotonic modulo 2^16.
    pub next_used: u16,
    /// Whether the event-index feature was negotiated.
    pub event_idx: bool,
    /// The `used.idx` value at which the device last raised an interrupt.
    pub signalled_used: Option<u16>,
    /// The queue size in elements the driver selected.
    pub size: u16,
    /// Whether the driver has finished configuring the queue.
    pub ready: bool,
    /// Guest physical address of the descriptor table.
    pub desc_table: u64,
    /// Guest physical address of the available ring.
    pub avail_ring: u64,
    /// Guest physical address of the used ring.
    pub used_ring: u64,
}

impl Queue {
    /// The size the device actually uses: the driver's choice, clamped to
    /// what the device offers.
    pub open spec fn spec_actual_size(self) -> u16 {
        if self.size <= self.max_size {
            self.size
        } else {
            self.max_size
        }
    }

    /// The whole validity condition that `is_valid` decides: the queue is
    /// ready, its size is a nonzero power of two within the device's maximum,
    /// each ring's whole byte extent lies within mapped guest memory, and
    /// each ring base keeps its required alignment.
    pub open spec fn valid(self, m: GuestMemoryMmap) -> bool {
        let qs = self.spec_actual_size() as int;
        &&& self.ready
        &&& self.size <= self.max_size
        &&& self.size > 0
        &&& self.size & (self.size - 1) as u16 == 0
        &&& mem_spans(m, self.desc_table as int, 16 * qs)
        &&& mem_spans(m, self.avail_ring as int, 6 + 2 * qs)
        &&& mem_spans(m, self.used_ring as int, 6 + 8 * qs)
        &&& self.desc_table % 16 == 0
        &&& self.avail_ring % 2 == 0
        &&& self.used_ring % 4 == 0
    }

    /// Every subrange of each of the three ring extents is mapped: what a
    /// true `is_valid` hands its caller beyond `valid` itself, since the
    /// per-byte coverage behind `mem_spans` closes under subranges.
    pub open spec fn spec_ring_subspans(self, m: GuestMemoryMmap) -> bool {
        let qs = self.spec_actual_size() as int;
        &&& self.desc_table + 16 * qs <= u64::MAX + 1
        &&& self.avail_ring + 6 + 2 * qs <= u64::MAX + 1
        &&& self.used_ring + 6 + 8 * qs <= u64::MAX + 1
        &&& forall|a: int, l: int|
            self.desc_table <= a && 0 <= l && a + l <= self.desc_table + 16 * qs
                ==> #[trigger] mem_spans(m, a, l)
        &&& forall|a: int, l: int|
            self.avail_ring <= a && 0 <= l && a + l <= self.avail_ring + 6 + 2 * qs
                ==> #[trigger] mem_spans(m, a, l)
        &&& forall|a: int, l: int|
            self.used_ring <= a && 0 <= l && a + l <= self.used_ring + 6 + 8 * qs
                ==> #[trigger] mem_spans(m, a, l)
    }

    /// Whether the used-ring writes of `add_used` can all succeed: the slot
    /// for the element and the `used.idx` field are mapped, with no address
    /// overflow.
    pub open spec fn spec_add_used_span_ok(self, m: GuestMemoryMmap) -> bool {
        let qs = self.spec_actual_size() as int;
        let slot = self.used_ring + 4 + (self.next_used as int % qs) * 8;
        &&& qs > 0
        &&& slot + 8 <= u64::MAX
        &&& mem_spans(m, slot, 4)
        &&& mem_spans(m, slot + 4, 4)
        &&& self.used_ring + 4 <= u64::MAX
        &&& mem_spans(m, self.used_ring + 2, 2)
    }

    /// Construct a queue for a device that offers `max_size` elements: not
    /// ready, all addresses and cursors zero, sized at the maximum.
    pub fn new(max_size: u16) -> (q: Queue)
        ensures
            q == (Queue {
                max_size,
                next_avail: 0u16,
                next_used: 0u16,
                event_idx: false,
                signalled_used: None::<u16>,
                size: max_size,
                ready: false,
                desc_table: 0u64,
                avail_ring: 0u64,
                used_ring: 0u64,
            }),
    {
        Queue {
            max_size,
            next_avail: 0,
            next_used: 0,
            event_idx: false,
            signalled_used: None,
            size: max_size,
            ready: false,
            desc_table: 0,
            avail_ring: 0,
            used_ring: 0,
        }
    }

    /// The maximal queue size the device offers.
    pub fn max_size(&self) -> (r: u16)
        ensures
            r == self.max_size,
    {
        self.max_size
    }

    /// The size actually in use, as the driver may set up a smaller queue
    /// than the device allows.
    pub fn actual_size(&self) -> (r: u16)
        ensures
            r == self.spec_actual_size(),
    {
        if self.size <= self.max_size {
            self.size
        } else {
            self.max_size
        }
    }

    /// Reset the queue for a device reset: not ready, size restored to the
    /// maximum, both cursors and the signalled mark cleared; the ring
    /// addresses stay, the driver rewrites them.
    pub fn reset(&mut self)
        ensures
            *final(self) == (Queue {
                size: old(self).max_size,
                ready: false,
                next_avail: 0u16,
                next_used: 0u16,
                signalled_used: None::<u16>,
                ..*old(self)
            }),
    {
        self.ready = false;
        self.size = self.max_size;
        self.next_avail = 0;
        self.next_used = 0;
        self.signalled_used = None;
    }

    /// Enable or disable the event-index feature, forgetting the last
    /// signalled mark either way.
    pub fn set_event_idx(&mut self, enabled: bool)
        ensures
            *final(self) == (Queue {
                event_idx: enabled,
                signalled_used: None::<u16>,
                ..*old(self)
            }),
    {
        self.signalled_used = None;
        self.event_idx = enabled;
    }

    /// Decide whether the queue configuration is usable, as `valid` states.
    pub fn is_valid(&self, mem: &GuestMemoryMmap) -> (r: bool)
        ensures
            r == self.valid(*mem),
            r ==> self.spec_ring_subspans(*mem),
    {
        let qs = self.actual_size() as usize;
        if !self.ready {
            return false;
        }
        if self.size > self.max_size || self.size == 0 || (self.size & (self.size - 1)) != 0 {
            return false;
        }
        check_span(mem, self.desc_table, 16 * qs) && check_span(mem, self.avail_ring, 6 + 2 * qs)
            && check_span(mem, self.used_ring, 6 + 8 * qs) && self.desc_table % 16 == 0
            && self.avail_ring % 2 == 0 && self.used_ring % 4 == 0
    }

    /// Take a snapshot of the guest's `avail.idx` and return an iterator over
    /// the available heads from the persistent cursor up to that snapshot.
    /// When the index cannot be read, the iterator is empty.
    pub fn iter(&self, mem: &GuestMemoryMmap) -> (r: AvailIter)
        ensures
            r.next_index == r.last_index || (r.desc_table == self.desc_table && r.avail_ring
                == self.avail_ring && r.queue_size == self.spec_actual_size() && r.next_index
                == self.next_avail),
            self.avail_ring + 2 <= u64::MAX && mem_spans(*mem, self.avail_ring + 2, 2) ==> (
            r.desc_table == self.desc_table && r.avail_ring == self.avail_ring && r.queue_size
                == self.spec_actual_size() && r.next_index == self.next_avail),
    {
        let index_addr = match self.avail_ring.checked_add(2) {
            Some(a) => a,
            None => {
                return AvailIter::new();
            },
        };
        let last_index = match read_u16(mem, index_addr) {
            Some(v) => v,
            None => {
                return AvailIter::new();
            },
        };
        AvailIter {
            desc_table: self.desc_table,
            avail_ring: self.avail_ring,
            next_index: self.next_avail,
            last_index,
            queue_size: self.actual_size(),
        }
    }

    /// Publish a completed chain head to the used ring: write the element,
    /// fence, then expose it through `used.idx`.
    ///
    /// Returns the new `used.idx` value, or nothing when the head index is
    /// out of bounds or a guest-memory write failed; in both failure cases
    /// the queue is left unchanged.
    pub fn add_used(&mut self, mem: &GuestMemoryMmap, desc_index: u16, len: u32) -> (r: Option<
        u16,
    >)
        ensures
            desc_index >= old(self).spec_actual_size() ==> r is None,
            r is None ==> *final(self) == *old(self),
            r matches Some(idx) ==> {
                &&& desc_index < old(self).spec_actual_size()
                &&& idx == old(self).next_used.wrapping_add(1)
                &&& *final(self) == (Queue { next_used: idx, ..*old(self) })
            },
            desc_index < old(self).spec_actual_size() && old(self).spec_add_used_span_ok(*mem)
                ==> r is Some,
    {
        if desc_index >= self.actual_size() {
            return None;
        }
        let slot: u64 = (self.next_used % self.actual_size()) as u64;
        let used_elem = match self.used_ring.checked_add(4 + slot * 8) {
            Some(a) => a,
            None => {
                return None;
            },
        };
        if used_elem > u64::MAX - 8 {
            return None;
        }
        if !write_u32(mem, used_elem, desc_index as u32) {
            return None;
        }
        if !write_u32(mem, used_elem + 4, len) {
            return None;
        }
        let next_used = self.next_used.wrapping_add(1);

        // Make the element writes visible before the index update is.
        release_fence();

        let idx_addr = match self.used_ring.checked_add(2) {
            Some(a) => a,
            None => {
                return None;
            },
        };
        if !write_u16(mem, idx_addr, next_used) {
            return None;
        }
        self.next_used = next_used;
        Some(next_used)
    }

    /// Copy the guest's current `avail.idx` into the used ring's trailing
    /// `avail_event` field, hinting the driver where the device is reading.
    ///
    /// Returns whether the hint was stored; a failure to reach either shared
    /// field is reported but otherwise ignored, the field being only a hint.
    /// A stored hint pins both addresses: the index was read at
    /// `avail_ring + 2` and the hint written at `used_ring + 4 + 8 * size`.
    pub fn update_avail_event(&self, mem: &GuestMemoryMmap) -> (stored: bool)
        ensures
            stored ==> {
                &&& self.avail_ring + 2 <= u64::MAX
                &&& mem_spans(*mem, self.avail_ring + 2, 2)
                &&& self.used_ring + 4 + 8 * self.spec_actual_size() <= u64::MAX
                &&& mem_spans(*mem, self.used_ring + 4 + 8 * self.spec_actual_size(), 2)
            },
    {
        let index_addr = match self.avail_ring.checked_add(2) {
            Some(a) => a,
            None => {
                return false;
            },
        };
        let index = match load_u16_relaxed(mem, index_addr) {
            Some(v) => v,
            None => {
                return false;
            },
        };
        let offset: u64 = 4 + (self.actual_size() as u64) * 8;
        let avail_event_addr = match self.used_ring.checked_add(offset) {
            Some(a) => a,
            None => {
                return false;
            },
        };
        store_u16_relaxed(mem, avail_event_addr, index)
    }

    /// Read the driver's `used_event` threshold from the trailing field of
    /// the available ring; a value only ever comes from the field at
    /// `avail_ring + 4 + 2 * size`.
    fn get_used_event(&self, mem: &GuestMemoryMmap) -> (r: Option<u16>)
        ensures
            r is Some ==> self.avail_ring + 4 + 2 * self.spec_actual_size() <= u64::MAX
                && mem_spans(*mem, self.avail_ring + 4 + 2 * self.spec_actual_size(), 2),
    {
        let offset: u64 = 4 + (self.actual_size() as u64) * 2;
        let used_event_addr = match self.avail_ring.checked_add(offset) {
            Some(a) => a,
            None => {
                return None;
            },
        };
        load_u16_relaxed(mem, used_event_addr)
    }

    /// Decide whether the driver must be notified after `used.idx` moved to
    /// `used_idx`.
    ///
    /// Without the event-index feature the answer is always yes.  With it,
    /// the first publication notifies, an unreadable `used_event` notifies,
    /// and otherwise the crossing test of `spec_needs_notification` decides;
    /// a suppressed notification always has a threshold value that the move
    /// did not cross.
    pub fn needs_notification(&mut self, mem: &GuestMemoryMmap, used_idx: u16) -> (r: bool)
        ensures
            !old(self).event_idx ==> r && *final(self) == *old(self),
            old(self).event_idx ==> *final(self) == (Queue {
                signalled_used: Some(used_idx),
                ..*old(self)
            }),
            old(self).event_idx && old(self).signalled_used is None ==> r,
            !r ==> old(self).event_idx && (old(self).signalled_used matches Some(old_idx)
                && exists|used_event: u16| !spec_needs_notification(used_idx, old_idx, used_event)),
            !r ==> old(self).avail_ring + 4 + 2 * old(self).spec_actual_size() <= u64::MAX
                && mem_spans(
                *mem,
                old(self).avail_ring + 4 + 2 * old(self).spec_actual_size(),
                2,
            ),
    {
        if !self.event_idx {
            return true;
        }
        let old_mark = self.signalled_used;
        self.signalled_used = Some(used_idx);
        match old_mark {
            None => true,
            Some(old_idx) => {
                match self.get_used_event(mem) {
                    None => true,
                    Some(used_event) => {
                        let r = needs_notification_for(used_idx, old_idx, used_event);
                        proof {
                            if !r {
                                assert(!spec_needs_notification(used_idx, old_idx, used_event));
                            }
                        }
                        r
                    },
                }
            },
        }
    }

    /// Go back one position in the available ring: the only way to revert
    /// the effect of consuming a chain, so a postponed chain can be taken
    /// again later.
    pub fn go_to_previous_position(&mut self)
        ensures
            *final(self) == (Queue {
                next_avail: old(self).next_avail.wrapping_sub(1),
                ..*old(self)
            }),
    {
        self.next_avail = self.next_avail.wrapping_sub(1);
    }
}

/// Law: every queue configuration that `is_valid` accepts has a size that is
/// one of the sixteen powers of two in `(0, max_size]`, three ring extents
/// that lie entirely within mapped guest memory, and ring bases with their
/// required alignments.
pub proof fn law_valid_queue_shape(q: Queue, m: GuestMemoryMmap)
    requires
        q.valid(m),
    ensures
        0 < q.size <= q.max_size,
        q.spec_actual_size() == q.size,
        q.size == 1 || q.size == 2 || q.size == 4 || q.size == 8 || q.size == 16 || q.size == 32
            || q.size == 64 || q.size == 128 || q.size == 256 || q.size == 512 || q.size == 1024
            || q.size == 2048 || q.size == 4096 || q.size == 8192 || q.size == 16384 || q.size
            == 32768,
        q.desc_table % 16 == 0 && q.avail_ring % 2 == 0 && q.used_ring % 4 == 0,
        mem_spans(m, q.desc_table as int, 16 * q.size),
        mem_spans(m, q.avail_ring as int, 6 + 2 * q.size),
        mem_spans(m, q.used_ring as int, 6 + 8 * q.size),
{
    let s = q.size;
    assert(s == 1 || s == 2 || s == 4 || s == 8 || s == 16 || s == 32 || s == 64 || s == 128 || s
        == 256 || s == 512 || s == 1024 || s == 2048 || s == 4096 || s == 8192 || s == 16384 || s
        == 32768) by (bit_vector)
        requires
            s > 0,
            s & ((s - 1) as u16) == 0,
    ;
}

/// Law: a chain walk cannot cycle and yields at most the active table
/// length: `next` strictly lowers `ttl` with every yielded descriptor, the
/// indirect table is entered only at the head where `ttl` restarts at that
/// table's length, and `ttl` never exceeds the active table's entry count.
pub proof fn law_chain_walk_bounded(c: DescriptorChain)
    requires
        c.wf(),
    ensures
        0 <= c.ttl <= c.desc_table.len,
{
}

/// Law: the used-ring element that `add_used` publishes lands in the slot of
/// the pre-increment cursor, which is slot `(r - 1) mod size` for the value
/// `r` that `add_used` returns.
pub proof fn law_add_used_slot(next_used: u16, size: u16)
    requires
        size > 0,
    ensures
        (next_used.wrapping_add(1).wrapping_sub(1) as int) % (size as int) == (next_used as int) % (
        size as int),
{
}

/// Law: a queue that `is_valid` accepted can always publish: the used-ring
/// element slot of any cursor value and the `used.idx` field are subranges
/// of the used ring's mapped extent, so `add_used` is owed its success for
/// every in-bounds head index.
pub proof fn law_valid_queue_publishes(q: Queue, m: GuestMemoryMmap)
    requires
        q.spec_ring_subspans(m),
        q.spec_actual_size() > 0,
    ensures
        q.spec_add_used_span_ok(m),
{
    let qs = q.spec_actual_size() as int;
    assert(0 <= q.next_used as int % qs < qs);
    let slot = q.used_ring + 4 + (q.next_used as int % qs) * 8;
    assert(slot + 8 <= q.used_ring + 4 + 8 * qs);
    assert(mem_spans(m, slot, 4));
    assert(mem_spans(m, slot + 4, 4));
    assert(mem_spans(m, q.used_ring + 2, 2));
}

/// Law: going back one position exactly undoes one consumed head, so the
/// available-ring slot the next iteration reads is the slot of the chain most
/// recently consumed: `iter` seeds its cursor from `next_avail`, a successful
/// yield moves `next_avail` up by one, and `go_to_previous_position` moves it
/// back down by one.
pub proof fn law_previous_position_revisits(cursor: u16)
    ensures
        cursor.wrapping_add(1).wrapping_sub(1) == cursor,
{
}

/// The event-index crossing test on plain values: exactly
/// `spec_needs_notification`.
pub fn needs_notification_for(used_idx: u16, old_idx: u16, used_event: u16) -> (r: bool)
    ensures
        r == spec_needs_notification(used_idx, old_idx, used_event),
{
    used_idx.wrapping_sub(used_event).wrapping_sub(1) < used_idx.wrapping_sub(old_idx)
}

} // verus!
