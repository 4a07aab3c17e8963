//! The virtio-blk request parser and the block queue handler: a descriptor
//! chain is read as a sixteen-byte header, a run of data descriptors and a
//! final one-byte-or-more writable status descriptor, with the read or write
//! direction of every data descriptor checked against the command type.

use vstd::prelude::*;

use crate::mem::{checked_offset, mem_holds, mem_spans, write_u8};
use crate::queue::{Descriptor, DescriptorChain, Queue};
use vm_memory::GuestMemoryMmap;

verus! {

/// Command code of a read request.
pub const VIRTIO_BLK_T_IN: u32 = 0;
/// Command code of a write request.
pub const VIRTIO_BLK_T_OUT: u32 = 1;
/// Command code of a flush request.
pub const VIRTIO_BLK_T_FLUSH: u32 = 4;
/// Command code of a discard request.
pub const VIRTIO_BLK_T_DISCARD: u32 = 11;
/// Command code of a write-zeroes request.
pub const VIRTIO_BLK_T_WRITE_ZEROES: u32 = 13;

/// Status byte of a completed request.
pub const VIRTIO_BLK_S_OK: u8 = 0;
/// Status byte of a failed request.
pub const VIRTIO_BLK_S_IOERR: u8 = 1;
/// Status byte of an unsupported request.
pub const VIRTIO_BLK_S_UNSUP: u8 = 2;

/// Shift turning a sector count into a byte count.
pub const SECTOR_SHIFT: u8 = 9;
/// Size of one sector in bytes.
pub const SECTOR_SIZE: u64 = 512;

/// Virtio block related errors, each fatal for the request it was found in.
#[derive(Clone, Copy, Debug, PartialEq, Eq, Structural)]
pub enum Error {
    /// Guest gave us too few descriptors in a descriptor chain.
    DescriptorChainTooShort,
    /// Guest gave us a descriptor that was too short to use.
    DescriptorLengthTooSmall,
    /// Guest gave us bad memory addresses.
    GuestMemory,
    /// Guest gave us a read only descriptor that protocol says to write to.
    UnexpectedReadOnlyDescriptor,
    /// Guest gave us a write only descriptor that protocol says to read from.
    UnexpectedWriteOnlyDescriptor,
}

/// Type of request from driver to device.
#[derive(Clone, Copy, Debug, PartialEq, Eq, Structural)]
pub enum RequestType {
    /// Read request.
    In,
    /// Write request.
    Out,
    /// Flush request.
    Flush,
    /// Discard request.
    Discard,
    /// Write zeroes request.
    WriteZeroes,
    /// Unknown request, the wire value preserved.
    Unsupported(u32),
}

/// The classification of a wire command code.
pub open spec fn spec_request_type(value: u32) -> RequestType {
    if value == VIRTIO_BLK_T_IN {
        RequestType::In
    } else if value == VIRTIO_BLK_T_OUT {
        RequestType::Out
    } else if value == VIRTIO_BLK_T_FLUSH {
        RequestType::Flush
    } else if value == VIRTIO_BLK_T_DISCARD {
        RequestType::Discard
    } else if value == VIRTIO_BLK_T_WRITE_ZEROES {
        RequestType::WriteZeroes
    } else {
        RequestType::Unsupported(value)
    }
}

impl From<u32> for RequestType {
    fn from(value: u32) -> (r: RequestType) {
        if value == VIRTIO_BLK_T_IN {
            RequestType::In
        } else if value == VIRTIO_BLK_T_OUT {
            RequestType::Out
        } else if value == VIRTIO_BLK_T_FLUSH {
            RequestType::Flush
        } else if value == VIRTIO_BLK_T_DISCARD {
            RequestType::Discard
        } else if value == VIRTIO_BLK_T_WRITE_ZEROES {
            RequestType::WriteZeroes
        } else {
            RequestType::Unsupported(value)
        }
    }
}

impl vstd::std_specs::convert::FromSpecImpl<u32> for RequestType {
    open spec fn obeys_from_spec() -> bool {
        true
    }

    open spec fn from_spec(value: u32) -> RequestType {
        spec_request_type(value)
    }
}

/// The sixteen-byte header at the front of every block request.
#[derive(Clone, Copy, Debug)]
pub struct RequestHeader {
    /// The wire command code.
    pub request_type: u32,
    /// Reserved word between the code and the sector.
    pub _reserved: u32,
    /// The sector, in 512-byte units, where the transfer starts.
    pub sector: u64,
}

impl RequestHeader {
    /// Read a request header from guest memory at `addr`, field by field; the
    /// values are the guest's to choose, so the contract classifies only when
    /// the read succeeds.
    pub fn read_from(mem: &GuestMemoryMmap, addr: u64) -> (r: Option<RequestHeader>)
        ensures
            r is Some <==> addr + 16 <= u64::MAX + 1 && mem_spans(*mem, addr as int, 4)
                && mem_spans(*mem, addr + 4, 4) && mem_spans(*mem, addr + 8, 8),
    {
        if addr > u64::MAX - 15 {
            return None;
        }
        let request_type = match crate::mem::read_u32(mem, addr) {
            Some(v) => v,
            None => {
                return None;
            },
        };
        let reserved = match crate::mem::read_u32(mem, addr + 4) {
            Some(v) => v,
            None => {
                return None;
            },
        };
        let sector = match crate::mem::read_u64(mem, addr + 8) {
            Some(v) => v,
            None => {
                return None;
            },
        };
        Some(RequestHeader { request_type, _reserved: reserved, sector })
    }
}

/// The necessary information for executing a block request: the command, the
/// guest buffers it moves data through, and where its status byte goes.
pub struct Request {
    /// The type of the request.
    pub request_type: RequestType,
    /// The (address, data length) pairs the data descriptors point to.
    pub data_descriptors: Vec<(u64, u32)>,
    /// The offset (multiplied by 512) where the read or write is to occur.
    pub sector: u64,
    /// The address where the device should write the request status.
    pub status_addr: u64,
    /// The status descriptor the chain ended with.
    pub status_desc: Ghost<Descriptor>,
    /// The data descriptors as they stood in the chain.
    pub data_descs: Ghost<Seq<Descriptor>>,
}

impl Request {
    /// Every guarantee parsing established: the status descriptor is writable
    /// and at least one byte, its address is mapped four bytes deep, and each
    /// data descriptor is mapped and has the direction its command requires.
    pub open spec fn parsed_wf(self, m: GuestMemoryMmap) -> bool {
        &&& self.status_desc@.spec_is_write_only()
        &&& self.status_desc@.len >= 1
        &&& self.status_addr == self.status_desc@.addr
        &&& self.status_addr + 4 <= u64::MAX
        &&& mem_holds(m, self.status_addr + 4)
        &&& self.data_descriptors@.len() == self.data_descs@.len()
        &&& forall|i: int|
            0 <= i < self.data_descs@.len() ==> {
                let d = #[trigger] self.data_descs@[i];
                &&& self.data_descriptors@[i].0 == d.addr
                &&& self.data_descriptors@[i].1 == d.len
                &&& d.addr + d.len <= u64::MAX
                &&& mem_holds(m, d.addr + d.len)
                &&& self.request_type == RequestType::Out ==> !d.spec_is_write_only()
                &&& self.request_type == RequestType::In ==> d.spec_is_write_only()
            }
    }

    /// Returns the request type.
    pub fn request_type(&self) -> (r: RequestType)
        ensures
            r == self.request_type,
    {
        self.request_type
    }

    /// Returns the data descriptors' (address, length) pairs.
    pub fn data_descriptors(&self) -> (r: &Vec<(u64, u32)>)
        ensures
            r == &self.data_descriptors,
    {
        &self.data_descriptors
    }

    /// Returns the sector.
    pub fn sector(&self) -> (r: u64)
        ensures
            r == self.sector,
    {
        self.sector
    }

    /// Returns the status address.
    pub fn status_addr(&self) -> (r: u64)
        ensures
            r == self.status_addr,
    {
        self.status_addr
    }

    /// Parse a request from a descriptor chain: a readable header, then
    /// either a writable status descriptor alone (a flush), or data
    /// descriptors checked for direction and reach, ended by the status
    /// descriptor.
    pub fn parse(mem: &GuestMemoryMmap, desc_chain: &mut DescriptorChain) -> (r: Result<
        Request,
        Error,
    >)
        requires
            old(desc_chain).wf(),
        ensures
            final(desc_chain).wf(),
            r matches Ok(req) ==> req.parsed_wf(*mem),
            old(desc_chain).ttl == 0 ==> r == Err::<Request, Error>(
                Error::DescriptorChainTooShort,
            ),
            old(desc_chain).ttl > 0 && old(desc_chain).desc.spec_is_write_only() ==> r == Err::<
                Request,
                Error,
            >(Error::UnexpectedWriteOnlyDescriptor) || r == Err::<Request, Error>(
                Error::DescriptorChainTooShort,
            ),
            old(desc_chain).ttl > 0 && !old(desc_chain).spec_has_next() ==> r is Err,
    {
        let chain_head = match desc_chain.next(mem) {
            Some(d) => d,
            None => {
                return Err(Error::DescriptorChainTooShort);
            },
        };
        // The head contains the request type, which must be readable.
        if chain_head.is_write_only() {
            return Err(Error::UnexpectedWriteOnlyDescriptor);
        }
        let header = match RequestHeader::read_from(mem, chain_head.addr) {
            Some(h) => h,
            None => {
                return Err(Error::GuestMemory);
            },
        };
        let request_type = RequestType::from(header.request_type);
        let sector = header.sector;

        let mut data_descriptors: Vec<(u64, u32)> = Vec::new();
        let ghost mut data_descs: Seq<Descriptor> = Seq::empty();

        let mut desc = match desc_chain.next(mem) {
            Some(d) => d,
            None => {
                return Err(Error::DescriptorChainTooShort);
            },
        };
        let status_desc: Descriptor;
        if !desc.has_next() {
            status_desc = desc;
            // Only flush requests may skip the data descriptors.
            if !matches!(request_type, RequestType::Flush) {
                return Err(Error::DescriptorChainTooShort);
            }
        } else {
            loop
                invariant_except_break
                    desc.spec_has_next(),
                invariant
                    desc_chain.wf(),
                    old(desc_chain).ttl > 0,
                    !old(desc_chain).desc.spec_is_write_only(),
                    data_descriptors@.len() == data_descs.len(),
                    forall|i: int|
                        0 <= i < data_descs.len() ==> {
                            let d = #[trigger] data_descs[i];
                            &&& data_descriptors@[i].0 == d.addr
                            &&& data_descriptors@[i].1 == d.len
                            &&& d.addr + d.len <= u64::MAX
                            &&& mem_holds(*mem, d.addr + d.len)
                            &&& request_type == RequestType::Out ==> !d.spec_is_write_only()
                            &&& request_type == RequestType::In ==> d.spec_is_write_only()
                        },
                ensures
                    desc_chain.wf(),
                    !desc.spec_has_next(),
                    data_descriptors@.len() == data_descs.len(),
                    forall|i: int|
                        0 <= i < data_descs.len() ==> {
                            let d = #[trigger] data_descs[i];
                            &&& data_descriptors@[i].0 == d.addr
                            &&& data_descriptors@[i].1 == d.len
                            &&& d.addr + d.len <= u64::MAX
                            &&& mem_holds(*mem, d.addr + d.len)
                            &&& request_type == RequestType::Out ==> !d.spec_is_write_only()
                            &&& request_type == RequestType::In ==> d.spec_is_write_only()
                        },
                decreases desc_chain.ttl,
            {
                if desc.is_write_only() && matches!(request_type, RequestType::Out) {
                    return Err(Error::UnexpectedWriteOnlyDescriptor);
                }
                if !desc.is_write_only() && matches!(request_type, RequestType::In) {
                    return Err(Error::UnexpectedReadOnlyDescriptor);
                }
                // The descriptor's whole buffer must be reachable in guest
                // memory.
                if checked_offset(mem, desc.addr, desc.len as u64).is_none() {
                    return Err(Error::GuestMemory);
                }
                data_descriptors.push((desc.addr, desc.len));
                proof {
                    data_descs = data_descs.push(desc);
                }
                desc = match desc_chain.next(mem) {
                    Some(d) => d,
                    None => {
                        return Err(Error::DescriptorChainTooShort);
                    },
                };
                if !desc.has_next() {
                    break ;
                }
            }
            status_desc = desc;
        }
        // The status byte must always be writable and at least one byte long.
        if !status_desc.is_write_only() {
            return Err(Error::UnexpectedReadOnlyDescriptor);
        }
        if status_desc.len < 1 {
            return Err(Error::DescriptorLengthTooSmall);
        }
        // A 32-bit status is written there after the request runs.
        if checked_offset(mem, status_desc.addr, 4).is_none() {
            return Err(Error::GuestMemory);
        }
        Ok(
            Request {
                request_type,
                data_descriptors,
                sector,
                status_addr: status_desc.addr,
                status_desc: Ghost(status_desc),
                data_descs: Ghost(data_descs),
            },
        )
    }
}

/// The storage capabilities a block device personality hands to the queue
/// handler: sector-addressed reads and writes against guest buffers, a
/// flush, and the image's size and identifier.
pub trait BlockBackend {
    /// The number of 512-byte sectors of the image.
    fn num_sectors(&self) -> u64;

    /// An identifier for the image.
    fn image_id(&self) -> Vec<u8>;

    /// Read `len` bytes starting at `sector` into guest memory at `addr`;
    /// true on success.
    fn read_at(&mut self, mem: &GuestMemoryMmap, addr: u64, len: u32, sector: u64) -> bool;

    /// Write `len` bytes from guest memory at `addr` to the image starting at
    /// `sector`; true on success.
    fn write_at(&mut self, mem: &GuestMemoryMmap, addr: u64, len: u32, sector: u64) -> bool;

    /// Flush the image; true on success.
    fn flush(&mut self) -> bool;
}

/// The total byte length of the (address, length) pairs, as published to the
/// driver for a completed read request.
pub open spec fn spec_data_len(s: Seq<(u64, u32)>) -> int
    decreases s.len(),
{
    if s.len() == 0 {
        0
    } else {
        spec_data_len(s.drop_last()) + s.last().1
    }
}

/// Run one parsed request against the backend: a status byte classifying the
/// outcome, and the byte count the driver should see in the used element.
/// A command the backend has no capability for is answered as unsupported;
/// the count is the summed data length for a completed read and zero
/// otherwise, as only reads move bytes toward the driver.
pub fn execute<B: BlockBackend>(mem: &GuestMemoryMmap, backend: &mut B, req: &Request) -> (r: (
    u8,
    u32,
))
    ensures
        r.0 == VIRTIO_BLK_S_OK || r.0 == VIRTIO_BLK_S_IOERR || r.0 == VIRTIO_BLK_S_UNSUP,
        req.request_type matches RequestType::Unsupported(t) ==> r.0 == VIRTIO_BLK_S_UNSUP,
        req.request_type == RequestType::Discard ==> r.0 == VIRTIO_BLK_S_UNSUP,
        req.request_type == RequestType::WriteZeroes ==> r.0 == VIRTIO_BLK_S_UNSUP,
        (req.request_type == RequestType::In || req.request_type == RequestType::Out)
            && req.data_descriptors@.len() == 0 ==> r.0 == VIRTIO_BLK_S_OK,
        req.request_type == RequestType::In && r.0 == VIRTIO_BLK_S_OK ==> r.1 == spec_data_len(
            req.data_descriptors@,
        ),
        req.request_type != RequestType::In || r.0 != VIRTIO_BLK_S_OK ==> r.1 == 0,
{
    match req.request_type {
        RequestType::In | RequestType::Out => {
            let is_read = matches!(req.request_type, RequestType::In);
            let mut sector = req.sector;
            let mut total: u64 = 0;
            let n = req.data_descriptors.len();
            let mut i: usize = 0;
            while i < n
                invariant
                    n == req.data_descriptors@.len(),
                    i <= n,
                    req.request_type == RequestType::In || req.request_type == RequestType::Out,
                    is_read == (req.request_type == RequestType::In),
                    total == spec_data_len(req.data_descriptors@.subrange(0, i as int)),
                decreases n - i,
            {
                let (addr, len) = req.data_descriptors[i];
                let ok = if is_read {
                    backend.read_at(mem, addr, len, sector)
                } else {
                    backend.write_at(mem, addr, len, sector)
                };
                if !ok {
                    return (VIRTIO_BLK_S_IOERR, 0);
                }
                sector = match sector.checked_add((len >> SECTOR_SHIFT) as u64) {
                    Some(s) => s,
                    None => {
                        return (VIRTIO_BLK_S_IOERR, 0);
                    },
                };
                proof {
                    assert(req.data_descriptors@.subrange(0, i as int + 1).drop_last()
                        =~= req.data_descriptors@.subrange(0, i as int));
                }
                total = match total.checked_add(len as u64) {
                    Some(t) => t,
                    None => {
                        return (VIRTIO_BLK_S_IOERR, 0);
                    },
                };
                i = i + 1;
            }
            proof {
                assert(req.data_descriptors@.subrange(0, n as int) =~= req.data_descriptors@);
            }
            if is_read {
                if total > u32::MAX as u64 {
                    // The summed length cannot be reported in the 32-bit
                    // used element.
                    return (VIRTIO_BLK_S_IOERR, 0);
                }
                (VIRTIO_BLK_S_OK, total as u32)
            } else {
                (VIRTIO_BLK_S_OK, 0)
            }
        },
        RequestType::Flush => {
            if backend.flush() {
                (VIRTIO_BLK_S_OK, 0)
            } else {
                (VIRTIO_BLK_S_IOERR, 0)
            }
        },
        RequestType::Discard => (VIRTIO_BLK_S_UNSUP, 0),
        RequestType::WriteZeroes => (VIRTIO_BLK_S_UNSUP, 0),
        RequestType::Unsupported(_) => (VIRTIO_BLK_S_UNSUP, 0),
    }
}

/// Drain the queue: pop every available chain, parse it, run it against the
/// backend, write its status byte and publish the head to the used ring.  A
/// chain that fails to parse is published with length zero so the guest
/// reclaims its buffers.  Returns whether any chain was consumed; when none
/// was, the queue is untouched.
pub fn process_queue<B: BlockBackend>(
    mem: &GuestMemoryMmap,
    queue: &mut Queue,
    backend: &mut B,
) -> (used_any: bool)
    ensures
        final(queue).max_size == old(queue).max_size,
        final(queue).size == old(queue).size,
        final(queue).ready == old(queue).ready,
        final(queue).event_idx == old(queue).event_idx,
        final(queue).desc_table == old(queue).desc_table,
        final(queue).avail_ring == old(queue).avail_ring,
        final(queue).used_ring == old(queue).used_ring,
        !used_any ==> *final(queue) == *old(queue),
        used_any <==> final(queue).next_avail != old(queue).next_avail,
{
    let mut used_any = false;
    let mut it = queue.iter(mem);
    let ghost mut yields: int = 0;
    loop
        invariant
            queue.max_size == old(queue).max_size,
            queue.size == old(queue).size,
            queue.ready == old(queue).ready,
            queue.event_idx == old(queue).event_idx,
            queue.desc_table == old(queue).desc_table,
            queue.avail_ring == old(queue).avail_ring,
            queue.used_ring == old(queue).used_ring,
            queue.signalled_used == old(queue).signalled_used,
            !used_any ==> *queue == *old(queue),
            used_any <==> yields > 0,
            0 <= yields,
            yields + it.spec_remaining() <= 0xFFFF,
            queue.next_avail == old(queue).next_avail.wrapping_add(yields as u16),
        ensures
            queue.max_size == old(queue).max_size,
            queue.size == old(queue).size,
            queue.ready == old(queue).ready,
            queue.event_idx == old(queue).event_idx,
            queue.desc_table == old(queue).desc_table,
            queue.avail_ring == old(queue).avail_ring,
            queue.used_ring == old(queue).used_ring,
            !used_any ==> *queue == *old(queue),
            used_any <==> yields > 0,
            0 <= yields <= 0xFFFF,
            queue.next_avail == old(queue).next_avail.wrapping_add(yields as u16),
        decreases it.spec_remaining(),
    {
        let ghost yields_before: int = yields;
        let mut chain = match it.next(mem, &mut queue.next_avail) {
            Some(c) => c,
            None => {
                break ;
            },
        };
        proof {
            yields = yields + 1;
            // One yield moves the cursor one further along, in wrapping
            // sixteen-bit arithmetic.
            assert(queue.next_avail == old(queue).next_avail.wrapping_add(yields as u16));
        }
        let head = chain.head_index;
        let len: u32 = match Request::parse(mem, &mut chain) {
            Ok(req) => {
                let (status, transferred) = execute(mem, backend, &req);
                // Parsing checked the status address; if the guest remapped
                // it meanwhile the write is dropped, as the field is theirs.
                let _ = write_u8(mem, req.status_addr, status);
                if status == VIRTIO_BLK_S_OK {
                    transferred
                } else {
                    // At least the status byte for the driver to see.
                    1
                }
            },
            Err(_) => 0,
        };
        let _ = queue.add_used(mem, head, len);
        used_any = true;
    }
    proof {
        if yields > 0 {
            // At most 0xFFFF heads fit in one drain, so the wrapping sum
            // cannot land back on the starting cursor.
            assert(old(queue).next_avail.wrapping_add(yields as u16) != old(queue).next_avail);
        }
    }
    used_any
}

} // verus!
