use vm_memory::{Bytes, GuestAddress, GuestMemoryMmap};
use vm_virtio::queue::{Descriptor, DescriptorChain, DescriptorTable, Error, Queue};
use vm_virtio::{VIRTQ_DESC_F_INDIRECT, VIRTQ_DESC_F_NEXT, VIRTQ_DESC_F_WRITE};

// A test layout of the three rings in guest memory, matching the virtio
// alignment rules: descriptor table at `start`, available ring after it,
// used ring after that.
struct TestLayout {
    dtable: u64,
    avail: u64,
    used: u64,
    qsize: u16,
}

fn test_layout(start: u64, qsize: u16) -> TestLayout {
    assert!(qsize > 0 && (qsize & (qsize - 1)) == 0);
    let dtable = start;
    let avail = dtable + 16 * qsize as u64;
    let avail_end = avail + 4 + 2 * qsize as u64 + 2;
    let used = (avail_end + 3) & !3;
    TestLayout { dtable, avail, used, qsize }
}

fn layout_end(tq: &TestLayout) -> u64 {
    tq.used + 4 + 8 * tq.qsize as u64 + 2
}

fn write_desc(m: &GuestMemoryMmap, tq: &TestLayout, i: u16, addr: u64, len: u32, flags: u16, next: u16) {
    let base = tq.dtable + 16 * i as u64;
    m.write_obj::<u64>(addr, GuestAddress(base)).unwrap();
    m.write_obj::<u32>(len, GuestAddress(base + 8)).unwrap();
    m.write_obj::<u16>(flags, GuestAddress(base + 12)).unwrap();
    m.write_obj::<u16>(next, GuestAddress(base + 14)).unwrap();
}

fn set_desc_flags(m: &GuestMemoryMmap, tq: &TestLayout, i: u16, flags: u16) {
    let base = tq.dtable + 16 * i as u64;
    m.write_obj::<u16>(flags, GuestAddress(base + 12)).unwrap();
}

fn set_avail_idx(m: &GuestMemoryMmap, tq: &TestLayout, v: u16) {
    m.write_obj::<u16>(v, GuestAddress(tq.avail + 2)).unwrap();
}

fn set_avail_ring(m: &GuestMemoryMmap, tq: &TestLayout, slot: u16, head: u16) {
    m.write_obj::<u16>(head, GuestAddress(tq.avail + 4 + 2 * slot as u64)).unwrap();
}

fn used_idx(m: &GuestMemoryMmap, tq: &TestLayout) -> u16 {
    m.read_obj::<u16>(GuestAddress(tq.used + 2)).unwrap()
}

fn used_elem(m: &GuestMemoryMmap, tq: &TestLayout, slot: u16) -> (u32, u32) {
    let base = tq.used + 4 + 8 * slot as u64;
    let id = m.read_obj::<u32>(GuestAddress(base)).unwrap();
    let len = m.read_obj::<u32>(GuestAddress(base + 4)).unwrap();
    (id, len)
}

fn create_queue(tq: &TestLayout) -> Queue {
    let mut q = Queue::new(tq.qsize);
    q.size = tq.qsize;
    q.ready = true;
    q.desc_table = tq.dtable;
    q.avail_ring = tq.avail;
    q.used_ring = tq.used;
    q
}

fn default_mem() -> GuestMemoryMmap {
    GuestMemoryMmap::<()>::from_ranges(&[(GuestAddress(0), 0x10000)]).unwrap()
}

#[test]
fn test_offset() {
    // The wire layout of a descriptor record: addr at byte 0, len at 8,
    // flags at 12, next at 14.
    let m = default_mem();
    m.write_obj::<u64>(0x1122_3344_5566_7788, GuestAddress(0)).unwrap();
    m.write_obj::<u32>(0xaabb_ccdd, GuestAddress(8)).unwrap();
    m.write_obj::<u16>(0x55aa, GuestAddress(12)).unwrap();
    m.write_obj::<u16>(0x7, GuestAddress(14)).unwrap();
    let t = DescriptorTable::new(0, 1);
    let d = t.read_descriptor(&m, 0).unwrap();
    assert_eq!(d.addr(), 0x1122_3344_5566_7788);
    assert_eq!(d.len(), 0xaabb_ccdd);
    assert_eq!(d.flags(), 0x55aa);
    assert_eq!(d.next(), 0x7);
}

#[test]
fn test_checked_new_descriptor_chain() {
    let m = &default_mem();
    let tq = test_layout(0, 16);

    assert!(layout_end(&tq) < 0x1000);

    // index >= queue_size
    assert!(DescriptorChain::checked_new(m, DescriptorTable::new(tq.dtable, 16), 16).is_err());

    // desc_table address is way off
    assert!(
        DescriptorChain::checked_new(m, DescriptorTable::new(0x00ff_ffff_ffff, 16), 0).is_err()
    );

    // finally, let's test an ok chain
    write_desc(m, &tq, 0, 0x1000, 0x1000, VIRTQ_DESC_F_NEXT, 1);
    write_desc(m, &tq, 1, 0x2000, 0x1000, 0, 0);

    let mut c = DescriptorChain::checked_new(m, DescriptorTable::new(tq.dtable, 16), 0).unwrap();
    assert_eq!(c.desc_table.addr, tq.dtable);
    assert_eq!(c.desc_table.len, 16);
    assert_eq!(c.ttl, c.desc_table.len);

    let desc = c.next(m).unwrap();
    assert_eq!(desc.addr(), 0x1000);
    assert_eq!(desc.len(), 0x1000);
    assert_eq!(desc.flags(), VIRTQ_DESC_F_NEXT);
    assert_eq!(desc.next(), 1);

    assert!(c.next(m).is_some());
    assert!(c.next(m).is_none());
}

#[test]
fn test_checked_new_descriptor_chain_cross_mem_region() {
    let m = &GuestMemoryMmap::<()>::from_ranges(&[
        (GuestAddress(0), 0x1000),
        (GuestAddress(0x1000), 0x1000),
    ])
    .unwrap();

    // The whole descriptor table crosses a guest memory region boundary; that
    // should be fine.
    assert!(DescriptorChain::checked_new(m, DescriptorTable::new(0, 512), 1).is_ok());
}

#[test]
fn test_new_from_indirect_descriptor() {
    let m = &default_mem();
    let tq = test_layout(0, 16);

    // create a chain with a descriptor pointing to an indirect table
    write_desc(m, &tq, 0, 0x1000, 0x1000, VIRTQ_DESC_F_INDIRECT, 0);

    // create an indirect table with 4 chained descriptors
    for j in 0u16..4 {
        let base = 0x1000 + 16 * j as u64;
        m.write_obj::<u64>(0x1000, GuestAddress(base)).unwrap();
        m.write_obj::<u32>(0x1000, GuestAddress(base + 8)).unwrap();
        m.write_obj::<u16>(VIRTQ_DESC_F_NEXT, GuestAddress(base + 12)).unwrap();
        m.write_obj::<u16>(j + 1, GuestAddress(base + 14)).unwrap();
    }

    let mut c = DescriptorChain::checked_new(m, DescriptorTable::new(tq.dtable, 16), 0).unwrap();
    assert!(c.is_indirect());

    // iterate through the indirect table descriptors
    for j in 0u16..4 {
        let desc = c.next(m).unwrap();
        assert_eq!(desc.flags(), VIRTQ_DESC_F_NEXT);
        assert_eq!(desc.next(), j + 1);
    }
}

#[test]
fn test_new_from_indirect_descriptor_err() {
    {
        let m = &default_mem();
        let tq = test_layout(0, 16);

        // misaligned indirect table address
        write_desc(m, &tq, 0, 0x1001, 0x1000, VIRTQ_DESC_F_INDIRECT, 0);
        assert!(
            DescriptorChain::checked_new(m, DescriptorTable::new(tq.dtable, 16), 0).is_err()
        );
    }

    {
        let m = &default_mem();
        let tq = test_layout(0, 16);

        // indirect table length that is not a whole number of descriptors
        write_desc(m, &tq, 0, 0x1000, 0x1001, VIRTQ_DESC_F_INDIRECT, 0);
        assert!(
            DescriptorChain::checked_new(m, DescriptorTable::new(tq.dtable, 16), 0).is_err()
        );
    }
}

#[test]
fn test_queue_and_iterator() {
    let m = &default_mem();
    let tq = test_layout(0, 16);
    let mut q = create_queue(&tq);

    // q is currently valid
    assert!(q.is_valid(m));

    // shouldn't be valid when not marked as ready
    q.ready = false;
    assert!(!q.is_valid(m));
    q.ready = true;

    // or when size > max_size
    q.size = q.max_size << 1;
    assert!(!q.is_valid(m));
    q.size = q.max_size;

    // or when size is 0
    q.size = 0;
    assert!(!q.is_valid(m));
    q.size = q.max_size;

    // or when size is not a power of 2
    q.size = 11;
    assert!(!q.is_valid(m));
    q.size = q.max_size;

    // or if the various addresses are off
    q.desc_table = 0xffff_ffff;
    assert!(!q.is_valid(m));
    q.desc_table = 0x1001;
    assert!(!q.is_valid(m));
    q.desc_table = tq.dtable;

    q.avail_ring = 0xffff_ffff;
    assert!(!q.is_valid(m));
    q.avail_ring = 0x1001;
    assert!(!q.is_valid(m));
    q.avail_ring = tq.avail;

    q.used_ring = 0xffff_ffff;
    assert!(!q.is_valid(m));
    q.used_ring = 0x1001;
    assert!(!q.is_valid(m));
    q.used_ring = tq.used;

    {
        // a queue that was not told about any available head yields nothing
        q.ready = false;
        let mut i = q.iter(m);
        assert!(i.next(m, &mut q.next_avail).is_none());
    }

    q.ready = true;

    // now let's create two simple descriptor chains
    for j in 0u16..5 {
        write_desc(m, &tq, j, 0x1000 * (j + 1) as u64, 0x1000, VIRTQ_DESC_F_NEXT, j + 1);
    }

    // the chains are (0, 1) and (2, 3, 4)
    set_desc_flags(m, &tq, 1, 0);
    set_desc_flags(m, &tq, 4, 0);
    set_avail_ring(m, &tq, 0, 0);
    set_avail_ring(m, &tq, 1, 2);
    set_avail_idx(m, &tq, 2);

    let mut i = q.iter(m);

    {
        let mut c = i.next(m, &mut q.next_avail).unwrap();
        c.next(m).unwrap();
        assert!(!c.has_next());
        assert!(c.next(m).is_some());
        assert!(c.next(m).is_none());
    }

    {
        let mut c = i.next(m, &mut q.next_avail).unwrap();
        c.next(m).unwrap();
        c.next(m).unwrap();
        c.next(m).unwrap();
        assert!(!c.has_next());
        assert!(c.next(m).is_none());
    }

    // also test go_to_previous_position() works as expected
    {
        let mut i = q.iter(m);
        assert!(i.next(m, &mut q.next_avail).is_none());
        q.go_to_previous_position();
        let mut i = q.iter(m);
        let mut c = i.next(m, &mut q.next_avail).unwrap();
        c.next(m).unwrap();
        c.next(m).unwrap();
        c.next(m).unwrap();
        assert!(!c.has_next());
        assert!(c.next(m).is_none());
    }
}

#[test]
fn test_descriptor_and_iterator() {
    let m = &default_mem();
    let tq = test_layout(0, 16);
    let mut q = create_queue(&tq);

    // q is currently valid
    assert!(q.is_valid(m));

    for j in 0u16..7 {
        write_desc(m, &tq, j, 0x1000 * (j + 1) as u64, 0x1000, VIRTQ_DESC_F_NEXT, j + 1);
    }

    // the chains are (0, 1), (2, 3, 4) and (5, 6)
    set_desc_flags(m, &tq, 1, 0);
    set_desc_flags(m, &tq, 2, VIRTQ_DESC_F_NEXT | VIRTQ_DESC_F_WRITE);
    set_desc_flags(m, &tq, 4, VIRTQ_DESC_F_WRITE);
    set_desc_flags(m, &tq, 5, VIRTQ_DESC_F_NEXT | VIRTQ_DESC_F_WRITE);
    set_desc_flags(m, &tq, 6, 0);
    set_avail_ring(m, &tq, 0, 0);
    set_avail_ring(m, &tq, 1, 2);
    set_avail_ring(m, &tq, 2, 5);
    set_avail_idx(m, &tq, 3);

    let mut i = q.iter(m);

    {
        let c = i.next(m, &mut q.next_avail).unwrap();
        let all = c.collect(m);
        assert_eq!(all.len(), 2);
    }

    {
        let c = i.next(m, &mut q.next_avail).unwrap();
        let writable = c.writable(m);
        assert_eq!(writable.len(), 2);
    }

    {
        let c = i.next(m, &mut q.next_avail).unwrap();
        let readable = c.readable(m);
        assert_eq!(readable.len(), 1);
    }
}

#[test]
fn test_add_used() {
    let m = &default_mem();
    let tq = test_layout(0, 16);
    let mut q = create_queue(&tq);

    assert_eq!(used_idx(m, &tq), 0);

    // index too large
    assert!(q.add_used(m, 16, 0x1000).is_none());
    assert_eq!(used_idx(m, &tq), 0);

    // should be ok
    assert_eq!(q.add_used(m, 1, 0x1000).unwrap(), 1);
    assert_eq!(used_idx(m, &tq), 1);
    let (id, len) = used_elem(m, &tq, 0);
    assert_eq!(id, 1);
    assert_eq!(len, 0x1000);
}

#[test]
fn test_reset_queue() {
    let tq = test_layout(0, 16);
    let mut q = create_queue(&tq);
    q.size = 8;
    q.ready = true;
    q.reset();
    assert_eq!(q.size, 16);
    assert_eq!(q.ready, false);
}

#[test]
fn test_needs_notification() {
    let m = &default_mem();
    let tq = test_layout(0, 16);
    let mut q = create_queue(&tq);
    let used_event_addr = tq.avail + 4 + 16 * 2;

    // It should always return true when EVENT_IDX isn't enabled.
    assert_eq!(q.needs_notification(m, 1), true);
    assert_eq!(q.needs_notification(m, 2), true);
    assert_eq!(q.needs_notification(m, 3), true);
    assert_eq!(q.needs_notification(m, 4), true);
    assert_eq!(q.needs_notification(m, 5), true);

    m.write_obj::<u16>(4, GuestAddress(used_event_addr)).unwrap();
    q.set_event_idx(true);
    assert_eq!(q.needs_notification(m, 1), true);
    assert_eq!(q.needs_notification(m, 2), false);
    assert_eq!(q.needs_notification(m, 3), false);
    assert_eq!(q.needs_notification(m, 4), false);
    assert_eq!(q.needs_notification(m, 5), true);
    assert_eq!(q.needs_notification(m, 6), false);
    assert_eq!(q.needs_notification(m, 7), false);

    m.write_obj::<u16>(8, GuestAddress(used_event_addr)).unwrap();
    assert_eq!(q.needs_notification(m, 11), true);
    assert_eq!(q.needs_notification(m, 12), false);

    m.write_obj::<u16>(15, GuestAddress(used_event_addr)).unwrap();
    assert_eq!(q.needs_notification(m, 0), true);
    assert_eq!(q.needs_notification(m, 14), false);
}

#[test]
fn test_needs_notification_for() {
    // The pure crossing test, on the same values the ring test uses: with
    // used_event = 4, moving from 1 to 2 does not cross, moving from 4 to 5
    // does.
    assert_eq!(vm_virtio::queue::needs_notification_for(2, 1, 4), false);
    assert_eq!(vm_virtio::queue::needs_notification_for(5, 4, 4), true);
    // Wrapping: with used_event = 15, moving from 5 to 0 crosses it.
    assert_eq!(vm_virtio::queue::needs_notification_for(0, 5, 15), true);
    assert_eq!(vm_virtio::queue::needs_notification_for(14, 0, 15), false);
}

#[test]
fn test_update_avail_event() {
    let m = &default_mem();
    let tq = test_layout(0, 16);
    let q = create_queue(&tq);

    set_avail_idx(m, &tq, 7);
    assert!(q.update_avail_event(m));
    let avail_event_addr = tq.used + 4 + 16 * 8;
    assert_eq!(m.read_obj::<u16>(GuestAddress(avail_event_addr)).unwrap(), 7);

    // With the used ring out of reach the hint cannot be stored.
    let mut far = create_queue(&tq);
    far.used_ring = 0x2_0000;
    assert!(!far.update_avail_event(m));
}

#[test]
fn test_actual_size_clamps() {
    let tq = test_layout(0, 16);
    let mut q = create_queue(&tq);
    assert_eq!(q.actual_size(), 16);
    q.size = 8;
    assert_eq!(q.actual_size(), 8);
    q.size = 32;
    assert_eq!(q.actual_size(), 16);
}

#[test]
fn test_error_variants() {
    let m = &default_mem();

    // An index past the table end is an invalid chain.
    let t = DescriptorTable::new(0, 4);
    assert_eq!(t.read_descriptor(m, 4).err().unwrap(), Error::InvalidChain);

    // A table whose entry address cannot be computed overflows.
    let t = DescriptorTable::new(u64::MAX - 8, 4);
    assert_eq!(t.read_descriptor(m, 2).err().unwrap(), Error::Overflow);

    // An entry outside guest memory cannot be read.
    let t = DescriptorTable::new(0x2_0000, 4);
    assert_eq!(t.read_descriptor(m, 0).err().unwrap(), Error::GuestMemory);

    // A misaligned indirect descriptor is rejected as such.
    let d = Descriptor::new(0x1001, 0x40, VIRTQ_DESC_F_INDIRECT, 0);
    assert_eq!(
        DescriptorTable::new_indirect(&d).err().unwrap(),
        Error::InvalidIndirectDescriptor
    );
}

#[test]
fn test_linked_indirect_descriptor_terminates() {
    let m = &default_mem();
    let tq = test_layout(0, 16);

    // A direct chain whose second descriptor names an indirect table: the
    // walk enters an indirect table only at the head, so following the link
    // finds a malformed descriptor and the walk ends without a yield, like
    // any other bad link.
    write_desc(m, &tq, 0, 0x2000, 0x1000, VIRTQ_DESC_F_NEXT, 1);
    write_desc(m, &tq, 1, 0x1000, 0x40, VIRTQ_DESC_F_INDIRECT, 0);

    let mut c = DescriptorChain::checked_new(m, DescriptorTable::new(tq.dtable, 16), 0).unwrap();
    assert!(!c.is_indirect());
    assert!(c.next(m).is_none());

    // With the link cleared, the same head is an ordinary one-descriptor
    // chain.
    set_desc_flags(m, &tq, 0, 0);
    let mut c = DescriptorChain::checked_new(m, DescriptorTable::new(tq.dtable, 16), 0).unwrap();
    let first = c.next(m).unwrap();
    assert_eq!(first.addr(), 0x2000);
    assert!(c.next(m).is_none());
}
