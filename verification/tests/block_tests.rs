use vm_memory::{Bytes, GuestAddress, GuestMemoryMmap};
use vm_virtio::block::{
    process_queue, BlockBackend, Error, Request, RequestType, VIRTIO_BLK_S_OK,
};
use vm_virtio::queue::{Descriptor, DescriptorChain, Queue};
use vm_virtio::VIRTQ_DESC_F_NEXT;
use vm_virtio::VIRTQ_DESC_F_WRITE;

fn default_mem() -> GuestMemoryMmap {
    GuestMemoryMmap::<()>::from_ranges(&[(GuestAddress(0), 0x10000)]).unwrap()
}

// Writes a descriptor chain to guest memory and returns the associated
// `DescriptorChain` object, ensuring the next flags and fields form one chain
// over the input descriptors while keeping their other characteristics.
// The ring structures live at the bottom of memory; the descriptors' `addr`
// fields should point well above them.
fn build_desc_chain(m: &GuestMemoryMmap, descs: &[Descriptor]) -> DescriptorChain {
    let qsize: u16 = 16;
    let dtable: u64 = 0;
    let avail: u64 = 16 * qsize as u64;

    for (idx, desc) in descs.iter().enumerate() {
        let i = idx as u16;
        let base = dtable + 16 * i as u64;
        m.write_obj::<u64>(desc.addr(), GuestAddress(base)).unwrap();
        m.write_obj::<u32>(desc.len(), GuestAddress(base + 8)).unwrap();
        if idx == descs.len() - 1 {
            // Clear the next flag on the last descriptor.
            m.write_obj::<u16>(desc.flags() & !VIRTQ_DESC_F_NEXT, GuestAddress(base + 12))
                .unwrap();
        } else {
            // Link each descriptor to the following one.
            m.write_obj::<u16>(desc.flags() | VIRTQ_DESC_F_NEXT, GuestAddress(base + 12))
                .unwrap();
            m.write_obj::<u16>(i + 1, GuestAddress(base + 14)).unwrap();
        }
    }

    // Put descriptor index 0 in the first available ring position and set
    // avail.idx to 1.
    m.write_obj::<u16>(0, GuestAddress(avail + 4)).unwrap();
    m.write_obj::<u16>(1, GuestAddress(avail + 2)).unwrap();

    let mut q = Queue::new(qsize);
    q.ready = true;
    q.desc_table = dtable;
    q.avail_ring = avail;
    q.used_ring = 0x600;
    let mut it = q.iter(m);
    it.next(m, &mut q.next_avail).expect("failed to build desc chain")
}

fn write_block_header(m: &GuestMemoryMmap, addr: u64, request_type: u32, sector: u64) {
    m.write_obj::<u32>(request_type, GuestAddress(addr)).unwrap();
    m.write_obj::<u32>(0, GuestAddress(addr + 4)).unwrap();
    m.write_obj::<u64>(sector, GuestAddress(addr + 8)).unwrap();
}

#[test]
fn test_example() {
    let mem = default_mem();
    // `build_desc_chain` populates the next flags and fields.
    let v = vec![
        Descriptor::new(0x2000, 0x100, VIRTQ_DESC_F_WRITE, 0),
        Descriptor::new(0x3000, 0x100, VIRTQ_DESC_F_WRITE, 0),
        Descriptor::new(0x4000, 0x100, VIRTQ_DESC_F_WRITE, 0),
    ];

    let mut chain = build_desc_chain(&mem, &v[..3]);

    // The chain yields the three descriptors in order.
    let mut count = 0;
    while chain.next(&mem).is_some() {
        count += 1;
    }
    assert_eq!(count, 3);
}

#[test]
fn test_request_type_from() {
    assert_eq!(RequestType::from(0), RequestType::In);
    assert_eq!(RequestType::from(1), RequestType::Out);
    assert_eq!(RequestType::from(4), RequestType::Flush);
    assert_eq!(RequestType::from(11), RequestType::Discard);
    assert_eq!(RequestType::from(13), RequestType::WriteZeroes);
    assert_eq!(RequestType::from(7), RequestType::Unsupported(7));
}

#[test]
fn test_block_request_parse() {
    let mem = default_mem();
    // A three-descriptor write request: header (read-only, 16 bytes,
    // type out, sector 42), data (read-only, 512 bytes), status
    // (write-only, 1 byte).
    write_block_header(&mem, 0x2000, 1, 42);
    let v = vec![
        Descriptor::new(0x2000, 16, 0, 0),
        Descriptor::new(0x3000, 512, 0, 0),
        Descriptor::new(0x4000, 1, VIRTQ_DESC_F_WRITE, 0),
    ];
    let mut chain = build_desc_chain(&mem, &v[..3]);
    let req = Request::parse(&mem, &mut chain).unwrap();
    assert_eq!(req.request_type(), RequestType::Out);
    assert_eq!(req.sector(), 42);
    assert_eq!(req.data_descriptors().len(), 1);
    assert_eq!(req.data_descriptors()[0], (0x3000, 512));
    assert_eq!(req.status_addr(), 0x4000);

    // The same chain with the data descriptor write-only is rejected.
    let v = vec![
        Descriptor::new(0x2000, 16, 0, 0),
        Descriptor::new(0x3000, 512, VIRTQ_DESC_F_WRITE, 0),
        Descriptor::new(0x4000, 1, VIRTQ_DESC_F_WRITE, 0),
    ];
    let mut chain = build_desc_chain(&mem, &v[..3]);
    assert_eq!(
        Request::parse(&mem, &mut chain).err().unwrap(),
        Error::UnexpectedWriteOnlyDescriptor
    );
}

#[test]
fn test_block_request_parse_errors() {
    let mem = default_mem();
    write_block_header(&mem, 0x2000, 0, 7);

    // A write-only header is rejected.
    let v = vec![
        Descriptor::new(0x2000, 16, VIRTQ_DESC_F_WRITE, 0),
        Descriptor::new(0x4000, 1, VIRTQ_DESC_F_WRITE, 0),
    ];
    let mut chain = build_desc_chain(&mem, &v[..2]);
    assert_eq!(
        Request::parse(&mem, &mut chain).err().unwrap(),
        Error::UnexpectedWriteOnlyDescriptor
    );

    // A chain with the header alone is too short.
    let v = vec![Descriptor::new(0x2000, 16, 0, 0)];
    let mut chain = build_desc_chain(&mem, &v[..1]);
    assert_eq!(
        Request::parse(&mem, &mut chain).err().unwrap(),
        Error::DescriptorChainTooShort
    );

    // A read request whose data descriptor is read-only is rejected.
    let v = vec![
        Descriptor::new(0x2000, 16, 0, 0),
        Descriptor::new(0x3000, 512, 0, 0),
        Descriptor::new(0x4000, 1, VIRTQ_DESC_F_WRITE, 0),
    ];
    let mut chain = build_desc_chain(&mem, &v[..3]);
    assert_eq!(
        Request::parse(&mem, &mut chain).err().unwrap(),
        Error::UnexpectedReadOnlyDescriptor
    );

    // A data descriptor reaching outside guest memory is rejected.
    write_block_header(&mem, 0x2000, 1, 7);
    let v = vec![
        Descriptor::new(0x2000, 16, 0, 0),
        Descriptor::new(0xffff_0000, 0x2_0000, 0, 0),
        Descriptor::new(0x4000, 1, VIRTQ_DESC_F_WRITE, 0),
    ];
    let mut chain = build_desc_chain(&mem, &v[..3]);
    assert_eq!(Request::parse(&mem, &mut chain).err().unwrap(), Error::GuestMemory);

    // A read-only status descriptor is rejected.
    let v = vec![
        Descriptor::new(0x2000, 16, 0, 0),
        Descriptor::new(0x3000, 512, 0, 0),
        Descriptor::new(0x4000, 1, 0, 0),
    ];
    let mut chain = build_desc_chain(&mem, &v[..3]);
    assert_eq!(
        Request::parse(&mem, &mut chain).err().unwrap(),
        Error::UnexpectedReadOnlyDescriptor
    );

    // A zero-length status descriptor is too small.
    let v = vec![
        Descriptor::new(0x2000, 16, 0, 0),
        Descriptor::new(0x3000, 512, 0, 0),
        Descriptor::new(0x4000, 0, VIRTQ_DESC_F_WRITE, 0),
    ];
    let mut chain = build_desc_chain(&mem, &v[..3]);
    assert_eq!(
        Request::parse(&mem, &mut chain).err().unwrap(),
        Error::DescriptorLengthTooSmall
    );

    // A flush request may omit the data descriptors entirely.
    write_block_header(&mem, 0x2000, 4, 0);
    let v = vec![
        Descriptor::new(0x2000, 16, 0, 0),
        Descriptor::new(0x4000, 1, VIRTQ_DESC_F_WRITE, 0),
    ];
    let mut chain = build_desc_chain(&mem, &v[..2]);
    let req = Request::parse(&mem, &mut chain).unwrap();
    assert_eq!(req.request_type(), RequestType::Flush);
    assert_eq!(req.data_descriptors().len(), 0);
}

// An in-memory disk for exercising the queue handler.
struct TestDisk {
    sectors: u64,
    reads: usize,
    writes: usize,
    flushes: usize,
}

impl BlockBackend for TestDisk {
    fn num_sectors(&self) -> u64 {
        self.sectors
    }

    fn image_id(&self) -> Vec<u8> {
        b"test-disk".to_vec()
    }

    fn read_at(&mut self, mem: &GuestMemoryMmap, addr: u64, len: u32, _sector: u64) -> bool {
        self.reads += 1;
        let buf = vec![0xabu8; len as usize];
        mem.write_slice(&buf, GuestAddress(addr)).is_ok()
    }

    fn write_at(&mut self, mem: &GuestMemoryMmap, addr: u64, len: u32, _sector: u64) -> bool {
        self.writes += 1;
        let mut buf = vec![0u8; len as usize];
        mem.read_slice(&mut buf, GuestAddress(addr)).is_ok()
    }

    fn flush(&mut self) -> bool {
        self.flushes += 1;
        true
    }
}

#[test]
fn test_process_queue() {
    let mem = default_mem();
    // One read request: header (type in, sector 0), a writable data buffer,
    // and the status byte.
    write_block_header(&mem, 0x2000, 0, 0);
    let v = vec![
        Descriptor::new(0x2000, 16, 0, 0),
        Descriptor::new(0x3000, 512, VIRTQ_DESC_F_WRITE, 0),
        Descriptor::new(0x4000, 1, VIRTQ_DESC_F_WRITE, 0),
    ];
    // Lay the chain out and keep the queue this time.
    let qsize: u16 = 16;
    for (idx, desc) in v.iter().enumerate() {
        let i = idx as u16;
        let base = 16 * i as u64;
        mem.write_obj::<u64>(desc.addr(), GuestAddress(base)).unwrap();
        mem.write_obj::<u32>(desc.len(), GuestAddress(base + 8)).unwrap();
        if idx == v.len() - 1 {
            mem.write_obj::<u16>(desc.flags() & !VIRTQ_DESC_F_NEXT, GuestAddress(base + 12))
                .unwrap();
        } else {
            mem.write_obj::<u16>(desc.flags() | VIRTQ_DESC_F_NEXT, GuestAddress(base + 12))
                .unwrap();
            mem.write_obj::<u16>(i + 1, GuestAddress(base + 14)).unwrap();
        }
    }
    let avail: u64 = 16 * qsize as u64;
    mem.write_obj::<u16>(0, GuestAddress(avail + 4)).unwrap();
    mem.write_obj::<u16>(1, GuestAddress(avail + 2)).unwrap();

    let mut q = Queue::new(qsize);
    q.ready = true;
    q.desc_table = 0;
    q.avail_ring = avail;
    q.used_ring = 0x600;

    let mut disk = TestDisk { sectors: 8, reads: 0, writes: 0, flushes: 0 };
    let used_any = process_queue(&mem, &mut q, &mut disk);

    assert!(used_any);
    assert_eq!(disk.reads, 1);
    // The data buffer was filled by the backend.
    assert_eq!(mem.read_obj::<u8>(GuestAddress(0x3000)).unwrap(), 0xab);
    // The status byte says the request succeeded.
    assert_eq!(mem.read_obj::<u8>(GuestAddress(0x4000)).unwrap(), VIRTIO_BLK_S_OK);
    // The head was published to the used ring with the bytes the read
    // moved toward the driver.
    assert_eq!(mem.read_obj::<u16>(GuestAddress(0x600 + 2)).unwrap(), 1);
    let id = mem.read_obj::<u32>(GuestAddress(0x600 + 4)).unwrap();
    let len = mem.read_obj::<u32>(GuestAddress(0x600 + 8)).unwrap();
    assert_eq!(id, 0);
    assert_eq!(len, 512);

    // Draining again consumes nothing.
    assert!(!process_queue(&mem, &mut q, &mut disk));
}
