//! Split-virtqueue device framework: the descriptor-ring data model, the
//! descriptor-chain walk, the available-ring consumer, the used-ring producer,
//! the event-index notification test, the virtio-MMIO register transport and
//! the virtio-blk request parser.

use vstd::prelude::*;

pub mod block;
pub mod device;
pub mod device_status;
pub mod mem;
pub mod mmio;
pub mod queue;

verus! {

/// Flag bit on a descriptor that links it to a following descriptor.
pub const VIRTQ_DESC_F_NEXT: u16 = 0x1;
/// Flag bit that marks a descriptor as device-writable.
pub const VIRTQ_DESC_F_WRITE: u16 = 0x2;
/// Flag bit that marks a descriptor as the head of an indirect table.
pub const VIRTQ_DESC_F_INDIRECT: u16 = 0x4;

} // verus!
