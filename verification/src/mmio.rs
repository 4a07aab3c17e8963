//! The virtio-MMIO transport: a fixed map of 32-bit registers that the guest
//! reads and writes to discover and drive the device, plus the configuration
//! space window above it.  Queue fields may only be touched while feature
//! negotiation is complete and the device is neither driven nor failed; a
//! status write may demand that the caller run activation or reset logic.

use vstd::prelude::*;

use crate::device::{
    spec_ack_features, spec_feature_page, spec_lattice_step_ok, spec_status_after, StatusAction,
    VirtioConfig,
};
use crate::device_status::{ACKNOWLEDGE, DRIVER, DRIVER_OK, FAILED, FEATURES_OK};
use crate::queue::Queue;
use vm_memory::GuestMemoryMmap;

verus! {

/// The magic value at offset zero: "virt", little-endian.
pub const MMIO_MAGIC_VALUE: u32 = 0x7472_6976;

/// The device interface version of the non-legacy MMIO transport.
pub const MMIO_VERSION: u32 = 2;

/// The vendor identifier the transport reports.
pub const VENDOR_ID: u32 = 0;

/// Interrupt-status bit: the device has used buffers of a queue.
pub const VIRTIO_MMIO_INT_VRING: u8 = 0x01;

/// The little-endian bytes of a 32-bit register value.
pub open spec fn spec_le_bytes(v: u32) -> Seq<u8> {
    seq![
        (v & 0xFF) as u8,
        ((v >> 8) & 0xFF) as u8,
        ((v >> 16) & 0xFF) as u8,
        ((v >> 24) & 0xFF) as u8,
    ]
}

/// The 32-bit value of four little-endian bytes.
pub open spec fn spec_le_value(s: Seq<u8>) -> u32 {
    (s[0] as u32) | (s[1] as u32) << 8 | (s[2] as u32) << 16 | (s[3] as u32) << 24
}

/// What a 32-bit read of a known register returns, or nothing for an unknown
/// register offset.
pub open spec fn spec_register_value(cfg: VirtioConfig, device_type: u32, offset: u64) -> Option<
    u32,
> {
    if offset == 0x00 {
        Some(MMIO_MAGIC_VALUE)
    } else if offset == 0x04 {
        Some(MMIO_VERSION)
    } else if offset == 0x08 {
        Some(device_type)
    } else if offset == 0x0c {
        Some(VENDOR_ID)
    } else if offset == 0x10 {
        let page = spec_feature_page(cfg.device_features, cfg.device_features_select);
        // The high feature page reports VIRTIO_F_VERSION_1 as offered.
        Some(
            if cfg.device_features_select == 1 {
                page | 1
            } else {
                page
            },
        )
    } else if offset == 0x34 {
        Some(
            if cfg.queue_select < cfg.queues@.len() {
                cfg.queues@[cfg.queue_select as int].max_size as u32
            } else {
                0
            },
        )
    } else if offset == 0x44 {
        Some(
            if cfg.queue_select < cfg.queues@.len() && cfg.queues@[cfg.queue_select as int].ready {
                1
            } else {
                0
            },
        )
    } else if offset == 0x60 {
        Some(cfg.interrupt_status as u32)
    } else if offset == 0x70 {
        Some(cfg.device_status as u32)
    } else if offset == 0xfc {
        Some(cfg.config_generation as u32)
    } else {
        None
    }
}

/// The configuration-space copy that `read_config` performs, stated over the
/// byte sequences: nothing when `offset` is out of range, else the in-range
/// prefix copied and the tail of the buffer untouched.
pub open spec fn spec_config_read(
    space: Seq<u8>,
    offset: int,
    before: Seq<u8>,
    after: Seq<u8>,
) -> bool {
    &&& after.len() == before.len()
    &&& offset >= space.len() ==> after == before
    &&& offset < space.len() ==> {
        let n = if before.len() <= space.len() - offset {
            before.len() as int
        } else {
            space.len() - offset
        };
        &&& forall|i: int| 0 <= i < n ==> after[i] == space[offset + i]
        &&& forall|i: int| n <= i < before.len() ==> after[i] == before[i]
    }
}

/// The configuration-space update that `write_config` performs, stated over
/// the byte sequences.
pub open spec fn spec_config_write(
    before: Seq<u8>,
    offset: int,
    data: Seq<u8>,
    after: Seq<u8>,
) -> bool {
    &&& after.len() == before.len()
    &&& offset >= before.len() ==> after == before
    &&& offset < before.len() ==> {
        let n = if data.len() <= before.len() - offset {
            data.len() as int
        } else {
            before.len() - offset
        };
        &&& forall|i: int| 0 <= i < n ==> after[offset + i] == data[i]
        &&& forall|i: int|
            0 <= i < before.len() && !(offset <= i < offset + n) ==> after[i] == before[i]
    }
}

/// Queue mutation is honored only between feature negotiation and driver
/// readiness: the features-ok bit set, the driver-ok and failed bits clear.
pub open spec fn spec_queue_fields_open(cfg: VirtioConfig) -> bool {
    cfg.device_status & (FEATURES_OK | DRIVER_OK | FAILED) == FEATURES_OK
}

/// Feature acknowledgement is honored only while the driver bit is set and
/// the features-ok and failed bits are clear.
pub open spec fn spec_ack_open(cfg: VirtioConfig) -> bool {
    cfg.device_status & (DRIVER | FEATURES_OK | FAILED) == DRIVER
}

/// Configuration-space writes are honored only while the driver bit is set
/// and the failed bit is clear.
pub open spec fn spec_config_write_open(cfg: VirtioConfig) -> bool {
    cfg.device_status & (DRIVER | FAILED) == DRIVER
}

/// A 64-bit ring address with its low half replaced.
pub open spec fn spec_set_lo(addr: u64, x: u32) -> u64 {
    (addr & 0xffff_ffff_0000_0000) | (x as u64)
}

/// A 64-bit ring address with its high half replaced.
pub open spec fn spec_set_hi(addr: u64, x: u32) -> u64 {
    (addr & 0x0000_0000_ffff_ffff) | ((x as u64) << 32)
}

/// The selected queue after a queue-field register write, for each of the
/// six queue registers; any other offset leaves it unchanged.
pub open spec fn spec_queue_after_write(q: Queue, offset: u64, v: u32) -> Queue {
    if offset == 0x38 {
        Queue { size: v as u16, ..q }
    } else if offset == 0x44 {
        Queue { ready: v == 1, ..q }
    } else if offset == 0x80 {
        Queue { desc_table: spec_set_lo(q.desc_table, v), ..q }
    } else if offset == 0x84 {
        Queue { desc_table: spec_set_hi(q.desc_table, v), ..q }
    } else if offset == 0x90 {
        Queue { avail_ring: spec_set_lo(q.avail_ring, v), ..q }
    } else if offset == 0x94 {
        Queue { avail_ring: spec_set_hi(q.avail_ring, v), ..q }
    } else if offset == 0xa0 {
        Queue { used_ring: spec_set_lo(q.used_ring, v), ..q }
    } else if offset == 0xa4 {
        Queue { used_ring: spec_set_hi(q.used_ring, v), ..q }
    } else {
        q
    }
}

/// Whether the offset addresses one of the six queue-field registers.
pub open spec fn spec_is_queue_register(offset: u64) -> bool {
    offset == 0x38 || offset == 0x44 || offset == 0x80 || offset == 0x84 || offset == 0x90
        || offset == 0x94 || offset == 0xa0 || offset == 0xa4
}

/// Store a 32-bit register value into a four-byte buffer, little-endian.
fn store_le_u32(data: &mut Vec<u8>, v: u32)
    requires
        old(data)@.len() == 4,
    ensures
        final(data)@ == spec_le_bytes(v),
{
    data[0] = (v & 0xFF) as u8;
    data[1] = ((v >> 8) & 0xFF) as u8;
    data[2] = ((v >> 16) & 0xFF) as u8;
    data[3] = ((v >> 24) & 0xFF) as u8;
    proof {
        assert(data@ =~= spec_le_bytes(v));
    }
}

/// Read a 32-bit register value from a four-byte buffer, little-endian.
fn load_le_u32(data: &Vec<u8>) -> (v: u32)
    requires
        data@.len() == 4,
    ensures
        v == spec_le_value(data@),
{
    (data[0] as u32) | (data[1] as u32) << 8 | (data[2] as u32) << 16 | (data[3] as u32) << 24
}

/// Handle a guest read of the MMIO window.
///
/// A four-byte access in the register block returns the mapped register;
/// accesses in the configuration window copy from the configuration space;
/// anything else leaves the buffer untouched.
pub fn mmio_read(cfg: &VirtioConfig, device_type: u32, offset: u64, data: &mut Vec<u8>)
    ensures
        final(data)@.len() == old(data)@.len(),
        (offset < 0x100 && old(data)@.len() == 4 && spec_register_value(
            *cfg,
            device_type,
            offset,
        ) is Some) ==> final(data)@ == spec_le_bytes(
            spec_register_value(*cfg, device_type, offset)->Some_0,
        ),
        offset < 0x100 && (old(data)@.len() != 4 || spec_register_value(
            *cfg,
            device_type,
            offset,
        ) is None) ==> final(data)@ == old(data)@,
        0x100 <= offset <= 0xfff ==> spec_config_read(
            cfg.config_space@,
            offset - 0x100,
            old(data)@,
            final(data)@,
        ),
        offset > 0xfff ==> final(data)@ == old(data)@,
{
    if offset < 0x100 {
        if data.len() != 4 {
            return ;
        }
        let v: u32 = if offset == 0x00 {
            MMIO_MAGIC_VALUE
        } else if offset == 0x04 {
            MMIO_VERSION
        } else if offset == 0x08 {
            device_type
        } else if offset == 0x0c {
            VENDOR_ID
        } else if offset == 0x10 {
            let page = cfg.device_features(cfg.device_features_select);
            if cfg.device_features_select == 1 {
                page | 1
            } else {
                page
            }
        } else if offset == 0x34 {
            match cfg.queue() {
                Some(q) => q.max_size as u32,
                None => 0,
            }
        } else if offset == 0x44 {
            match cfg.queue() {
                Some(q) => if q.ready {
                    1
                } else {
                    0
                },
                None => 0,
            }
        } else if offset == 0x60 {
            cfg.interrupt_status as u32
        } else if offset == 0x70 {
            cfg.device_status as u32
        } else if offset == 0xfc {
            cfg.config_generation as u32
        } else {
            return ;
        };
        store_le_u32(data, v);
    } else if offset <= 0xfff {
        cfg.read_config((offset - 0x100) as usize, data);
    }
}

/// Handle a guest write to the MMIO window.
///
/// Register writes take effect as the map says, with feature acknowledgement
/// and queue mutation gated on the device status; a status write may hand
/// back an activation or reset demand for the caller to run.
pub fn mmio_write(cfg: &mut VirtioConfig, mem: &GuestMemoryMmap, offset: u64, data: &Vec<u8>) -> (
    act: StatusAction)
    ensures
        offset != 0x70 ==> act == StatusAction::Keep,
        offset == 0x70 && data@.len() != 4 ==> act == StatusAction::Keep,
        offset < 0x100 && data@.len() != 4 ==> *final(cfg) == *old(cfg),
        offset > 0xfff ==> *final(cfg) == *old(cfg),
        offset < 0x100 && data@.len() == 4 ==> {
            let v = spec_le_value(data@);
            &&& offset == 0x14 ==> *final(cfg) == (VirtioConfig {
                device_features_select: v,
                ..*old(cfg)
            })
            &&& offset == 0x24 ==> *final(cfg) == (VirtioConfig {
                driver_features_select: v,
                ..*old(cfg)
            })
            &&& offset == 0x20 ==> if spec_ack_open(*old(cfg)) {
                *final(cfg) == (VirtioConfig {
                    driver_features: spec_ack_features(
                        old(cfg).device_features,
                        old(cfg).driver_features,
                        old(cfg).driver_features_select,
                        v,
                    ),
                    ..*old(cfg)
                })
            } else {
                *final(cfg) == *old(cfg)
            }
            &&& offset == 0x30 ==> if v <= u16::MAX {
                *final(cfg) == (VirtioConfig { queue_select: v as u16, ..*old(cfg) })
            } else {
                *final(cfg) == *old(cfg)
            }
            &&& spec_is_queue_register(offset) ==> if spec_queue_fields_open(*old(cfg)) && old(
                cfg,
            ).queue_select < old(cfg).queues@.len() {
                *final(cfg) == (VirtioConfig {
                    queues: final(cfg).queues,
                    ..*old(cfg)
                }) && final(cfg).queues@ == old(cfg).queues@.update(
                    old(cfg).queue_select as int,
                    spec_queue_after_write(
                        old(cfg).queues@[old(cfg).queue_select as int],
                        offset,
                        v,
                    ),
                )
            } else {
                *final(cfg) == *old(cfg)
            }
            &&& offset == 0x64 ==> if old(cfg).device_status & DRIVER_OK == DRIVER_OK {
                *final(cfg) == (VirtioConfig {
                    interrupt_status: old(cfg).interrupt_status & !(v as u8),
                    ..*old(cfg)
                })
            } else {
                *final(cfg) == *old(cfg)
            }
            &&& offset == 0x70 ==> {
                &&& final(cfg).device_status == spec_status_after(
                    old(cfg).device_status,
                    v as u8,
                )
                &&& act == StatusAction::Activate <==> {
                    &&& old(cfg).device_status == (ACKNOWLEDGE | DRIVER | FEATURES_OK)
                    &&& (!old(cfg).device_status & (v as u8)) == DRIVER_OK
                    &&& !old(cfg).device_activated
                    &&& old(cfg).spec_queues_valid(*mem)
                }
                &&& act == StatusAction::Reset <==> !spec_lattice_step_ok(
                    old(cfg).device_status,
                    v as u8,
                ) && (v as u8) & FAILED == 0 && v as u8 == 0
                &&& *final(cfg) == (VirtioConfig {
                    device_status: final(cfg).device_status,
                    device_activated: final(cfg).device_activated,
                    ..*old(cfg)
                })
            }
            &&& !(offset == 0x14 || offset == 0x24 || offset == 0x20 || offset == 0x30
                || spec_is_queue_register(offset) || offset == 0x64 || offset == 0x70)
                ==> *final(cfg) == *old(cfg)
        },
        0x100 <= offset <= 0xfff ==> if spec_config_write_open(*old(cfg)) {
            spec_config_write(
                old(cfg).config_space@,
                offset - 0x100,
                data@,
                final(cfg).config_space@,
            ) && *final(cfg) == (VirtioConfig { config_space: final(cfg).config_space, ..*old(cfg) })
        } else {
            *final(cfg) == *old(cfg)
        },
{
    if offset < 0x100 {
        if data.len() != 4 {
            return StatusAction::Keep;
        }
        let v = load_le_u32(data);
        if offset == 0x14 {
            cfg.device_features_select = v;
            StatusAction::Keep
        } else if offset == 0x20 {
            if cfg.device_status & (DRIVER | FEATURES_OK | FAILED) == DRIVER {
                let page = cfg.driver_features_select;
                cfg.ack_features(page, v);
            }
            StatusAction::Keep
        } else if offset == 0x24 {
            cfg.driver_features_select = v;
            StatusAction::Keep
        } else if offset == 0x30 {
            if v <= u16::MAX as u32 {
                cfg.queue_select = v as u16;
            }
            StatusAction::Keep
        } else if offset == 0x38 || offset == 0x44 || offset == 0x80 || offset == 0x84 || offset
            == 0x90 || offset == 0x94 || offset == 0xa0 || offset == 0xa4 {
            if cfg.device_status & (FEATURES_OK | DRIVER_OK | FAILED) == FEATURES_OK && (
            cfg.queue_select as usize) < cfg.queues.len() {
                let qs = cfg.queue_select as usize;
                let q = cfg.queues[qs];
                let updated = if offset == 0x38 {
                    Queue { size: v as u16, ..q }
                } else if offset == 0x44 {
                    Queue { ready: v == 1, ..q }
                } else if offset == 0x80 {
                    Queue { desc_table: set_lo(q.desc_table, v), ..q }
                } else if offset == 0x84 {
                    Queue { desc_table: set_hi(q.desc_table, v), ..q }
                } else if offset == 0x90 {
                    Queue { avail_ring: set_lo(q.avail_ring, v), ..q }
                } else if offset == 0x94 {
                    Queue { avail_ring: set_hi(q.avail_ring, v), ..q }
                } else if offset == 0xa0 {
                    Queue { used_ring: set_lo(q.used_ring, v), ..q }
                } else {
                    Queue { used_ring: set_hi(q.used_ring, v), ..q }
                };
                cfg.queues[qs] = updated;
            }
            StatusAction::Keep
        } else if offset == 0x64 {
            if cfg.device_status & DRIVER_OK == DRIVER_OK {
                cfg.clear_interrupt_bits(v as u8);
            }
            StatusAction::Keep
        } else if offset == 0x70 {
            cfg.set_device_status(mem, v as u8)
        } else {
            StatusAction::Keep
        }
    } else if offset <= 0xfff {
        if cfg.device_status & (DRIVER | FAILED) == DRIVER {
            cfg.write_config((offset - 0x100) as usize, data);
        }
        StatusAction::Keep
    } else {
        StatusAction::Keep
    }
}

/// Replace the low 32 bits of a ring address.
fn set_lo(addr: u64, x: u32) -> (r: u64)
    ensures
        r == spec_set_lo(addr, x),
{
    (addr & 0xffff_ffff_0000_0000) | (x as u64)
}

/// Replace the high 32 bits of a ring address.
fn set_hi(addr: u64, x: u32) -> (r: u64)
    ensures
        r == spec_set_hi(addr, x),
{
    (addr & 0x0000_0000_ffff_ffff) | ((x as u64) << 32)
}

} // verus!