//! Generic per-device virtio state: the feature bitmaps and their page
//! selectors, the device-status ladder, queue selection, the configuration
//! space and the interrupt status byte.

use vstd::prelude::*;

use crate::device_status::{ACKNOWLEDGE, DRIVER, DRIVER_OK, FAILED, FEATURES_OK, RESET};
use crate::queue::Queue;
use vm_memory::GuestMemoryMmap;

verus! {

/// What the transport must do after a device-status write: nothing more, run
/// the device's activation logic, or run its reset logic.
#[derive(Clone, Copy, Debug, PartialEq, Eq, Structural)]
pub enum StatusAction {
    /// No further work.
    Keep,
    /// The driver completed bring-up: activate the device.
    Activate,
    /// The driver wrote zero: reset the device.
    Reset,
}

/// A common virtio device configuration representation, shared by the MMIO
/// transport and by device personalities.
pub struct VirtioConfig {
    /// The set of features exposed by the device.
    pub device_features: u64,
    /// The set of features acknowledged by the driver.
    pub driver_features: u64,
    /// Index of the current device features page.
    pub device_features_select: u32,
    /// Index of the current driver acknowledgement features page.
    pub driver_features_select: u32,
    /// Device status flags.
    pub device_status: u8,
    /// Index of the queue currently selected by the driver.
    pub queue_select: u16,
    /// Queues associated with the device.
    pub queues: Vec<Queue>,
    /// Configuration space generation number.
    pub config_generation: u8,
    /// Contents of the device configuration space.
    pub config_space: Vec<u8>,
    /// Whether the device has been activated.
    pub device_activated: bool,
    /// Device interrupt status byte, exposed through the transport.
    pub interrupt_status: u8,
}

/// Whether the driver's status write moves one legal rung up the bring-up
/// ladder: exactly one new bit, from exactly the ladder state below it.
pub open spec fn spec_lattice_step_ok(cur: u8, status: u8) -> bool {
    ||| (!cur & status) == ACKNOWLEDGE && cur == RESET
    ||| (!cur & status) == DRIVER && cur == ACKNOWLEDGE
    ||| (!cur & status) == FEATURES_OK && cur == (ACKNOWLEDGE | DRIVER)
    ||| (!cur & status) == DRIVER_OK && cur == (ACKNOWLEDGE | DRIVER | FEATURES_OK)
}

/// The device status after a driver write: the written value on a legal
/// ladder step, the failed bit glued on when the driver reports failure, and
/// otherwise no change (a zero write requests a reset but the status field
/// itself is the personality's to clear).
pub open spec fn spec_status_after(cur: u8, status: u8) -> u8 {
    if spec_lattice_step_ok(cur, status) {
        status
    } else if status & FAILED != 0 {
        cur | FAILED
    } else {
        cur
    }
}

/// The 32-bit page of a 64-bit feature bitmap: low half, high half, or zero
/// for an unknown page index.
pub open spec fn spec_feature_page(features: u64, page: u32) -> u32 {
    if page == 0 {
        features as u32
    } else if page == 1 {
        (features >> 32) as u32
    } else {
        0u32
    }
}

/// The driver features after acknowledging `value` on `page`: the written
/// bits, shifted into place, masked to what the device offered, OR-ed in.
pub open spec fn spec_ack_features(
    device_features: u64,
    driver_features: u64,
    page: u32,
    value: u32,
) -> u64 {
    let v = if page == 0 {
        value as u64
    } else if page == 1 {
        (value as u64) << 32
    } else {
        0u64
    };
    driver_features | (v & device_features)
}

impl VirtioConfig {
    /// Every queue of the configuration is valid against `m`.
    pub open spec fn spec_queues_valid(self, m: GuestMemoryMmap) -> bool {
        forall|i: int| 0 <= i < self.queues@.len() ==> self.queues@[i].valid(m)
    }

    /// Build and initialize a `VirtioConfig` object: status and selectors
    /// zero, nothing acknowledged, nothing activated.
    pub fn new(device_features: u64, queues: Vec<Queue>, config_space: Vec<u8>) -> (r:
        VirtioConfig)
        ensures
            r.device_features == device_features,
            r.queues == queues,
            r.config_space == config_space,
            r.driver_features == 0,
            r.device_features_select == 0,
            r.driver_features_select == 0,
            r.device_status == 0,
            r.queue_select == 0,
            r.config_generation == 0,
            !r.device_activated,
            r.interrupt_status == 0,
    {
        VirtioConfig {
            device_features,
            driver_features: 0,
            device_features_select: 0,
            driver_features_select: 0,
            device_status: 0,
            queue_select: 0,
            queues,
            config_generation: 0,
            config_space,
            device_activated: false,
            interrupt_status: 0,
        }
    }

    /// How many 32-bit pages the 64-bit feature bitmaps span.
    pub fn num_feature_pages(&self) -> (r: u32)
        ensures
            r == 2,
    {
        2
    }

    /// The number of queues of the device.
    pub fn num_queues(&self) -> (r: u16)
        requires
            self.queues@.len() <= u16::MAX,
        ensures
            r == self.queues@.len(),
    {
        self.queues.len() as u16
    }

    /// The queue currently selected by the driver, or nothing for an invalid
    /// selection.
    pub fn queue(&self) -> (r: Option<Queue>)
        ensures
            match r {
                Some(q) => self.queue_select < self.queues@.len() && q == self.queues@[self.queue_select as int],
                None => self.queue_select >= self.queues@.len(),
            },
    {
        if (self.queue_select as usize) < self.queues.len() {
            Some(self.queues[self.queue_select as usize])
        } else {
            None
        }
    }

    /// The features the device exposes on `page`.
    pub fn device_features(&self, page: u32) -> (r: u32)
        ensures
            r == spec_feature_page(self.device_features, page),
    {
        if page == 0 {
            self.device_features as u32
        } else if page == 1 {
            (self.device_features >> 32) as u32
        } else {
            0
        }
    }

    /// The features the driver has acknowledged, read back on `page`.
    pub fn driver_features(&self, page: u32) -> (r: u32)
        ensures
            r == spec_feature_page(self.driver_features, page),
    {
        if page == 0 {
            self.driver_features as u32
        } else if page == 1 {
            (self.driver_features >> 32) as u32
        } else {
            0
        }
    }

    /// Acknowledge the driver's feature bits on `page`: bits the device never
    /// offered are masked off, the rest are OR-ed into the acknowledged set.
    pub fn ack_features(&mut self, page: u32, value: u32)
        ensures
            *final(self) == (VirtioConfig {
                driver_features: spec_ack_features(
                    old(self).device_features,
                    old(self).driver_features,
                    page,
                    value,
                ),
                ..*old(self)
            }),
    {
        let v: u64 = if page == 0 {
            value as u64
        } else if page == 1 {
            (value as u64) << 32
        } else {
            0
        };
        self.driver_features = self.driver_features | (v & self.device_features);
    }

    /// The current device status flags.
    pub fn device_status(&self) -> (r: u8)
        ensures
            r == self.device_status,
    {
        self.device_status
    }

    /// Validate the device status against a group of flags that must be set
    /// and another that must be cleared.
    pub fn check_device_status(&self, set: u8, cleared: u8) -> (r: bool)
        ensures
            r == (self.device_status & (set | cleared) == set),
    {
        self.device_status & (set | cleared) == set
    }

    /// Decide whether all queues of the device are valid against `m`.
    pub fn queues_valid(&self, mem: &GuestMemoryMmap) -> (r: bool)
        ensures
            r == self.spec_queues_valid(*mem),
    {
        let n = self.queues.len();
        let mut i: usize = 0;
        while i < n
            invariant
                n == self.queues@.len(),
                i <= n,
                forall|j: int| 0 <= j < i ==> self.queues@[j].valid(*mem),
            decreases n - i,
        {
            if !self.queues[i].is_valid(mem) {
                return false;
            }
            i = i + 1;
        }
        true
    }

    /// Acknowledge a status write from the driver.
    ///
    /// Legal ladder steps take effect; a write with the failed bit glues that
    /// bit on; a zero write asks for a device reset; anything else leaves the
    /// status unchanged.  On the final ladder step the device is to be
    /// activated once, and only with all queues valid.
    pub fn set_device_status(&mut self, mem: &GuestMemoryMmap, status: u8) -> (act: StatusAction)
        ensures
            final(self).device_status == spec_status_after(old(self).device_status, status),
            act == StatusAction::Activate <==> {
                &&& old(self).device_status == (ACKNOWLEDGE | DRIVER | FEATURES_OK)
                &&& (!old(self).device_status & status) == DRIVER_OK
                &&& !old(self).device_activated
                &&& old(self).spec_queues_valid(*mem)
            },
            act == StatusAction::Reset <==> !spec_lattice_step_ok(old(self).device_status, status)
                && status & FAILED == 0 && status == 0,
            final(self).device_activated == (old(self).device_activated || act
                == StatusAction::Activate),
            *final(self) == (VirtioConfig {
                device_status: final(self).device_status,
                device_activated: final(self).device_activated,
                ..*old(self)
            }),
            !spec_lattice_step_ok(old(self).device_status, status) && status & FAILED == 0
                && status != 0 ==> *final(self) == *old(self) && act == StatusAction::Keep,
    {
        let cur = self.device_status;
        let changed = !cur & status;
        if changed == ACKNOWLEDGE && cur == RESET {
            self.device_status = status;
            StatusAction::Keep
        } else if changed == DRIVER && cur == ACKNOWLEDGE {
            self.device_status = status;
            StatusAction::Keep
        } else if changed == FEATURES_OK && cur == (ACKNOWLEDGE | DRIVER) {
            self.device_status = status;
            StatusAction::Keep
        } else if changed == DRIVER_OK && cur == (ACKNOWLEDGE | DRIVER | FEATURES_OK) {
            self.device_status = status;
            if !self.device_activated && self.queues_valid(mem) {
                self.device_activated = true;
                StatusAction::Activate
            } else {
                StatusAction::Keep
            }
        } else if status & FAILED != 0 {
            self.device_status = cur | FAILED;
            StatusAction::Keep
        } else if status == 0 {
            StatusAction::Reset
        } else {
            StatusAction::Keep
        }
    }

    /// Revoke the driver-written state on a device reset: the status and
    /// the acknowledged features cleared, the device no longer activated,
    /// the interrupt status dropped, and every queue reset to its
    /// construction shape.  The offered features, the selectors and the
    /// configuration space stay, as the driver rewrites or rereads them.
    pub fn reset(&mut self)
        ensures
            *final(self) == (VirtioConfig {
                driver_features: 0u64,
                device_status: 0u8,
                queues: final(self).queues,
                device_activated: false,
                interrupt_status: 0u8,
                ..*old(self)
            }),
            final(self).queues@.len() == old(self).queues@.len(),
            forall|i: int|
                0 <= i < old(self).queues@.len() ==> final(self).queues@[i] == (Queue {
                    size: old(self).queues@[i].max_size,
                    ready: false,
                    next_avail: 0u16,
                    next_used: 0u16,
                    signalled_used: None::<u16>,
                    ..old(self).queues@[i]
                }),
    {
        let n = self.queues.len();
        let mut i: usize = 0;
        while i < n
            invariant
                n == self.queues@.len(),
                n == old(self).queues@.len(),
                i <= n,
                *self == (VirtioConfig { queues: self.queues, ..*old(self) }),
                forall|j: int|
                    0 <= j < i ==> self.queues@[j] == (Queue {
                        size: old(self).queues@[j].max_size,
                        ready: false,
                        next_avail: 0u16,
                        next_used: 0u16,
                        signalled_used: None::<u16>,
                        ..old(self).queues@[j]
                    }),
                forall|j: int| i <= j < n ==> self.queues@[j] == old(self).queues@[j],
            decreases n - i,
        {
            let mut q = self.queues[i];
            q.reset();
            self.queues[i] = q;
            i = i + 1;
        }
        self.device_status = 0;
        self.driver_features = 0;
        self.device_activated = false;
        self.interrupt_status = 0;
    }

    /// The current config generation value.
    pub fn config_generation(&self) -> (r: u8)
        ensures
            r == self.config_generation,
    {
        self.config_generation
    }

    /// Copy from the configuration space at `offset` into the front of
    /// `data`, truncating at the end of the space; an out-of-range offset
    /// copies nothing.  Bytes of `data` past the copied part are unchanged.
    pub fn read_config(&self, offset: usize, data: &mut Vec<u8>)
        ensures
            final(data)@.len() == old(data)@.len(),
            offset >= self.config_space@.len() ==> final(data)@ == old(data)@,
            offset < self.config_space@.len() ==> {
                let n = if old(data)@.len() <= self.config_space@.len() - offset {
                    old(data)@.len() as int
                } else {
                    self.config_space@.len() - offset
                };
                &&& forall|i: int| 0 <= i < n ==> final(data)@[i] == self.config_space@[offset + i]
                &&& forall|i: int| n <= i < old(data)@.len() ==> final(data)@[i] == old(data)@[i]
            },
    {
        let config_len = self.config_space.len();
        if offset >= config_len {
            return ;
        }
        let n = if data.len() <= config_len - offset {
            data.len()
        } else {
            config_len - offset
        };
        let mut i: usize = 0;
        while i < n
            invariant
                n <= data@.len(),
                offset + n <= self.config_space@.len(),
                offset + n <= usize::MAX,
                i <= n,
                data@.len() == old(data)@.len(),
                forall|j: int| 0 <= j < i ==> data@[j] == self.config_space@[offset + j],
                forall|j: int| i <= j < data@.len() ==> data@[j] == old(data)@[j],
            decreases n - i,
        {
            let b = self.config_space[offset + i];
            data[i] = b;
            i = i + 1;
        }
    }

    /// Copy `data` into the configuration space at `offset`, truncating at
    /// the end of the space; an out-of-range offset writes nothing.  The
    /// length of the space never changes.
    pub fn write_config(&mut self, offset: usize, data: &Vec<u8>)
        ensures
            final(self).config_space@.len() == old(self).config_space@.len(),
            *final(self) == (VirtioConfig { config_space: final(self).config_space, ..*old(self) }),
            offset >= old(self).config_space@.len() ==> final(self).config_space@ == old(
                self,
            ).config_space@,
            offset < old(self).config_space@.len() ==> {
                let n = if data@.len() <= old(self).config_space@.len() - offset {
                    data@.len() as int
                } else {
                    old(self).config_space@.len() - offset
                };
                &&& forall|i: int|
                    0 <= i < n ==> final(self).config_space@[offset + i] == data@[i]
                &&& forall|i: int|
                    0 <= i < old(self).config_space@.len() && !(offset <= i < offset + n)
                        ==> final(self).config_space@[i] == old(self).config_space@[i]
            },
    {
        let config_len = self.config_space.len();
        if offset >= config_len {
            return ;
        }
        let n = if data.len() <= config_len - offset {
            data.len()
        } else {
            config_len - offset
        };
        let mut i: usize = 0;
        while i < n
            invariant
                n <= data@.len(),
                offset + n <= self.config_space@.len(),
                offset + n <= usize::MAX,
                i <= n,
                self.config_space@.len() == old(self).config_space@.len(),
                *self == (VirtioConfig { config_space: self.config_space, ..*old(self) }),
                forall|j: int| 0 <= j < i ==> self.config_space@[offset + j] == data@[j],
                forall|j: int|
                    0 <= j < self.config_space@.len() && !(offset <= j < offset + i)
                        ==> self.config_space@[j] == old(self).config_space@[j],
            decreases n - i,
        {
            let b = data[i];
            self.config_space[offset + i] = b;
            i = i + 1;
        }
    }

    /// The current interrupt status byte.
    pub fn interrupt_status(&self) -> (r: u8)
        ensures
            r == self.interrupt_status,
    {
        self.interrupt_status
    }

    /// Raise interrupt status bits, as the device does when it has used
    /// buffers or changed the configuration.
    pub fn set_interrupt_bits(&mut self, mask: u8)
        ensures
            *final(self) == (VirtioConfig {
                interrupt_status: old(self).interrupt_status | mask,
                ..*old(self)
            }),
    {
        self.interrupt_status = self.interrupt_status | mask;
    }

    /// Clear interrupt status bits, as the interrupt-acknowledge register
    /// write does.
    pub fn clear_interrupt_bits(&mut self, mask: u8)
        ensures
            *final(self) == (VirtioConfig {
                interrupt_status: old(self).interrupt_status & !mask,
                ..*old(self)
            }),
    {
        self.interrupt_status = self.interrupt_status & !mask;
    }
}

/// Implemented by types that hold a `VirtioConfig`, so transports can reach
/// the shared representation.
pub trait WithVirtioConfig {
    /// The configuration the other methods expose.
    spec fn config_view(&self) -> VirtioConfig;

    /// The virtio device type.
    fn device_type(&self) -> u32;

    /// Return a reference to the inner `VirtioConfig` object.
    fn virtio_config(&self) -> (r: &VirtioConfig)
        ensures
            *r == self.config_view(),
    ;

    /// Return a mutable reference to the inner `VirtioConfig` object.
    fn virtio_config_mut(&mut self) -> (r: &mut VirtioConfig)
        ensures
            *r == old(self).config_view(),
            final(self).config_view() == *final(r),
    ;

    /// Hook invoked when the guest writes the queue-notify register; does
    /// nothing unless the device overrides it.
    fn queue_notify(&mut self, _val: u32) {
    }
}

/// Implemented by device personalities: the logic run when the driver
/// finishes bring-up and when it requests a reset.
pub trait WithDeviceOps {
    /// Type of the error that can be returned by `activate` and `reset`.
    type E;

    /// Invoke the logic associated with activating this device.
    fn activate(&mut self) -> Result<(), Self::E>;

    /// Invoke the logic associated with resetting this device.
    fn reset(&mut self) -> Result<(), Self::E>;
}

/// A minimal device personality: nothing beyond the shared configuration,
/// with activation and reset that always succeed.
pub struct SomeDevice {
    /// The shared virtio configuration.
    pub cfg: VirtioConfig,
}

impl WithVirtioConfig for SomeDevice {
    open spec fn config_view(&self) -> VirtioConfig {
        self.cfg
    }

    fn device_type(&self) -> u32 {
        // A balloon device, for the sake of the example.
        5
    }

    fn virtio_config(&self) -> (r: &VirtioConfig) {
        &self.cfg
    }

    fn virtio_config_mut(&mut self) -> (r: &mut VirtioConfig) {
        &mut self.cfg
    }
}

impl WithDeviceOps for SomeDevice {
    type E = ();

    fn activate(&mut self) -> Result<(), Self::E> {
        Ok(())
    }

    fn reset(&mut self) -> Result<(), Self::E> {
        Ok(())
    }
}

} // verus!
