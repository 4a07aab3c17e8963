//! The Device Status field bits, as the driver sets them while bringing the
//! device up: `RESET` -> `ACKNOWLEDGE` -> `DRIVER` -> `FEATURES_OK` ->
//! `DRIVER_OK`, with `FAILED` and `DEVICE_NEEDS_RESET` outside the ladder.

use vstd::prelude::*;

verus! {

/// The initial status of the device; writing it requests a device reset.
pub const RESET: u8 = 0;
/// The guest OS has found the device and recognized it as a valid virtio
/// device.
pub const ACKNOWLEDGE: u8 = 1;
/// The guest OS knows how to drive the device.
pub const DRIVER: u8 = 2;
/// The driver is set up and ready to drive the device.
pub const DRIVER_OK: u8 = 4;
/// The driver has acknowledged all the features it understands; feature
/// negotiation is complete.
pub const FEATURES_OK: u8 = 8;
/// The device has experienced an error from which it cannot recover.
pub const DEVICE_NEEDS_RESET: u8 = 64;
/// Something went wrong in the guest and it has given up on the device.
pub const FAILED: u8 = 128;

} // verus!
