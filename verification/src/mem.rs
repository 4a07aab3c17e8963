//! Trusted boundary to the guest-memory abstraction.
//!
//! The rings live in memory that the guest shares with the device, so every
//! value read through this boundary is treated as adversarial: no contract
//! below says anything about the bytes that come back, only about when an
//! access succeeds.  The region map of a memory object is fixed at
//! construction, which is what lets `mem_holds` and `mem_spans` be spoken of
//! as functions of the object.

use vstd::prelude::*;

use vm_memory::GuestMemoryMmap;

verus! {

#[verifier::external_type_specification]
#[verifier::external_body]
#[verifier::reject_recursive_types(R)]
pub struct ExGuestRegionCollection<R>(vm_memory::GuestRegionCollection<R>);

#[verifier::external_type_specification]
#[verifier::external_body]
#[verifier::reject_recursive_types(B)]
pub struct ExGuestRegionMmap<B>(vm_memory::GuestRegionMmap<B>);

/// Whether the single byte address `addr` lies inside a mapped region of `m`.
pub uninterp spec fn mem_holds(m: GuestMemoryMmap, addr: int) -> bool;

/// Whether the byte range `[addr, addr + len)` is entirely covered by the
/// mapped regions of `m`, without a hole.
pub uninterp spec fn mem_spans(m: GuestMemoryMmap, addr: int, len: int) -> bool;

/// Relies on `GuestMemoryBackend::address_in_range`: true exactly when the
/// address falls inside one of the memory's regions.
#[verifier::external_body]
pub fn check_address(m: &GuestMemoryMmap, addr: u64) -> (r: bool)
    ensures
        r == mem_holds(*m, addr as int),
{
    vm_memory::GuestMemoryBackend::address_in_range(m, vm_memory::GuestAddress(addr))
}

/// Relies on `GuestMemoryBackend::check_range`: true exactly when the whole
/// range is covered by the memory's regions.  Coverage is per byte, so a
/// covered range's every subrange is covered too, which the second clause
/// hands to verified callers; and no region reaches past the top address,
/// so a covered range never does either.
#[verifier::external_body]
pub fn check_span(m: &GuestMemoryMmap, addr: u64, len: usize) -> (r: bool)
    ensures
        r == mem_spans(*m, addr as int, len as int),
        r ==> forall|a2: int, l2: int|
            addr <= a2 && 0 <= l2 && a2 + l2 <= addr + len ==> #[trigger] mem_spans(*m, a2, l2),
        r ==> addr + len <= u64::MAX + 1,
{
    vm_memory::GuestMemoryBackend::check_range(m, vm_memory::GuestAddress(addr), len)
}

/// Relies on `Bytes::read_obj::<u16>`: succeeds exactly when the two bytes are
/// mapped; the value itself is whatever the guest last put there.
#[verifier::external_body]
pub fn read_u16(m: &GuestMemoryMmap, addr: u64) -> (r: Option<u16>)
    ensures
        r is Some <==> mem_spans(*m, addr as int, 2),
{
    vm_memory::Bytes::read_obj::<u16>(m, vm_memory::GuestAddress(addr)).ok()
}

/// Relies on `Bytes::read_obj::<u32>`: succeeds exactly when the four bytes
/// are mapped; the value itself is whatever the guest last put there.
#[verifier::external_body]
pub fn read_u32(m: &GuestMemoryMmap, addr: u64) -> (r: Option<u32>)
    ensures
        r is Some <==> mem_spans(*m, addr as int, 4),
{
    vm_memory::Bytes::read_obj::<u32>(m, vm_memory::GuestAddress(addr)).ok()
}

/// Relies on `Bytes::read_obj::<u64>`: succeeds exactly when the eight bytes
/// are mapped; the value itself is whatever the guest last put there.
#[verifier::external_body]
pub fn read_u64(m: &GuestMemoryMmap, addr: u64) -> (r: Option<u64>)
    ensures
        r is Some <==> mem_spans(*m, addr as int, 8),
{
    vm_memory::Bytes::read_obj::<u64>(m, vm_memory::GuestAddress(addr)).ok()
}

/// Relies on `Bytes::write_obj::<u8>`: succeeds exactly when the byte is
/// mapped.
#[verifier::external_body]
pub fn write_u8(m: &GuestMemoryMmap, addr: u64, val: u8) -> (ok: bool)
    ensures
        ok <==> mem_spans(*m, addr as int, 1),
{
    vm_memory::Bytes::write_obj::<u8>(m, val, vm_memory::GuestAddress(addr)).is_ok()
}

/// Relies on `Bytes::write_obj::<u16>`: succeeds exactly when the two bytes
/// are mapped.
#[verifier::external_body]
pub fn write_u16(m: &GuestMemoryMmap, addr: u64, val: u16) -> (ok: bool)
    ensures
        ok <==> mem_spans(*m, addr as int, 2),
{
    vm_memory::Bytes::write_obj::<u16>(m, val, vm_memory::GuestAddress(addr)).is_ok()
}

/// Relies on `Bytes::write_obj::<u32>`: succeeds exactly when the four bytes
/// are mapped.
#[verifier::external_body]
pub fn write_u32(m: &GuestMemoryMmap, addr: u64, val: u32) -> (ok: bool)
    ensures
        ok <==> mem_spans(*m, addr as int, 4),
{
    vm_memory::Bytes::write_obj::<u32>(m, val, vm_memory::GuestAddress(addr)).is_ok()
}

/// Relies on `Bytes::load::<u16>` with relaxed ordering: an atomic read used
/// for the event-index hint fields.  It can fail even on a mapped range (for
/// example on a misaligned address), so only the forward direction is stated.
#[verifier::external_body]
pub fn load_u16_relaxed(m: &GuestMemoryMmap, addr: u64) -> (r: Option<u16>)
    ensures
        r is Some ==> mem_spans(*m, addr as int, 2),
{
    vm_memory::Bytes::load::<u16>(
        m,
        vm_memory::GuestAddress(addr),
        std::sync::atomic::Ordering::Relaxed,
    )
    .ok()
}

/// Relies on `Bytes::store::<u16>` with relaxed ordering: an atomic write used
/// for the event-index hint fields.
#[verifier::external_body]
pub fn store_u16_relaxed(m: &GuestMemoryMmap, addr: u64, val: u16) -> (ok: bool)
    ensures
        ok ==> mem_spans(*m, addr as int, 2),
{
    vm_memory::Bytes::store::<u16>(
        m,
        val,
        vm_memory::GuestAddress(addr),
        std::sync::atomic::Ordering::Relaxed,
    )
    .is_ok()
}

/// Relies on `std::sync::atomic::fence` with release ordering: makes the used
/// element writes visible to the guest before the index update that follows.
#[verifier::external_body]
pub fn release_fence() {
    std::sync::atomic::fence(std::sync::atomic::Ordering::Release);
}

/// The address `base + offset` when it is mapped: overflow-checked address
/// arithmetic over `mem_holds`.
pub fn checked_offset(m: &GuestMemoryMmap, base: u64, offset: u64) -> (r: Option<u64>)
    ensures
        match r {
            Some(a) => a == base + offset && mem_holds(*m, base + offset),
            None => base + offset > u64::MAX || !mem_holds(*m, base + offset),
        },
{
    match base.checked_add(offset) {
        Some(a) => {
            if check_address(m, a) {
                Some(a)
            } else {
                None
            }
        },
        None => None,
    }
}

} // verus!
