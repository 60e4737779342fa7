//! The bus of memory-mapped device registers.
//!
//! A bus maps disjoint address ranges to device handles. The registries own the devices;
//! the bus only knows the handle under which a range was registered.

use vstd::prelude::*;

verus! {

/// A bus of memory-mapped registers, kept by `vm_device::bus::Bus`.
#[verifier::external_body]
pub struct Bus {
    inner: vm_device::bus::MmioBus<u64>,
}

#[verifier::external_type_specification]
#[verifier::external_body]
pub struct ExBusError(vm_device::bus::Error);

/// The ranges registered on a bus: each first address with the length of its range and
/// the handle of the device behind it.
pub uninterp spec fn bus_ranges(bus: Bus) -> Map<u64, (u64, u64)>;

/// Whether `len` addresses from `base` on form a range that a bus accepts.
pub open spec fn range_valid(base: u64, len: u64) -> bool {
    len > 0 && base + len - 1 <= u64::MAX
}

/// Whether the ranges of `len_a` addresses from `a` on and of `len_b` addresses from `b`
/// on share an address.
pub open spec fn regions_overlap(a: u64, len_a: u64, b: u64, len_b: u64) -> bool {
    a <= b + len_b - 1 && b <= a + len_a - 1
}

/// Whether the range of `len` addresses from `base` on shares an address with a range
/// of `ranges`.
pub open spec fn overlaps_any(ranges: Map<u64, (u64, u64)>, base: u64, len: u64) -> bool {
    exists|b: u64| #[trigger] ranges.contains_key(b) && regions_overlap(base, len, b, ranges[b].0)
}

/// Whether `addr` lies in the range that `ranges` holds under the first address `b`.
pub open spec fn range_holds(ranges: Map<u64, (u64, u64)>, b: u64, addr: u64) -> bool {
    ranges.contains_key(b) && b <= addr <= b + ranges[b].0 - 1
}

/// `vm_device::bus::Bus::new`: a bus with no range registered.
#[verifier::external_body]
fn bus_new() -> (bus: Bus)
    ensures
        bus_ranges(bus) =~= Map::empty(),
{
    Bus { inner: vm_device::bus::Bus::new() }
}

/// `vm_device::bus::BusRange::new`, then `vm_device::bus::Bus::register`: registers the
/// range exactly when it is a valid range that overlaps no registered one; a failed call
/// changes nothing.
#[verifier::external_body]
fn bus_register(bus: &mut Bus, base: u64, len: u64, device: u64) -> (r: Result<
    (),
    vm_device::bus::Error,
>)
    ensures
        r is Ok <==> range_valid(base, len) && !overlaps_any(bus_ranges(*old(bus)), base, len),
        r is Ok ==> bus_ranges(*final(bus)) == bus_ranges(*old(bus)).insert(base, (len, device)),
        r is Err ==> bus_ranges(*final(bus)) == bus_ranges(*old(bus)),
{
    let range = vm_device::bus::MmioRange::new(vm_device::bus::MmioAddress(base), len)?;
    bus.inner.register(range, device)
}

/// `vm_device::bus::Bus::device`: the registered range that holds `addr`, as (first
/// address, length, device handle), or nothing when no registered range holds it.
#[verifier::external_body]
fn bus_device(bus: &Bus, addr: u64) -> (r: Option<(u64, u64, u64)>)
    ensures
        r matches Some(found) ==> range_holds(bus_ranges(*bus), found.0, addr) && bus_ranges(
            *bus,
        )[found.0] == (found.1, found.2),
        r is None ==> forall|b: u64| !range_holds(bus_ranges(*bus), b, addr),
{
    bus.inner.device(vm_device::bus::MmioAddress(addr)).map(
        |(range, device)| (range.base().0, range.size(), *device),
    )
}

/// Why a range could not be put on a bus.
#[derive(Clone, Copy, Debug, PartialEq, Eq, Structural)]
pub enum BusError {
    /// The range is empty or runs past the end of the address space.
    InvalidRange,
    /// The range overlaps a range that is already on the bus.
    Overlap,
}

impl Bus {
    /// The ranges on this bus: first address to (length, device handle).
    pub open spec fn ranges(&self) -> Map<u64, (u64, u64)> {
        bus_ranges(*self)
    }

    /// A bus with no range on it.
    pub fn new() -> (bus: Self)
        ensures
            bus.ranges() == Map::<u64, (u64, u64)>::empty(),
    {
        bus_new()
    }

    /// Puts the range of `len` addresses from `base` on under the handle `device`, unless
    /// it is invalid or overlaps a range already there.
    pub fn insert(&mut self, device: u64, base: u64, len: u64) -> (r: Result<(), BusError>)
        ensures
            match r {
                Ok(()) => {
                    &&& range_valid(base, len)
                    &&& !overlaps_any(old(self).ranges(), base, len)
                    &&& final(self).ranges() == old(self).ranges().insert(base, (len, device))
                },
                Err(BusError::InvalidRange) => {
                    &&& !range_valid(base, len)
                    &&& final(self).ranges() == old(self).ranges()
                },
                Err(BusError::Overlap) => {
                    &&& range_valid(base, len)
                    &&& overlaps_any(old(self).ranges(), base, len)
                    &&& final(self).ranges() == old(self).ranges()
                },
            },
    {
        if len == 0 || base > u64::MAX - (len - 1) {
            return Err(BusError::InvalidRange);
        }
        match bus_register(self, base, len, device) {
            Ok(()) => Ok(()),
            Err(_) => Err(BusError::Overlap),
        }
    }

    /// The range that holds `addr`, as (first address, length, device handle).
    pub fn lookup(&self, addr: u64) -> (r: Option<(u64, u64, u64)>)
        ensures
            r matches Some(found) ==> range_holds(self.ranges(), found.0, addr)
                && self.ranges()[found.0] == (found.1, found.2),
            r is None ==> forall|b: u64| !range_holds(self.ranges(), b, addr),
    {
        bus_device(self, addr)
    }
}

} // verus!
