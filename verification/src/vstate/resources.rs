//! Allocation of interrupt lines and guest-physical address ranges.

use vstd::prelude::*;

use crate::arch;

verus! {

#[verifier::external_type_specification]
#[verifier::external_body]
pub struct ExIdAllocator(vm_allocator::IdAllocator);

#[verifier::external_type_specification]
#[verifier::external_body]
pub struct ExAddressAllocator(vm_allocator::AddressAllocator);

#[verifier::external_type_specification]
#[verifier::external_body]
pub struct ExAllocatorError(vm_allocator::Error);

/// The ids that an id allocator has handed out and not taken back.
pub uninterp spec fn id_allocated(a: vm_allocator::IdAllocator) -> Set<u32>;

/// First and last id of the range that an id allocator was made for.
pub uninterp spec fn id_limits(a: vm_allocator::IdAllocator) -> (u32, u32);

/// The address ranges, as (first, last) address, that an address allocator has handed out.
pub uninterp spec fn address_allocated(a: vm_allocator::AddressAllocator) -> Set<(u64, u64)>;

/// First and last address of the space that an address allocator was made for.
pub uninterp spec fn address_limits(a: vm_allocator::AddressAllocator) -> (u64, u64);

/// The address ranges, as (first, last) address, that an address allocator holds as free.
/// A request is served from one of them; two of them may lie side by side.
pub uninterp spec fn address_free(a: vm_allocator::AddressAllocator) -> Set<(u64, u64)>;

/// Where in the free space a range is looked for.
#[derive(Clone, Copy, Debug, PartialEq, Eq, Structural)]
pub enum AllocPolicy {
    /// The lowest fitting place.
    FirstMatch,
    /// The highest fitting place.
    LastMatch,
    /// Exactly at the given address.
    ExactMatch(u64),
}

/// Whether the closed ranges `a` and `b` share an address.
pub open spec fn ranges_overlap(a: (u64, u64), b: (u64, u64)) -> bool {
    a.0 <= b.1 && b.0 <= a.1
}

/// `vm_allocator::IdAllocator::new`: fails exactly when the range is empty; a new
/// allocator has handed out nothing.
#[verifier::external_body]
pub(crate) fn id_allocator_new(base: u32, end: u32) -> (r: Result<
    vm_allocator::IdAllocator,
    vm_allocator::Error,
>)
    ensures
        r is Ok <==> base <= end,
        r matches Ok(a) ==> id_allocated(a) == Set::<u32>::empty() && id_limits(a) == (base, end),
{
    vm_allocator::IdAllocator::new(base, end)
}

/// `vm_allocator::IdAllocator::allocate_id`: hands out the smallest id of the range that
/// is not handed out, and fails, changing nothing, exactly when there is none.
#[verifier::external_body]
pub(crate) fn id_allocate(a: &mut vm_allocator::IdAllocator) -> (r: Result<
    u32,
    vm_allocator::Error,
>)
    ensures
        id_limits(*final(a)) == id_limits(*old(a)),
        match r {
            Ok(id) => {
                &&& id_limits(*old(a)).0 <= id <= id_limits(*old(a)).1
                &&& !id_allocated(*old(a)).contains(id)
                &&& forall|j: u32|
                    id_limits(*old(a)).0 <= j < id ==> id_allocated(*old(a)).contains(j)
                &&& id_allocated(*final(a)) == id_allocated(*old(a)).insert(id)
            },
            Err(_) => {
                &&& forall|j: u32|
                    id_limits(*old(a)).0 <= j <= id_limits(*old(a)).1 ==> id_allocated(
                        *old(a),
                    ).contains(j)
                &&& id_allocated(*final(a)) == id_allocated(*old(a))
            },
        },
{
    a.allocate_id()
}

/// `vm_allocator::IdAllocator::free_id`: takes back an id that is handed out, and fails,
/// changing nothing, for any other id.
#[verifier::external_body]
pub(crate) fn id_free(a: &mut vm_allocator::IdAllocator, id: u32) -> (r: Result<
    u32,
    vm_allocator::Error,
>)
    ensures
        id_limits(*final(a)) == id_limits(*old(a)),
        r is Ok <==> id_allocated(*old(a)).contains(id),
        r matches Ok(freed) ==> freed == id && id_allocated(*final(a)) == id_allocated(
            *old(a),
        ).remove(id),
        r is Err ==> id_allocated(*final(a)) == id_allocated(*old(a)),
{
    a.free_id(id)
}

/// Whether `size` addresses from `base` on form a space that an address allocator accepts.
pub open spec fn address_space_valid(base: u64, size: u64) -> bool {
    &&& size > 0
    &&& base + size - 1 <= u64::MAX
    &&& !(base == 0 && size - 1 == u64::MAX)
}

/// The one free range of a new address space of `size` addresses from `base` on.
pub open spec fn whole_space(base: u64, size: u64) -> Set<(u64, u64)> {
    set![(base, (base + size - 1) as u64)]
}

/// `vm_allocator::AddressAllocator::new`: manages `size` addresses from `base` on; fails
/// exactly when `size` is zero, the last address does not fit in 64 bits, or the space
/// would be the whole 64-bit range. A new allocator has handed out nothing and holds its
/// whole space as one free range.
#[verifier::external_body]
pub(crate) fn address_allocator_new(base: u64, size: u64) -> (r: Result<
    vm_allocator::AddressAllocator,
    vm_allocator::Error,
>)
    ensures
        r is Ok <==> address_space_valid(base, size),
        r matches Ok(a) ==> address_allocated(a) =~= Set::empty() && address_free(a)
            == whole_space(base, size) && address_limits(a) == (base, (base + size - 1) as u64),
{
    vm_allocator::AddressAllocator::new(base, size)
}

/// Whether the space of `a` has fewer than 2^32 addresses. The allocator keeps its ranges
/// in a balanced tree that refuses to grow beyond a height of 50, whatever is free; with
/// so few addresses, and so at most as many ranges, the tree stays below that height.
pub open spec fn address_small(a: vm_allocator::AddressAllocator) -> bool {
    address_limits(a).1 - address_limits(a).0 < 0x1_0000_0000
}

/// Whether `a` holds fewer than 2^32 ranges, free and handed out together. Its balanced
/// tree then stays below the height of 50 at which it refuses to grow, however large the
/// space is. A new allocator holds one range, and a request that is served adds at most
/// two.
pub open spec fn address_few(a: vm_allocator::AddressAllocator) -> bool {
    &&& address_allocated(a).finite()
    &&& address_free(a).finite()
    &&& address_allocated(a).len() + address_free(a).len() < 0x1_0000_0000
}

/// Whether `alignment` is a power of two.
pub open spec fn power_of_two(alignment: u64) -> bool {
    alignment > 0 && (alignment & ((alignment - 1) as u64)) == 0
}

/// The lowest multiple of `alignment` that is not below `addr`.
pub open spec fn aligned_up(addr: int, alignment: u64) -> int {
    ((addr + alignment - 1) / (alignment as int)) * alignment
}

/// The highest multiple of `alignment` that is not above `addr`.
pub open spec fn aligned_down(addr: int, alignment: u64) -> int {
    (addr / (alignment as int)) * alignment
}

/// Where a request for `size` addresses aligned to `alignment` is placed in the range
/// `node`, if it can be placed there:
/// - under `FirstMatch` at the lowest aligned address of the range, if the request fits
///   behind it (and rounding the start of the range up stays within 64 bits);
/// - under `LastMatch` at the highest aligned address of the range from which the request
///   fits (the allocator does not look at a range whose last address is below `size`);
/// - under `ExactMatch` at the address given, if the range holds that address and the
///   next one and the request fits behind it.
pub open spec fn place_in(node: (u64, u64), size: u64, alignment: u64, policy: AllocPolicy) -> Option<
    int,
> {
    match policy {
        AllocPolicy::FirstMatch => {
            let start = aligned_up(node.0 as int, alignment);
            if node.0 + alignment - 1 <= u64::MAX && start + size - 1 <= node.1 {
                Some(start)
            } else {
                None
            }
        },
        AllocPolicy::LastMatch => {
            let start = aligned_down(node.1 - size + 1, alignment);
            if node.1 >= size && node.0 <= start {
                Some(start)
            } else {
                None
            }
        },
        AllocPolicy::ExactMatch(start) => {
            if node.0 <= start && start + 1 <= node.1 && start + size - 1 <= node.1 {
                Some(start as int)
            } else {
                None
            }
        },
    }
}

/// Whether `node` is the range from which the allocator `a` serves a request for `size`
/// addresses aligned to `alignment`:
/// - under `FirstMatch` the lowest free range in which the request can be placed;
/// - under `LastMatch` the highest free range in which the request can be placed;
/// - under `ExactMatch` the range with the address given, free or handed out: the
///   allocator does not look whether it is free, and hands out a part of a range that it
///   has handed out before. Only a range handed out that the request fills is refused.
///
/// In each case the request is not served if its last address is the last 64-bit address.
pub open spec fn serves_from(
    a: vm_allocator::AddressAllocator,
    node: (u64, u64),
    size: u64,
    alignment: u64,
    policy: AllocPolicy,
) -> bool {
    &&& place_in(node, size, alignment, policy) matches Some(start)
    &&& start + size <= u64::MAX
    &&& match policy {
        AllocPolicy::FirstMatch => {
            &&& address_free(a).contains(node)
            &&& forall|other: (u64, u64)| #[trigger]
                address_free(a).contains(other) && place_in(other, size, alignment, policy)
                    is Some ==> node.0 <= other.0
        },
        AllocPolicy::LastMatch => {
            &&& address_free(a).contains(node)
            &&& forall|other: (u64, u64)| #[trigger]
                address_free(a).contains(other) && place_in(other, size, alignment, policy)
                    is Some ==> other.0 <= node.0
        },
        AllocPolicy::ExactMatch(at) => {
            &&& at % alignment == 0
            &&& address_free(a).contains(node) || address_allocated(a).contains(node)
            &&& !(address_allocated(a).contains(node) && node == (at, (at + size - 1) as u64))
        },
    }
}

/// The free ranges `free` after `range` has been cut out of the range `node`: `node` is
/// no longer free, and what is left of it below and above `range` is.
pub open spec fn cut_out(free: Set<(u64, u64)>, node: (u64, u64), range: (u64, u64)) -> Set<
    (u64, u64),
> {
    let without = free.remove(node);
    let below = if node.0 < range.0 {
        without.insert((node.0, (range.0 - 1) as u64))
    } else {
        without
    };
    if range.1 < node.1 {
        below.insert(((range.1 + 1) as u64, node.1))
    } else {
        below
    }
}

/// Whether the allocator `pre` has become `post` by serving `range` from `node`.
pub open spec fn address_placed(
    pre: vm_allocator::AddressAllocator,
    post: vm_allocator::AddressAllocator,
    node: (u64, u64),
    size: u64,
    alignment: u64,
    policy: AllocPolicy,
    range: (u64, u64),
) -> bool {
    &&& serves_from(pre, node, size, alignment, policy)
    &&& place_in(node, size, alignment, policy) == Some(range.0 as int)
    &&& address_free(post) == cut_out(address_free(pre), node, range)
    &&& address_allocated(post) == address_allocated(pre).remove(node).insert(range)
}

/// Whether the allocator `pre` has become `post` by serving `range` from one of its
/// ranges.
pub open spec fn served_at(
    pre: vm_allocator::AddressAllocator,
    post: vm_allocator::AddressAllocator,
    size: u64,
    alignment: u64,
    policy: AllocPolicy,
    range: (u64, u64),
) -> bool {
    exists|node: (u64, u64)| address_placed(pre, post, node, size, alignment, policy, range)
}

/// Whether the allocator `a` serves a request for `size` addresses aligned to `alignment`
/// under `policy`: the size is not zero, the alignment is a power of two, and there is a
/// range from which it is served.
pub open spec fn address_fits(
    a: vm_allocator::AddressAllocator,
    size: u64,
    alignment: u64,
    policy: AllocPolicy,
) -> bool {
    &&& size > 0
    &&& power_of_two(alignment)
    &&& exists|node: (u64, u64)| serves_from(a, node, size, alignment, policy)
}

/// Whether the allocator `a` is sure to serve a request for `size` addresses aligned to
/// `alignment` under `policy`: the request fits, and the space is small or the ranges are
/// few, so that the tree of the allocator has room for what the request adds.
pub open spec fn address_serves(
    a: vm_allocator::AddressAllocator,
    size: u64,
    alignment: u64,
    policy: AllocPolicy,
) -> bool {
    &&& address_fits(a, size, alignment, policy)
    &&& address_small(a) || address_few(a)
}

/// The first address of the range in `r`.
pub open spec fn start_of(r: Result<(u64, u64), vm_allocator::Error>) -> Result<
    u64,
    vm_allocator::Error,
> {
    match r {
        Ok(range) => Ok(range.0),
        Err(err) => Err(err),
    }
}

/// `vm_allocator::AddressAllocator::allocate`: what [`address_allocation`] says of the
/// first address of the range that it hands out; the range has the size asked for.
#[verifier::external_body]
pub(crate) fn address_allocate(
    a: &mut vm_allocator::AddressAllocator,
    size: u64,
    alignment: u64,
    policy: AllocPolicy,
) -> (r: Result<(u64, u64), vm_allocator::Error>)
    ensures
        address_allocation(*old(a), *final(a), size, alignment, policy, start_of(r)),
        r matches Ok(range) ==> range.1 == range.0 + size - 1,
{
    let policy = match policy {
        AllocPolicy::FirstMatch => vm_allocator::AllocPolicy::FirstMatch,
        AllocPolicy::LastMatch => vm_allocator::AllocPolicy::LastMatch,
        AllocPolicy::ExactMatch(start) => vm_allocator::AllocPolicy::ExactMatch(start),
    };
    a.allocate(size, alignment, policy).map(|range| (range.start(), range.end()))
}

/// Whether the ids handed out by `a` form an unbroken run from the start of its range.
pub open spec fn id_dense(a: vm_allocator::IdAllocator) -> bool {
    &&& id_limits(a).0 <= id_limits(a).1
    &&& forall|j: u32| #[trigger]
        id_allocated(a).contains(j) ==> id_limits(a).0 <= j <= id_limits(a).1
    &&& forall|i: u32, j: u32|
        id_limits(a).0 <= i < j && #[trigger] id_allocated(a).contains(j) ==> #[trigger] id_allocated(
            a,
        ).contains(i)
}

/// Whether `first` is the smallest id of its range that `a` has not handed out, and `count`
/// ids from `first` on are in range and not handed out.
pub open spec fn id_run_free(a: vm_allocator::IdAllocator, first: int, count: int) -> bool {
    &&& id_limits(a).0 <= first
    &&& first + count <= id_limits(a).1 + 1
    &&& forall|j: u32| id_limits(a).0 <= j < first ==> #[trigger] id_allocated(a).contains(j)
    &&& forall|j: u32| first <= j < first + count ==> !#[trigger] id_allocated(a).contains(j)
}

/// The ids `first`, `first + 1`, ... (`count` of them) as a set.
pub open spec fn id_run(first: int, count: int) -> Set<u32> {
    Set::new(|j: u32| first <= j < first + count)
}

/// What a request for `count` consecutive ids does to an allocator whose ids form an
/// unbroken run: it succeeds exactly when that many ids are left, hands out the smallest
/// ones left in rising order, and changes nothing when it fails.
pub open spec fn id_allocation(
    pre: vm_allocator::IdAllocator,
    post: vm_allocator::IdAllocator,
    count: u32,
    r: Result<Vec<u32>, vm_allocator::Error>,
) -> bool {
    &&& id_dense(post)
    &&& id_limits(post) == id_limits(pre)
    &&& r is Ok <==> exists|first: int| id_run_free(pre, first, count as int)
    &&& r matches Ok(gsis) ==> {
        &&& gsis.len() == count
        &&& forall|k: int| 0 <= k < gsis.len() ==> #[trigger] gsis[k] == gsis[0] + k
        &&& count > 0 ==> id_run_free(pre, gsis[0] as int, count as int)
        &&& count > 0 ==> id_allocated(post) == id_allocated(pre).union(
            id_run(gsis[0] as int, count as int),
        )
        &&& count == 0 ==> id_allocated(post) == id_allocated(pre)
    }
    &&& r is Err ==> id_allocated(post) == id_allocated(pre)
}

/// What a request for `size` addresses aligned to `alignment` does to an address
/// allocator under `policy`; `r` holds the first address of the range handed out.
///
/// A request is served only if [`address_fits`] holds, and an allocator with a small space
/// ([`address_small`]) or with few ranges ([`address_few`]) serves every such request. The range handed out lies in the managed
/// space, at the place that [`place_in`] gives in the range that [`serves_from`] names,
/// and is cut out of that range. Under `FirstMatch` and `LastMatch` it overlaps nothing
/// handed out before. A request that does not fit changes nothing.
pub open spec fn address_allocation(
    pre: vm_allocator::AddressAllocator,
    post: vm_allocator::AddressAllocator,
    size: u64,
    alignment: u64,
    policy: AllocPolicy,
    r: Result<u64, vm_allocator::Error>,
) -> bool {
    &&& address_limits(post) == address_limits(pre)
    &&& r is Ok ==> address_fits(pre, size, alignment, policy)
    &&& address_serves(pre, size, alignment, policy) ==> r is Ok
    &&& r matches Ok(start) ==> {
        &&& size > 0
        &&& alignment > 0
        &&& start + size - 1 <= u64::MAX
        &&& start % alignment == 0
        &&& address_limits(pre).0 <= start
        &&& start + size - 1 <= address_limits(pre).1
        &&& policy matches AllocPolicy::ExactMatch(at) ==> start == at
        &&& !(policy is ExactMatch) ==> {
            &&& forall|other: (u64, u64)| #[trigger]
                address_allocated(pre).contains(other) ==> !ranges_overlap(
                    (start, (start + size - 1) as u64),
                    other,
                )
            &&& address_allocated(post) == address_allocated(pre).insert(
                (start, (start + size - 1) as u64),
            )
        }
        &&& served_at(pre, post, size, alignment, policy, (start, (start + size - 1) as u64))
    }
    &&& r is Err && !address_fits(pre, size, alignment, policy) ==> address_allocated(post)
        == address_allocated(pre) && address_free(post) == address_free(pre)
}

/// Takes a range from `a` and returns its first address: see [`address_allocation`].
fn allocate_range(
    a: &mut vm_allocator::AddressAllocator,
    size: u64,
    alignment: u64,
    policy: AllocPolicy,
) -> (r: Result<u64, vm_allocator::Error>)
    ensures
        address_allocation(*old(a), *final(a), size, alignment, policy, r),
{
    match address_allocate(a, size, alignment, policy) {
        Ok(range) => Ok(range.0),
        Err(err) => Err(err),
    }
}

/// A request that is served adds at most two ranges to an allocator: the range handed
/// out takes the place of the range it was cut from, and what is left of that range below
/// and above it is free. So an allocator that held `n` ranges holds at most `n + 2`.
pub proof fn lemma_served_request_adds_two(
    pre: vm_allocator::AddressAllocator,
    post: vm_allocator::AddressAllocator,
    size: u64,
    alignment: u64,
    policy: AllocPolicy,
    start: u64,
)
    requires
        address_allocation(pre, post, size, alignment, policy, Ok(start)),
        address_allocated(pre).finite(),
        address_free(pre).finite(),
    ensures
        address_allocated(post).finite(),
        address_free(post).finite(),
        address_allocated(post).len() + address_free(post).len() <= address_allocated(pre).len()
            + address_free(pre).len() + 2,
{
    let range = (start, (start + size - 1) as u64);
    let node = choose|node: (u64, u64)|
        address_placed(pre, post, node, size, alignment, policy, range);
    let taken = address_allocated(pre);
    let free = address_free(pre);
    assert(taken.contains(node) || free.contains(node));
    // what is handed out
    assert(taken.remove(node).finite());
    assert(taken.remove(node).insert(range).len() <= taken.remove(node).len() + 1);
    // what is free
    let without = free.remove(node);
    let below = if node.0 < range.0 {
        without.insert((node.0, (range.0 - 1) as u64))
    } else {
        without
    };
    assert(without.finite());
    assert(below.finite() && below.len() <= without.len() + 1);
    assert(address_free(post).finite() && address_free(post).len() <= below.len() + 1);
}

/// An allocator whose ids form an unbroken run hands out rising ids: the ids of a free run
/// that starts at the smallest free id are larger than every id handed out before.
pub proof fn lemma_later_ids_are_larger(a: vm_allocator::IdAllocator, first: int, count: int, earlier: u32)
    requires
        id_dense(a),
        id_run_free(a, first, count),
        count > 0,
        id_allocated(a).contains(earlier),
    ensures
        earlier < first,
{
    if earlier >= first {
        let f = first as u32;
        assert(!id_allocated(a).contains(f));
        if earlier > first {
            assert(id_allocated(a).contains(f));
        }
    }
}

/// Handing out ids keeps the ids that were handed out: what an allocator has handed out
/// before a request it has handed out after it, whether the request succeeds or not.
pub proof fn lemma_allocation_keeps_ids(
    pre: vm_allocator::IdAllocator,
    post: vm_allocator::IdAllocator,
    count: u32,
    r: Result<Vec<u32>, vm_allocator::Error>,
    earlier: u32,
)
    requires
        id_allocation(pre, post, count, r),
        id_allocated(pre).contains(earlier),
    ensures
        id_allocated(post).contains(earlier),
{
}

/// The allocators for the interrupt lines and address ranges of one guest.
pub struct ResourceAllocator {
    /// Legacy interrupt lines.
    pub gsi_legacy_allocator: vm_allocator::IdAllocator,
    /// Interrupt lines for message signalled interrupts.
    pub gsi_msi_allocator: vm_allocator::IdAllocator,
    /// 32-bit MMIO window.
    pub mmio32_memory: vm_allocator::AddressAllocator,
    /// 64-bit MMIO window.
    pub mmio64_memory: vm_allocator::AddressAllocator,
    /// Memory for data that platform devices share with the guest.
    pub system_memory: vm_allocator::AddressAllocator,
}

/// Takes back the consecutive ids `gsis`, which were handed out after the ids of `before`.
fn release_ids(a: &mut vm_allocator::IdAllocator, gsis: &Vec<u32>, Ghost(before): Ghost<Set<u32>>)
    requires
        forall|k: int| 0 <= k < gsis.len() ==> #[trigger] gsis[k] == gsis[0] + k,
        gsis.len() > 0 ==> id_allocated(*old(a)) == before.union(
            id_run(gsis[0] as int, gsis.len() as int),
        ),
        gsis.len() == 0 ==> id_allocated(*old(a)) == before,
        forall|k: int| 0 <= k < gsis.len() ==> !before.contains(#[trigger] gsis[k]),
    ensures
        id_allocated(*final(a)) == before,
        id_limits(*final(a)) == id_limits(*old(a)),
{
    let mut i: usize = 0;
    while i < gsis.len()
        invariant
            0 <= i <= gsis.len(),
            id_limits(*a) == id_limits(*old(a)),
            forall|k: int| 0 <= k < gsis.len() ==> #[trigger] gsis[k] == gsis[0] + k,
            forall|k: int| 0 <= k < gsis.len() ==> !before.contains(#[trigger] gsis[k]),
            i < gsis.len() ==> id_allocated(*a) == before.union(
                id_run(gsis[0] + i, gsis.len() - i),
            ),
            i == gsis.len() ==> id_allocated(*a) == before,
        decreases gsis.len() - i,
    {
        let ghost cur = id_allocated(*a);
        assert(cur.contains(gsis[i as int]));
        let _ = id_free(a, gsis[i]);
        proof {
            let next = id_allocated(*a);
            assert(next == cur.remove(gsis[i as int]));
            if i + 1 < gsis.len() {
                assert(next =~= before.union(id_run(gsis[0] + i + 1, gsis.len() - i - 1))) by {
                    assert forall|j: u32|
                        next.contains(j) == before.union(
                            id_run(gsis[0] + i + 1, gsis.len() - i - 1),
                        ).contains(j) by {
                        if j == gsis[i as int] {
                            assert(!before.contains(gsis[i as int]));
                        }
                    }
                }
            } else {
                assert(next =~= before) by {
                    assert forall|j: u32| next.contains(j) == before.contains(j) by {
                        if j == gsis[i as int] {
                            assert(!before.contains(gsis[i as int]));
                        }
                    }
                }
            }
        }
        i += 1;
    }
}

impl ResourceAllocator {
    /// Whether the interrupt lines handed out so far form unbroken runs, which is what
    /// makes later lines larger than earlier ones, and the 32-bit window and the memory for
    /// platform devices are small spaces, whose allocators serve every request that fits.
    pub open spec fn wf(&self) -> bool {
        &&& id_dense(self.gsi_legacy_allocator)
        &&& id_dense(self.gsi_msi_allocator)
        &&& address_small(self.mmio32_memory)
        &&& address_small(self.system_memory)
    }

    /// Whether nothing is handed out: each allocator is over its part of the layout of
    /// [`crate::arch`], has handed out nothing, and holds its whole space as one free
    /// range.
    pub open spec fn fresh(&self) -> bool {
        let a = *self;
        &&& id_allocated(a.gsi_legacy_allocator) == Set::<u32>::empty()
        &&& id_limits(a.gsi_legacy_allocator) == (arch::GSI_LEGACY_START, arch::GSI_LEGACY_END)
        &&& id_allocated(a.gsi_msi_allocator) == Set::<u32>::empty()
        &&& id_limits(a.gsi_msi_allocator) == (arch::GSI_MSI_START, arch::GSI_MSI_END)
        &&& address_allocated(a.mmio32_memory) == Set::<(u64, u64)>::empty()
        &&& address_free(a.mmio32_memory) == whole_space(
            arch::MMIO32_MEM_START,
            arch::MMIO32_MEM_SIZE,
        )
        &&& address_limits(a.mmio32_memory) == (
            arch::MMIO32_MEM_START,
            (arch::MMIO32_MEM_START + arch::MMIO32_MEM_SIZE - 1) as u64,
        )
        &&& address_allocated(a.mmio64_memory) == Set::<(u64, u64)>::empty()
        &&& address_free(a.mmio64_memory) == whole_space(
            arch::MMIO64_MEM_START,
            arch::MMIO64_MEM_SIZE,
        )
        &&& address_limits(a.mmio64_memory) == (
            arch::MMIO64_MEM_START,
            (arch::MMIO64_MEM_START + arch::MMIO64_MEM_SIZE - 1) as u64,
        )
        &&& address_allocated(a.system_memory) == Set::<(u64, u64)>::empty()
        &&& address_free(a.system_memory) == whole_space(
            arch::SYSTEM_MEM_START,
            arch::SYSTEM_MEM_SIZE,
        )
        &&& address_limits(a.system_memory) == (
            arch::SYSTEM_MEM_START,
            (arch::SYSTEM_MEM_START + arch::SYSTEM_MEM_SIZE - 1) as u64,
        )
    }

    /// Allocators over the layout of [`crate::arch`], with nothing handed out.
    pub fn new() -> (r: Result<Self, vm_allocator::Error>)
        ensures
            r is Ok,
            r matches Ok(a) ==> a.wf() && a.fresh(),
    {
        let gsi_legacy_allocator = id_allocator_new(arch::GSI_LEGACY_START, arch::GSI_LEGACY_END)?;
        let gsi_msi_allocator = id_allocator_new(arch::GSI_MSI_START, arch::GSI_MSI_END)?;
        let mmio32_memory = address_allocator_new(arch::MMIO32_MEM_START, arch::MMIO32_MEM_SIZE)?;
        let mmio64_memory = address_allocator_new(arch::MMIO64_MEM_START, arch::MMIO64_MEM_SIZE)?;
        let system_memory = address_allocator_new(arch::SYSTEM_MEM_START, arch::SYSTEM_MEM_SIZE)?;
        Ok(
            ResourceAllocator {
                gsi_legacy_allocator,
                gsi_msi_allocator,
                mmio32_memory,
                mmio64_memory,
                system_memory,
            },
        )
    }

    /// Takes `gsi_count` consecutive interrupt lines from `gsi_allocator`, or none at all.
    ///
    /// Succeeds exactly when that many lines are left after the ones handed out; the lines
    /// returned are then the smallest ones left, in rising order. On failure every line
    /// taken on the way is given back.
    pub fn allocate_gsi(gsi_allocator: &mut vm_allocator::IdAllocator, gsi_count: u32) -> (r:
        Result<Vec<u32>, vm_allocator::Error>)
        requires
            id_dense(*old(gsi_allocator)),
        ensures
            id_allocation(*old(gsi_allocator), *final(gsi_allocator), gsi_count, r),
    {
        let ghost before = id_allocated(*gsi_allocator);
        let ghost lo = id_limits(*gsi_allocator).0;
        let ghost hi = id_limits(*gsi_allocator).1;
        let mut gsis: Vec<u32> = Vec::new();
        let mut i: u32 = 0;
        while i < gsi_count
            invariant
                0 <= i <= gsi_count,
                gsis.len() == i,
                before == id_allocated(*old(gsi_allocator)),
                id_dense(*old(gsi_allocator)),
                id_limits(*gsi_allocator) == (lo, hi),
                id_limits(*old(gsi_allocator)) == (lo, hi),
                forall|k: int| 0 <= k < gsis.len() ==> #[trigger] gsis[k] == gsis[0] + k,
                i > 0 ==> id_run_free(*old(gsi_allocator), gsis[0] as int, i as int),
                i > 0 ==> id_allocated(*gsi_allocator) == before.union(
                    id_run(gsis[0] as int, i as int),
                ),
                i == 0 ==> id_allocated(*gsi_allocator) == before,
            decreases gsi_count - i,
        {
            let ghost cur = id_allocated(*gsi_allocator);
            match id_allocate(gsi_allocator) {
                Ok(gsi) => {
                    proof {
                        if i > 0 {
                            let first = gsis[0] as int;
                            // every id below `first + i` is handed out, and `gsi` is not
                            assert(gsi >= first + i) by {
                                if gsi < first + i {
                                    if gsi < first {
                                        assert(before.contains(gsi));
                                    } else {
                                        assert(id_run(first, i as int).contains(gsi));
                                    }
                                    assert(cur.contains(gsi));
                                }
                            }
                            assert(gsi <= first + i) by {
                                if gsi > first + i {
                                    let missing = (first + i) as u32;
                                    assert(cur.contains(missing));
                                    assert(!id_run(first, i as int).contains(missing));
                                    assert(before.contains(missing));
                                    assert(before.contains(gsis[0]));
                                }
                            }
                            assert(id_allocated(*gsi_allocator) =~= before.union(
                                id_run(first, i + 1),
                            ));
                        } else {
                            assert(id_allocated(*gsi_allocator) =~= before.union(
                                id_run(gsi as int, 1),
                            ));
                        }
                    }
                    gsis.push(gsi);
                    i += 1;
                },
                Err(err) => {
                    proof {
                        // nothing is left, so no run of `gsi_count` lines was free
                        assert forall|first: int|
                            !id_run_free(*old(gsi_allocator), first, gsi_count as int) by {
                            if id_run_free(*old(gsi_allocator), first, gsi_count as int) {
                                if i > 0 {
                                    let f = gsis[0] as int;
                                    if first < f {
                                        assert(before.contains(first as u32));
                                    } else if first > f {
                                        assert(before.contains(gsis[0]));
                                    }
                                    let last = (first + i) as u32;
                                    assert(cur.contains(last));
                                    assert(!id_run(f, i as int).contains(last));
                                } else {
                                    assert(cur.contains(first as u32));
                                }
                            }
                        }
                        if i > 0 {
                            assert forall|k: int| 0 <= k < gsis.len() implies !before.contains(
                                #[trigger] gsis[k],
                            ) by {}
                        }
                    }
                    release_ids(gsi_allocator, &gsis, Ghost(before));
                    return Err(err);
                },
            }
        }
        proof {
            if gsi_count == 0 {
                assert(id_run_free(*old(gsi_allocator), lo as int, 0));
            }
            let after = id_allocated(*gsi_allocator);
            assert(id_dense(*gsi_allocator)) by {
                if gsi_count > 0 {
                    let first = gsis[0] as int;
                    assert forall|a: u32, b: u32|
                        lo <= a < b && #[trigger] after.contains(b) implies #[trigger] after.contains(
                            a,
                        ) by {
                        if before.contains(b) {
                            assert(before.contains(a));
                        } else {
                            assert(id_run(first, gsi_count as int).contains(b));
                            if a < first {
                                assert(before.contains(a));
                            } else {
                                assert(id_run(first, gsi_count as int).contains(a));
                            }
                        }
                    }
                }
            }
        }
        Ok(gsis)
    }

    /// Takes `gsi_count` legacy interrupt lines: see [`Self::allocate_gsi`].
    pub fn allocate_gsi_legacy(&mut self, gsi_count: u32) -> (r: Result<
        Vec<u32>,
        vm_allocator::Error,
    >)
        requires
            old(self).wf(),
        ensures
            id_allocation(
                old(self).gsi_legacy_allocator,
                final(self).gsi_legacy_allocator,
                gsi_count,
                r,
            ),
            final(self).gsi_msi_allocator == old(self).gsi_msi_allocator,
            final(self).mmio32_memory == old(self).mmio32_memory,
            final(self).mmio64_memory == old(self).mmio64_memory,
            final(self).system_memory == old(self).system_memory,
    {
        Self::allocate_gsi(&mut self.gsi_legacy_allocator, gsi_count)
    }

    /// Takes `gsi_count` interrupt lines for message signalled interrupts: see
    /// [`Self::allocate_gsi`].
    pub fn allocate_gsi_msi(&mut self, gsi_count: u32) -> (r: Result<
        Vec<u32>,
        vm_allocator::Error,
    >)
        requires
            old(self).wf(),
        ensures
            id_allocation(old(self).gsi_msi_allocator, final(self).gsi_msi_allocator, gsi_count, r),
            final(self).gsi_legacy_allocator == old(self).gsi_legacy_allocator,
            final(self).mmio32_memory == old(self).mmio32_memory,
            final(self).mmio64_memory == old(self).mmio64_memory,
            final(self).system_memory == old(self).system_memory,
    {
        Self::allocate_gsi(&mut self.gsi_msi_allocator, gsi_count)
    }

    /// Takes a range from the 32-bit MMIO window and returns its first address: see
    /// [`address_allocation`] for when the request is served and from where.
    pub fn allocate_32bit_mmio_memory(
        &mut self,
        size: u64,
        alignment: u64,
        policy: AllocPolicy,
    ) -> (r: Result<u64, vm_allocator::Error>)
        ensures
            old(self).wf() ==> final(self).wf(),
            address_allocation(
                old(self).mmio32_memory,
                final(self).mmio32_memory,
                size,
                alignment,
                policy,
                r,
            ),
            final(self).gsi_legacy_allocator == old(self).gsi_legacy_allocator,
            final(self).gsi_msi_allocator == old(self).gsi_msi_allocator,
            final(self).mmio64_memory == old(self).mmio64_memory,
            final(self).system_memory == old(self).system_memory,
    {
        allocate_range(&mut self.mmio32_memory, size, alignment, policy)
    }

    /// Takes a range from the 64-bit MMIO window and returns its first address: see
    /// [`address_allocation`] for when the request is served and from where.
    pub fn allocate_64bit_mmio_memory(
        &mut self,
        size: u64,
        alignment: u64,
        policy: AllocPolicy,
    ) -> (r: Result<u64, vm_allocator::Error>)
        ensures
            old(self).wf() ==> final(self).wf(),
            address_allocation(
                old(self).mmio64_memory,
                final(self).mmio64_memory,
                size,
                alignment,
                policy,
                r,
            ),
            final(self).gsi_legacy_allocator == old(self).gsi_legacy_allocator,
            final(self).gsi_msi_allocator == old(self).gsi_msi_allocator,
            final(self).mmio32_memory == old(self).mmio32_memory,
            final(self).system_memory == old(self).system_memory,
    {
        allocate_range(&mut self.mmio64_memory, size, alignment, policy)
    }

    /// Takes a range from the memory reserved for platform devices and returns its first
    /// address: see [`address_allocation`] for when the request is served and from where.
    pub fn allocate_system_memory(
        &mut self,
        size: u64,
        alignment: u64,
        policy: AllocPolicy,
    ) -> (r: Result<u64, vm_allocator::Error>)
        ensures
            old(self).wf() ==> final(self).wf(),
            address_allocation(
                old(self).system_memory,
                final(self).system_memory,
                size,
                alignment,
                policy,
                r,
            ),
            final(self).gsi_legacy_allocator == old(self).gsi_legacy_allocator,
            final(self).gsi_msi_allocator == old(self).gsi_msi_allocator,
            final(self).mmio32_memory == old(self).mmio32_memory,
            final(self).mmio64_memory == old(self).mmio64_memory,
    {
        allocate_range(&mut self.system_memory, size, alignment, policy)
    }
}

} // verus!
