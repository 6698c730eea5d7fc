//! The ZeroGC allocation ledger: object layout, admission of allocation
//! requests against a byte limit, recording of native blocks, and the
//! end-of-run report.
//!
//! Native memory is obtained outside the library. An allocation therefore runs
//! in two steps: [`Ledger::allocate`] counts the request and decides whether a
//! block of which size may be allocated, and then awaits it;
//! [`Ledger::complete_allocation`] receives the native base address (0 when
//! the native allocator failed) and records the block.
use crate::object::Object;
use vstd::prelude::*;
use vstd::seq_lib::{commutative_foldl, lemma_fold_left_permutation};

verus! {

// Windows x64 CoreCLR: ObjHeader is a 4-byte alignment pad followed by the
// 4-byte sync-block value. An object address points just past it.
/// Alignment of every object block.
pub const OBJECT_ALIGNMENT: usize = 8;

/// Bytes of object header in front of an object address.
pub const OBJECT_HEADER_SIZE: usize = 8;

/// Smallest object size (header included) the allocator accepts.
pub const MIN_OBJECT_SIZE: usize = 24;

/// Byte limit used when none is configured.
pub const DEFAULT_LIMIT_BYTES: usize = 67108864;

/// Largest block size for an 8-byte alignment that `Layout` accepts: `isize::MAX`
/// rounded down to a multiple of the alignment.
pub open spec fn max_layout_size() -> int {
    isize::MAX as int - (isize::MAX as int % OBJECT_ALIGNMENT as int)
}

/// `size` rounded up to the object alignment.
pub open spec fn padded_size(size: int) -> int {
    (size + OBJECT_ALIGNMENT - 1) / OBJECT_ALIGNMENT as int * OBJECT_ALIGNMENT as int
}

/// Whether an object of `size` bytes (header included) has a layout.
pub open spec fn size_has_layout(size: int) -> bool {
    MIN_OBJECT_SIZE <= size <= max_layout_size()
}

/// The size of a native object block: a valid, aligned, non-trivial block size.
pub open spec fn is_block_size(size: int) -> bool {
    MIN_OBJECT_SIZE <= size <= max_layout_size() && size % OBJECT_ALIGNMENT as int == 0
}

/// Layout of one object block: its byte size, a multiple of the 8-byte alignment.
pub struct ObjectLayout {
    size: usize,
}

impl View for ObjectLayout {
    type V = usize;

    closed spec fn view(&self) -> usize {
        self.size
    }
}

impl ObjectLayout {
    #[verifier::type_invariant]
    closed spec fn block_size_is_valid(self) -> bool {
        is_block_size(self.size as int)
    }

    /// The block size in bytes.
    pub fn size(&self) -> (r: usize)
        ensures
            r == self@,
            is_block_size(r as int),
    {
        proof {
            use_type_invariant(self);
        }
        self.size
    }

    /// The block alignment in bytes.
    pub fn align(&self) -> (r: usize)
        ensures
            r == OBJECT_ALIGNMENT,
    {
        OBJECT_ALIGNMENT
    }
}

/// The layout of an object of `size` bytes, header included: `None` for sizes
/// below the minimum object size or too large for an 8-aligned layout,
/// otherwise the size rounded up to the alignment.
pub fn object_layout(size: usize) -> (r: Option<ObjectLayout>)
    ensures
        r is None <==> !size_has_layout(size as int),
        r matches Some(l) ==> l@ == padded_size(size as int) && is_block_size(l@ as int),
{
    if size < MIN_OBJECT_SIZE {
        return None;
    }
    let max = isize::MAX as usize;
    if size > max - max % OBJECT_ALIGNMENT {
        return None;
    }
    let padded = (size + (OBJECT_ALIGNMENT - 1)) / OBJECT_ALIGNMENT * OBJECT_ALIGNMENT;
    Some(ObjectLayout { size: padded })
}

/// Why an allocation request was turned down.
#[derive(Clone, Copy, PartialEq, Eq, Structural, Debug)]
pub enum AllocRejection {
    /// The size is below the minimum or has no 8-aligned layout.
    InvalidSize,
    /// Adding the block to the owned bytes would overflow.
    AccountingOverflow,
    /// The block would take the owned bytes past the limit.
    LimitExceeded { owned: usize, requested: usize },
    /// The range registry could not grow.
    RegistryExhausted,
    /// The native allocator returned null.
    NativeAllocationFailed,
    /// The native block's end address does not fit in a `usize`.
    AddressOverflow,
}

/// The first step's decision.
pub enum AllocStep {
    /// The request is refused.
    Rejected(AllocRejection),
    /// A zeroed native block of this layout is to be allocated.
    Allocate(ObjectLayout),
}

/// The rejection that the admission rules give for a request of `size` bytes
/// when `owned` bytes are owned and the limit is `limit`; `None` when it is admitted.
pub open spec fn admission(owned: usize, size: usize, limit: usize) -> Option<AllocRejection> {
    if !size_has_layout(size as int) {
        Some(AllocRejection::InvalidSize)
    } else if owned + padded_size(size as int) > usize::MAX {
        Some(AllocRejection::AccountingOverflow)
    } else if owned + padded_size(size as int) > limit {
        Some(
            AllocRejection::LimitExceeded {
                owned,
                requested: padded_size(size as int) as usize,
            },
        )
    } else {
        None
    }
}

/// `a + b`, or `usize::MAX` when that overflows.
pub open spec fn saturating(a: usize, b: usize) -> usize {
    if a + b > usize::MAX {
        usize::MAX
    } else {
        (a + b) as usize
    }
}

/// Byte length of a half-open address range.
pub open spec fn range_len(r: (usize, usize)) -> int {
    r.1 - r.0
}

/// Total byte length of a sequence of ranges.
pub open spec fn total_len(s: Seq<(usize, usize)>) -> int {
    s.fold_left(0int, |acc: int, r: (usize, usize)| acc + range_len(r))
}

/// A recorded native block `[start, end)`: non-null, with a valid block size.
pub open spec fn is_object_block(r: (usize, usize)) -> bool {
    0 < r.0 < r.1 && is_block_size(range_len(r))
}

/// Lexicographic order on ranges, the order of Rust tuples.
pub open spec fn range_le(a: (usize, usize), b: (usize, usize)) -> bool {
    a.0 < b.0 || (a.0 == b.0 && a.1 <= b.1)
}

/// Whether `s` is sorted by [`range_le`].
pub open spec fn ranges_sorted(s: Seq<(usize, usize)>) -> bool {
    forall|i: int, j: int| 0 <= i < j < s.len() ==> range_le(#[trigger] s[i], #[trigger] s[j])
}

/// Whether no two ranges of `s` overlap.
pub open spec fn pairwise_disjoint(s: Seq<(usize, usize)>) -> bool {
    forall|i: int, j: int|
        0 <= i < s.len() && 0 <= j < s.len() && i != j ==> (#[trigger] s[i]).1 <= (#[trigger] s[j]).0
            || s[j].1 <= s[i].0
}

/// Number of the first `n` neighbouring pairs of `s` with free space between them.
pub open spec fn gaps_among(s: Seq<(usize, usize)>, n: int) -> nat
    decreases n,
{
    if n <= 0 {
        0
    } else {
        gaps_among(s, n - 1) + if s[n - 1].1 < s[n].0 {
            1nat
        } else {
            0nat
        }
    }
}

/// Number of neighbouring pairs of `s` with free space between them.
pub open spec fn gap_count(s: Seq<(usize, usize)>) -> nat {
    if s.len() == 0 {
        0
    } else {
        gaps_among(s, s.len() - 1)
    }
}

/// The counters and recorded ranges of a [`Ledger`].
pub struct LedgerView {
    pub requests: usize,
    pub successful: usize,
    pub requested_bytes: usize,
    pub owned_bytes: usize,
    pub ranges: Seq<(usize, usize)>,
    /// Block size of an admitted allocation whose native block is awaited.
    pub pending: Option<usize>,
}

impl LedgerView {
    /// The ledger's invariant: one recorded block per successful allocation,
    /// every block a valid object block, the blocks' total size covered by the
    /// owned bytes, no more successes (counting an awaited one) than requests,
    /// and an awaited block a valid block size that the owned bytes can absorb.
    pub open spec fn consistent(self) -> bool {
        &&& self.successful == self.ranges.len()
        &&& forall|i: int| 0 <= i < self.ranges.len() ==> is_object_block(#[trigger] self.ranges[i])
        &&& total_len(self.ranges) <= self.owned_bytes
        &&& self.successful + (if self.pending is Some { 1int } else { 0int }) <= self.requests
        &&& self.pending matches Some(p) ==> is_block_size(p as int) && self.owned_bytes + p
            <= usize::MAX
    }
}

/// Allocation accounting for the non-collecting heap.
pub struct Ledger {
    requests: usize,
    successful: usize,
    requested_bytes: usize,
    owned_bytes: usize,
    // Diagnostic metadata only. A collection must never use this as liveness data.
    ranges: Vec<(usize, usize)>,
    pending: Option<usize>,
}

impl View for Ledger {
    type V = LedgerView;

    closed spec fn view(&self) -> LedgerView {
        LedgerView {
            requests: self.requests,
            successful: self.successful,
            requested_bytes: self.requested_bytes,
            owned_bytes: self.owned_bytes,
            ranges: self.ranges@,
            pending: self.pending,
        }
    }
}

/// What [`Ledger::report`] hands back for printing.
pub struct LedgerReport {
    pub requests: usize,
    pub successful: usize,
    pub requested_bytes: usize,
    pub owned_bytes: usize,
    pub limit: usize,
    pub range_count: usize,
    /// Bytes reserved by the range registry.
    pub registry_bytes: usize,
    /// Whether no two recorded ranges overlap.
    pub disjoint: bool,
    /// Number of neighbouring recorded ranges, in address order, with free space between them.
    pub gaps: usize,
    /// The first two recorded ranges in address order (fewer if there are fewer).
    pub first_ranges: Vec<(usize, usize)>,
}

proof fn lemma_total_len_push(s: Seq<(usize, usize)>, r: (usize, usize))
    ensures
        total_len(s.push(r)) == total_len(s) + range_len(r),
{
    assert(s.push(r).drop_last() =~= s);
}

proof fn lemma_total_len_at_least(s: Seq<(usize, usize)>)
    requires
        forall|i: int| 0 <= i < s.len() ==> is_object_block(#[trigger] s[i]),
    ensures
        total_len(s) >= MIN_OBJECT_SIZE * s.len(),
    decreases s.len(),
{
    if s.len() > 0 {
        let t = s.drop_last();
        assert(forall|i: int| 0 <= i < t.len() ==> t[i] == s[i]);
        lemma_total_len_at_least(t);
        lemma_total_len_push(t, s.last());
        assert(s =~= t.push(s.last()));
        assert(is_object_block(s[s.len() - 1]));
    }
}

proof fn lemma_total_len_permutation(s1: Seq<(usize, usize)>, s2: Seq<(usize, usize)>)
    requires
        s1.to_multiset() == s2.to_multiset(),
    ensures
        total_len(s1) == total_len(s2),
{
    let f = |acc: int, r: (usize, usize)| acc + range_len(r);
    assert(commutative_foldl(f));
    lemma_fold_left_permutation(s1, s2, f, 0int);
}

/// Neighbouring ranges of a sorted sequence that do not overlap make the whole
/// sequence pairwise disjoint, and one overlapping neighbour pair makes it not.
proof fn lemma_disjoint_by_neighbours(s: Seq<(usize, usize)>)
    requires
        ranges_sorted(s),
        forall|i: int| 0 <= i < s.len() ==> #[trigger] s[i].0 < s[i].1,
    ensures
        pairwise_disjoint(s) <==> (forall|i: int| 0 <= i < s.len() - 1 ==> (#[trigger] s[i]).1 <= s[i + 1].0),
{
    if forall|i: int| 0 <= i < s.len() - 1 ==> (#[trigger] s[i]).1 <= s[i + 1].0 {
        assert forall|i: int, j: int| 0 <= i < j < s.len() implies (#[trigger] s[i]).1 <= (
        #[trigger] s[j]).0 by {
            lemma_neighbour_chain(s, i, j);
        }
    } else {
        let i = choose|i: int| 0 <= i < s.len() - 1 && !((#[trigger] s[i]).1 <= s[i + 1].0);
        assert(range_le(s[i], s[i + 1]));
        assert(s[i + 1].0 < s[i + 1].1);
        assert(!(s[i].1 <= s[i + 1].0 || s[i + 1].1 <= s[i].0));
    }
}

proof fn lemma_neighbour_chain(s: Seq<(usize, usize)>, i: int, j: int)
    requires
        0 <= i < j < s.len(),
        forall|k: int| 0 <= k < s.len() ==> #[trigger] s[k].0 < s[k].1,
        forall|k: int| 0 <= k < s.len() - 1 ==> (#[trigger] s[k]).1 <= s[k + 1].0,
    ensures
        s[i].1 <= s[j].0,
    decreases j - i,
{
    if j > i + 1 {
        lemma_neighbour_chain(s, i, j - 1);
        assert(s[j - 1].0 < s[j - 1].1);
        assert(s[j - 1].1 <= s[j].0);
    }
}

/// Bytes taken by a range registry with room for `capacity` ranges.
pub open spec fn registry_bytes_for(capacity: nat) -> nat {
    capacity * vstd::layout::size_of::<(usize, usize)>()
}

/// Sorts recorded ranges in place in ascending tuple order.
///
/// Trusted: calls `<[(usize, usize)]>::sort_unstable`, which the standard library
/// documents to sort the slice (possibly reordering equal elements); tuples
/// compare lexicographically. The result is therefore a permutation of the
/// input, sorted by `range_le`.
#[verifier::external_body]
fn sort_ranges(v: &mut Vec<(usize, usize)>)
    ensures
        final(v)@.to_multiset() == old(v)@.to_multiset(),
        ranges_sorted(final(v)@),
{
    v.sort_unstable();
}

/// The capacity of the range registry.
///
/// Trusted: calls `Vec::capacity`. The standard library documents that the
/// capacity is never below the length and that a `Vec` never holds an
/// allocation of more than `isize::MAX` bytes. Its exact value depends on the
/// allocator's growth strategy and is left open.
#[verifier::external_body]
fn registry_capacity(v: &Vec<(usize, usize)>) -> (c: usize)
    ensures
        c >= v@.len(),
        c * vstd::layout::size_of::<(usize, usize)>() <= isize::MAX,
{
    v.capacity()
}

/// A permutation of valid object blocks consists of valid object blocks of
/// the same total size.
proof fn lemma_permuted_blocks(s1: Seq<(usize, usize)>, s2: Seq<(usize, usize)>)
    requires
        s1.to_multiset() == s2.to_multiset(),
        forall|i: int| 0 <= i < s1.len() ==> is_object_block(#[trigger] s1[i]),
    ensures
        s2.len() == s1.len(),
        total_len(s2) == total_len(s1),
        forall|i: int| 0 <= i < s2.len() ==> is_object_block(#[trigger] s2[i]),
{
    broadcast use vstd::seq_lib::group_to_multiset_ensures;

    vstd::seq_lib::to_multiset_len(s1);
    vstd::seq_lib::to_multiset_len(s2);
    lemma_total_len_permutation(s1, s2);
    assert forall|i: int| 0 <= i < s2.len() implies is_object_block(#[trigger] s2[i]) by {
        let x = s2[i];
        assert(s2.to_multiset().count(x) > 0);
        assert(s1.contains(x));
        let k = choose|k: int| 0 <= k < s1.len() && s1[k] == x;
        assert(is_object_block(s1[k]));
    }
}

/// Whether no neighbouring ranges overlap, and how many neighbouring pairs
/// have free space between them.
fn scan_neighbours(ranges: &Vec<(usize, usize)>) -> (r: (bool, usize))
    ensures
        r.0 == (forall|k: int| 0 <= k < ranges@.len() - 1 ==> (#[trigger] ranges@[k]).1 <= ranges@[k + 1].0),
        r.1 == gap_count(ranges@),
{
    let n = ranges.len();
    if n == 0 {
        return (true, 0);
    }
    let mut disjoint = true;
    let mut gaps: usize = 0;
    let mut i: usize = 0;
    while i + 1 < n
        invariant
            n == ranges@.len(),
            n > 0,
            i < n,
            disjoint == (forall|k: int| 0 <= k < i ==> (#[trigger] ranges@[k]).1 <= ranges@[k + 1].0),
            gaps == gaps_among(ranges@, i as int),
            gaps <= i,
        decreases n - i,
    {
        let a = ranges[i];
        let b = ranges[i + 1];
        if !(a.1 <= b.0) {
            disjoint = false;
        }
        if a.1 < b.0 {
            gaps = gaps + 1;
        }
        i = i + 1;
    }
    (disjoint, gaps)
}

/// Whether the sorted ranges are pairwise disjoint, and how many neighbouring
/// pairs have free space between them.
fn survey_sorted_ranges(ranges: &Vec<(usize, usize)>) -> (r: (bool, usize))
    requires
        ranges_sorted(ranges@),
        forall|i: int| 0 <= i < ranges@.len() ==> is_object_block(#[trigger] ranges@[i]),
    ensures
        r.0 == pairwise_disjoint(ranges@),
        r.1 == gap_count(ranges@),
{
    let r = scan_neighbours(ranges);
    proof {
        assert forall|k: int| 0 <= k < ranges@.len() implies #[trigger] ranges@[k].0 < ranges@[k].1 by {
            assert(is_object_block(ranges@[k]));
        }
        lemma_disjoint_by_neighbours(ranges@);
    }
    r
}

impl Ledger {
    /// Whether the ledger keeps its invariant.
    pub open spec fn wf(&self) -> bool {
        self@.consistent()
    }

    /// An empty ledger.
    pub fn new() -> (ledger: Ledger)
        ensures
            ledger.wf(),
            ledger@.requests == 0,
            ledger@.successful == 0,
            ledger@.requested_bytes == 0,
            ledger@.owned_bytes == 0,
            ledger@.ranges == Seq::<(usize, usize)>::empty(),
            ledger@.pending is None,
    {
        let ledger = Ledger {
            requests: 0,
            successful: 0,
            requested_bytes: 0,
            owned_bytes: 0,
            ranges: Vec::new(),
            pending: None,
        };
        proof {
            assert(total_len(ledger.ranges@) == 0);
        }
        ledger
    }

    /// An empty ledger that starts out already owning `owned_bytes` bytes.
    pub fn with_owned_bytes(owned_bytes: usize) -> (ledger: Ledger)
        ensures
            ledger.wf(),
            ledger@.requests == 0,
            ledger@.successful == 0,
            ledger@.requested_bytes == 0,
            ledger@.owned_bytes == owned_bytes,
            ledger@.ranges == Seq::<(usize, usize)>::empty(),
            ledger@.pending is None,
    {
        let ledger = Ledger {
            requests: 0,
            successful: 0,
            requested_bytes: 0,
            owned_bytes,
            ranges: Vec::new(),
            pending: None,
        };
        proof {
            assert(total_len(ledger.ranges@) == 0);
        }
        ledger
    }

    pub fn requests(&self) -> (r: usize)
        ensures
            r == self@.requests,
    {
        self.requests
    }

    pub fn successful(&self) -> (r: usize)
        ensures
            r == self@.successful,
    {
        self.successful
    }

    pub fn requested_bytes(&self) -> (r: usize)
        ensures
            r == self@.requested_bytes,
    {
        self.requested_bytes
    }

    pub fn owned_bytes(&self) -> (r: usize)
        ensures
            r == self@.owned_bytes,
    {
        self.owned_bytes
    }

    /// The recorded native blocks `[start, end)`.
    pub fn ranges(&self) -> (r: &[(usize, usize)])
        ensures
            r@ == self@.ranges,
    {
        self.ranges.as_slice()
    }

    /// First step of an allocation of `size` bytes (header included) under
    /// `limit` owned bytes.
    ///
    /// Every call counts one request and `size` requested bytes (both
    /// saturating) and drops any allocation still awaiting its native block.
    /// The request is refused with the reason that [`admission`] gives, or,
    /// when admitted, with `RegistryExhausted` if the range registry cannot
    /// make room for one more block; otherwise the answer is the layout of the
    /// block to allocate, which is then awaited. Nothing else changes.
    pub fn allocate(&mut self, size: usize, limit: usize) -> (step: AllocStep)
        requires
            old(self).wf(),
        ensures
            final(self).wf(),
            final(self)@.requests == saturating(old(self)@.requests, 1),
            final(self)@.requested_bytes == saturating(old(self)@.requested_bytes, size),
            final(self)@.successful == old(self)@.successful,
            final(self)@.owned_bytes == old(self)@.owned_bytes,
            final(self)@.ranges == old(self)@.ranges,
            match admission(old(self)@.owned_bytes, size, limit) {
                Some(reason) => step == AllocStep::Rejected(reason),
                None => match step {
                    AllocStep::Allocate(l) => l@ == padded_size(size as int),
                    AllocStep::Rejected(reason) => reason == AllocRejection::RegistryExhausted,
                },
            },
            match step {
                AllocStep::Allocate(l) => final(self)@.pending == Some(l@),
                AllocStep::Rejected(_) => final(self)@.pending is None,
            },
    {
        proof {
            lemma_total_len_at_least(self.ranges@);
        }
        self.pending = None;
        self.requests = self.requests.saturating_add(1);
        self.requested_bytes = self.requested_bytes.saturating_add(size);
        let layout = match object_layout(size) {
            Some(layout) => layout,
            None => {
                return AllocStep::Rejected(AllocRejection::InvalidSize);
            },
        };
        let block = layout.size();
        let next_owned = match self.owned_bytes.checked_add(block) {
            Some(next) => next,
            None => {
                return AllocStep::Rejected(AllocRejection::AccountingOverflow);
            },
        };
        if next_owned > limit {
            return AllocStep::Rejected(
                AllocRejection::LimitExceeded { owned: self.owned_bytes, requested: block },
            );
        }
        if self.ranges.try_reserve(1).is_err() {
            return AllocStep::Rejected(AllocRejection::RegistryExhausted);
        }
        self.pending = Some(block);
        AllocStep::Allocate(layout)
    }

    /// Second step: records the zeroed native block of the awaited allocation,
    /// which starts at `base` (0 when the native allocator failed), and returns
    /// the object address, which lies just past the block's header.
    ///
    /// The allocation is no longer awaited afterwards. It is refused, with
    /// nothing else changed, when `base` is null or when the block's end
    /// address overflows. On success the block `[base, base + size)` is
    /// appended to the ranges, one more allocation counts as successful and
    /// the owned bytes grow by the block size.
    pub fn complete_allocation(&mut self, base: usize) -> (r: Result<Object, AllocRejection>)
        requires
            old(self).wf(),
            old(self)@.pending is Some,
        ensures
            final(self).wf(),
            final(self)@.pending is None,
            final(self)@.requests == old(self)@.requests,
            final(self)@.requested_bytes == old(self)@.requested_bytes,
            final(self)@.owned_bytes - total_len(final(self)@.ranges) == old(self)@.owned_bytes
                - total_len(old(self)@.ranges),
            ({
                let size = old(self)@.pending->0;
                &&& base == 0 ==> r == Err::<Object, AllocRejection>(
                    AllocRejection::NativeAllocationFailed,
                )
                &&& base != 0 && base + size > usize::MAX ==> r == Err::<Object, AllocRejection>(
                    AllocRejection::AddressOverflow,
                )
                &&& r is Ok <==> (base != 0 && base + size <= usize::MAX)
                &&& r is Err ==> {
                    &&& final(self)@.successful == old(self)@.successful
                    &&& final(self)@.owned_bytes == old(self)@.owned_bytes
                    &&& final(self)@.ranges == old(self)@.ranges
                }
                &&& r matches Ok(object) ==> {
                    &&& object@ == base + OBJECT_HEADER_SIZE
                    &&& final(self)@.ranges == old(self)@.ranges.push((base, (base + size) as usize))
                    &&& final(self)@.successful == old(self)@.successful + 1
                    &&& final(self)@.owned_bytes == old(self)@.owned_bytes + size
                }
            }),
    {
        let size = match self.pending {
            Some(size) => size,
            None => {
                return Err(AllocRejection::NativeAllocationFailed);
            },
        };
        self.pending = None;
        if base == 0 {
            return Err(AllocRejection::NativeAllocationFailed);
        }
        let end = match base.checked_add(size) {
            Some(end) => end,
            None => {
                return Err(AllocRejection::AddressOverflow);
            },
        };
        proof {
            lemma_total_len_push(self.ranges@, (base, end));
        }
        let ghost old_ranges = self.ranges@;
        self.ranges.push((base, end));
        proof {
            assert forall|i: int| 0 <= i < self.ranges@.len() implies is_object_block(
                #[trigger] self.ranges@[i],
            ) by {
                if i < old_ranges.len() {
                    assert(self.ranges@[i] == old_ranges[i]);
                }
            }
        }
        self.successful = self.successful + 1;
        self.owned_bytes = self.owned_bytes + size;
        Ok(Object::from_ptr(base + OBJECT_HEADER_SIZE))
    }

    /// Sorts the recorded ranges by address and reports the counters, the
    /// registry's footprint, whether the ranges are pairwise disjoint, how many
    /// neighbouring ranges have free space between them, and the first two ranges.
    pub fn report(&mut self, limit: usize) -> (r: LedgerReport)
        requires
            old(self).wf(),
        ensures
            final(self).wf(),
            final(self)@.requests == old(self)@.requests,
            final(self)@.successful == old(self)@.successful,
            final(self)@.requested_bytes == old(self)@.requested_bytes,
            final(self)@.owned_bytes == old(self)@.owned_bytes,
            final(self)@.pending == old(self)@.pending,
            final(self)@.ranges.to_multiset() == old(self)@.ranges.to_multiset(),
            ranges_sorted(final(self)@.ranges),
            total_len(final(self)@.ranges) == total_len(old(self)@.ranges),
            r.requests == old(self)@.requests,
            r.successful == old(self)@.successful,
            r.requested_bytes == old(self)@.requested_bytes,
            r.owned_bytes == old(self)@.owned_bytes,
            r.limit == limit,
            r.range_count == old(self)@.ranges.len(),
            exists|c: nat|
                c >= old(self)@.ranges.len() && r.registry_bytes == #[trigger] registry_bytes_for(c),
            r.disjoint == pairwise_disjoint(final(self)@.ranges),
            r.gaps == gap_count(final(self)@.ranges),
            final(self)@.ranges.len() > 0 ==> r.gaps == gap_indices(
                final(self)@.ranges,
                final(self)@.ranges.len() - 1,
            ).len(),
            r.first_ranges@ == final(self)@.ranges.take(
                if final(self)@.ranges.len() < 2 {
                    final(self)@.ranges.len() as int
                } else {
                    2
                },
            ),
    {
        let ghost old_ranges = self.ranges@;
        sort_ranges(&mut self.ranges);
        proof {
            lemma_permuted_blocks(old_ranges, self.ranges@);
        }
        let n = self.ranges.len();
        let (disjoint, gaps) = survey_sorted_ranges(&self.ranges);
        proof {
            law_gap_count_counts_free_neighbours(self.ranges@);
        }
        let capacity = registry_capacity(&self.ranges);
        let registry_bytes = capacity * core::mem::size_of::<(usize, usize)>();
        assert(registry_bytes == registry_bytes_for(capacity as nat));
        let mut first_ranges: Vec<(usize, usize)> = Vec::new();
        let mut j: usize = 0;
        while j < n && j < 2
            invariant
                n == self.ranges@.len(),
                j <= 2,
                j <= n,
                first_ranges@ == self.ranges@.take(j as int),
            decreases 2 - j,
        {
            first_ranges.push(self.ranges[j]);
            proof {
                assert(self.ranges@.take(j + 1) =~= self.ranges@.take(j as int).push(
                    self.ranges@[j as int],
                ));
            }
            j = j + 1;
        }
        LedgerReport {
            requests: self.requests,
            successful: self.successful,
            requested_bytes: self.requested_bytes,
            owned_bytes: self.owned_bytes,
            limit,
            range_count: n,
            registry_bytes,
            disjoint,
            gaps,
            first_ranges,
        }
    }
}

/// The oldest generation: only the ephemeral generation 0 exists.
pub fn rust_gc_get_max_generation() -> (r: u32)
    ensures
        r == 0,
{
    0
}

/// Number of collections of a generation: the heap never collects, so always 0.
pub fn rust_gc_collection_count(generation: i32, get_bgc_fgc_count: i32) -> (r: i32)
    ensures
        r == 0,
{
    0
}

/// Whether a collection is in progress: the heap never collects, so never.
pub fn rust_gc_is_gc_in_progress_helper(consider_gc_start: bool) -> (r: bool)
    ensures
        !r,
{
    false
}

/// Indices `k < n` of neighbouring pairs `(s[k], s[k + 1])` with free space
/// between them.
pub open spec fn gap_indices(s: Seq<(usize, usize)>, n: int) -> Set<int> {
    Set::new(|k: int| 0 <= k < n && s[k].1 < s[k + 1].0)
}

proof fn lemma_gaps_among_counts(s: Seq<(usize, usize)>, n: int)
    requires
        0 <= n,
    ensures
        gap_indices(s, n).finite(),
        gaps_among(s, n) == gap_indices(s, n).len(),
    decreases n,
{
    if n == 0 {
        assert(gap_indices(s, 0) =~= Set::<int>::empty());
    } else {
        lemma_gaps_among_counts(s, n - 1);
        let prev = gap_indices(s, n - 1);
        if s[n - 1].1 < s[n].0 {
            assert(gap_indices(s, n) =~= prev.insert(n - 1));
            assert(!prev.contains(n - 1));
        } else {
            assert(gap_indices(s, n) =~= prev);
        }
    }
}

/// The report's gap count is the number of neighbouring pairs of ranges with
/// free space between them: every index `k` with `s[k].1 < s[k + 1].0` counts
/// once, and no other.
pub proof fn law_gap_count_counts_free_neighbours(s: Seq<(usize, usize)>)
    ensures
        s.len() > 0 ==> gap_count(s) == gap_indices(s, s.len() - 1).len(),
        s.len() > 0 ==> gap_indices(s, s.len() - 1).finite(),
        s.len() <= 1 ==> gap_count(s) == 0,
{
    if s.len() > 0 {
        lemma_gaps_among_counts(s, s.len() - 1);
    }
}

/// In a consistent ledger no more allocations succeeded than were requested,
/// each successful allocation owns at least a minimum-size block, and the
/// recorded blocks account for at most the owned bytes.
pub proof fn law_ledger_accounts_reconcile(v: LedgerView)
    requires
        v.consistent(),
    ensures
        v.successful <= v.requests,
        MIN_OBJECT_SIZE * v.successful <= total_len(v.ranges) <= v.owned_bytes,
{
    lemma_total_len_at_least(v.ranges);
}

/// An admitted allocation whose native block is fresh keeps the ledger sound.
///
/// Take a consistent ledger within its limit whose recorded blocks are
/// pairwise disjoint. If a request is admitted and the native allocator hands
/// back a non-null block `[base, base + size)` that meets none of the recorded
/// blocks (memory is never freed, so a fresh block cannot), then the ledger
/// that the two steps leave behind is again consistent, within its limit, and
/// pairwise disjoint. Whether the block is fresh is the native allocator's
/// promise; the library only receives its address.
pub proof fn law_fresh_block_keeps_ledger_sound(
    v: LedgerView,
    size: usize,
    limit: usize,
    base: usize,
)
    requires
        v.consistent(),
        v.pending is None,
        v.owned_bytes <= limit,
        pairwise_disjoint(v.ranges),
        admission(v.owned_bytes, size, limit) is None,
        base != 0,
        base + padded_size(size as int) <= usize::MAX,
        forall|i: int|
            0 <= i < v.ranges.len() ==> (#[trigger] v.ranges[i]).1 <= base || base
                + padded_size(size as int) <= v.ranges[i].0,
    ensures
        ({
            let block = (base, (base + padded_size(size as int)) as usize);
            let after = LedgerView {
                requests: saturating(v.requests, 1),
                requested_bytes: saturating(v.requested_bytes, size),
                successful: (v.successful + 1) as usize,
                owned_bytes: (v.owned_bytes + padded_size(size as int)) as usize,
                ranges: v.ranges.push(block),
                pending: None,
            };
            &&& after.consistent()
            &&& after.owned_bytes <= limit
            &&& pairwise_disjoint(after.ranges)
        }),
{
    let p = padded_size(size as int);
    let block = (base, (base + p) as usize);
    let s = v.ranges.push(block);
    lemma_total_len_at_least(v.ranges);
    lemma_total_len_push(v.ranges, block);
    assert(is_object_block(block));
    assert forall|i: int| 0 <= i < s.len() implies is_object_block(#[trigger] s[i]) by {
        if i < v.ranges.len() {
            assert(s[i] == v.ranges[i]);
        }
    }
    assert forall|i: int, j: int|
        0 <= i < s.len() && 0 <= j < s.len() && i != j implies (#[trigger] s[i]).1 <= (
        #[trigger] s[j]).0 || s[j].1 <= s[i].0 by {
        if i < v.ranges.len() && j < v.ranges.len() {
            assert(s[i] == v.ranges[i] && s[j] == v.ranges[j]);
        } else if i < v.ranges.len() {
            assert(s[i] == v.ranges[i]);
            assert(s[j] == block);
        } else {
            assert(s[j] == v.ranges[j]);
            assert(s[i] == block);
        }
    }
}

/// An admitted request keeps the owned bytes within the limit once its block
/// is recorded.
pub proof fn law_admitted_block_stays_within_limit(owned: usize, size: usize, limit: usize)
    requires
        admission(owned, size, limit) is None,
    ensures
        owned + padded_size(size as int) <= limit,
{
}

/// The block of an admitted size holds the whole requested object: it is the
/// requested size rounded up to the alignment, by less than one alignment unit,
/// so the object body after the header is never empty.
pub proof fn law_block_covers_request(size: usize)
    requires
        size_has_layout(size as int),
    ensures
        size <= padded_size(size as int) < size + OBJECT_ALIGNMENT,
        padded_size(size as int) % OBJECT_ALIGNMENT as int == 0,
        padded_size(size as int) > OBJECT_HEADER_SIZE,
        is_block_size(padded_size(size as int)),
{
}

} // verus!
