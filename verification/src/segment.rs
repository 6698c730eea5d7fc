//! Frozen segments: externally owned memory ranges that the runtime registers
//! with the collector, validated and kept free of overlap.
use vstd::prelude::*;

verus! {

/// CoreCLR's `segment_info` descriptor, with the base address as an integer.
///
/// Every size is a byte offset from `memory`.
#[derive(Clone, Copy, Debug)]
pub struct FrozenSegmentInfo {
    pub memory: usize,
    pub first_object_offset: usize,
    pub allocated_offset: usize,
    pub committed_offset: usize,
    pub reserved_offset: usize,
}

/// Whether a descriptor describes a registrable segment: a non-null base, a
/// non-empty reservation, offsets in the order first object, allocated,
/// committed, reserved, and an end address that fits in a `usize`.
pub open spec fn info_is_valid(info: FrozenSegmentInfo) -> bool {
    &&& info.memory != 0
    &&& info.reserved_offset != 0
    &&& info.first_object_offset <= info.allocated_offset
    &&& info.allocated_offset <= info.committed_offset
    &&& info.committed_offset <= info.reserved_offset
    &&& info.memory + info.reserved_offset <= usize::MAX
}

/// The absolute addresses of a frozen segment.
pub struct SegmentView {
    pub memory: usize,
    pub first_object: usize,
    pub allocated: usize,
    pub committed: usize,
    pub reserved: usize,
}

/// The absolute addresses that a valid descriptor describes.
pub open spec fn segment_of(info: FrozenSegmentInfo) -> SegmentView {
    SegmentView {
        memory: info.memory,
        first_object: (info.memory + info.first_object_offset) as usize,
        allocated: (info.memory + info.allocated_offset) as usize,
        committed: (info.memory + info.committed_offset) as usize,
        reserved: (info.memory + info.reserved_offset) as usize,
    }
}

/// Whether the reservations `[memory, reserved)` of two segments intersect.
pub open spec fn views_overlap(a: SegmentView, b: SegmentView) -> bool {
    a.memory < b.reserved && b.memory < a.reserved
}

/// Library-owned metadata of one registered frozen segment.
pub struct FrozenSegment {
    memory: usize,
    first_object: usize,
    allocated: usize,
    committed: usize,
    reserved: usize,
}

impl View for FrozenSegment {
    type V = SegmentView;

    closed spec fn view(&self) -> SegmentView {
        SegmentView {
            memory: self.memory,
            first_object: self.first_object,
            allocated: self.allocated,
            committed: self.committed,
            reserved: self.reserved,
        }
    }
}

impl FrozenSegment {
    /// Copies a descriptor into absolute addresses; `None` when it is invalid.
    pub fn from_info(info: FrozenSegmentInfo) -> (r: Option<FrozenSegment>)
        ensures
            r is Some <==> info_is_valid(info),
            r matches Some(segment) ==> segment@ == segment_of(info),
    {
        if info.memory == 0 || info.reserved_offset == 0 || info.first_object_offset
            > info.allocated_offset || info.allocated_offset > info.committed_offset
            || info.committed_offset > info.reserved_offset {
            return None;
        }
        let memory = info.memory;
        let first_object = match memory.checked_add(info.first_object_offset) {
            Some(a) => a,
            None => {
                return None;
            },
        };
        let allocated = match memory.checked_add(info.allocated_offset) {
            Some(a) => a,
            None => {
                return None;
            },
        };
        let committed = match memory.checked_add(info.committed_offset) {
            Some(a) => a,
            None => {
                return None;
            },
        };
        let reserved = match memory.checked_add(info.reserved_offset) {
            Some(a) => a,
            None => {
                return None;
            },
        };
        Some(FrozenSegment { memory, first_object, allocated, committed, reserved })
    }

    /// Whether the reservations of the two segments intersect.
    pub fn overlaps(&self, other: &FrozenSegment) -> (r: bool)
        ensures
            r == views_overlap(self@, other@),
    {
        self.memory < other.reserved && other.memory < self.reserved
    }

    pub fn memory(&self) -> (r: usize)
        ensures
            r == self@.memory,
    {
        self.memory
    }

    pub fn first_object(&self) -> (r: usize)
        ensures
            r == self@.first_object,
    {
        self.first_object
    }

    pub fn allocated(&self) -> (r: usize)
        ensures
            r == self@.allocated,
    {
        self.allocated
    }

    pub fn committed(&self) -> (r: usize)
        ensures
            r == self@.committed,
    {
        self.committed
    }

    pub fn reserved(&self) -> (r: usize)
        ensures
            r == self@.reserved,
    {
        self.reserved
    }
}

/// Identity of a registered segment: its position in the registry.
pub type FrozenSegmentHandle = usize;

/// Whether registered segments have non-empty reservations that pairwise do
/// not intersect.
pub open spec fn segments_disjoint(s: Seq<SegmentView>) -> bool {
    &&& forall|i: int| 0 <= i < s.len() ==> (#[trigger] s[i]).memory < s[i].reserved
    &&& forall|i: int, j: int|
        0 <= i < s.len() && 0 <= j < s.len() && i != j ==> !views_overlap(
            #[trigger] s[i],
            #[trigger] s[j],
        )
}

/// All registered frozen segments, in registration order.
pub struct FrozenSegmentRegistry {
    segments: Vec<FrozenSegment>,
}

impl View for FrozenSegmentRegistry {
    type V = Seq<SegmentView>;

    closed spec fn view(&self) -> Seq<SegmentView> {
        self.segments@.map_values(|s: FrozenSegment| s@)
    }
}

impl FrozenSegmentRegistry {
    /// Whether the registry keeps its invariant.
    pub open spec fn wf(&self) -> bool {
        segments_disjoint(self@)
    }

    /// An empty registry.
    pub fn new() -> (r: FrozenSegmentRegistry)
        ensures
            r.wf(),
            r@ == Seq::<SegmentView>::empty(),
    {
        let r = FrozenSegmentRegistry { segments: Vec::new() };
        assert(r@ =~= Seq::<SegmentView>::empty());
        r
    }

    /// Number of registered segments.
    pub fn len(&self) -> (n: usize)
        ensures
            n == self@.len(),
    {
        self.segments.len()
    }

    /// The segment registered under `handle`.
    pub fn segment(&self, handle: FrozenSegmentHandle) -> (s: &FrozenSegment)
        requires
            handle < self@.len(),
        ensures
            s@ == self@[handle as int],
    {
        &self.segments[handle]
    }

    /// Registers the segment that `descriptor` describes and returns its handle.
    ///
    /// Refused, with nothing changed, when there is no descriptor, when it is
    /// invalid, or when its reservation intersects that of a segment already
    /// registered.
    pub fn register(&mut self, descriptor: Option<FrozenSegmentInfo>) -> (r: Option<
        FrozenSegmentHandle,
    >)
        requires
            old(self).wf(),
        ensures
            final(self).wf(),
            descriptor is None ==> r is None,
            r is None ==> final(self)@ == old(self)@,
            descriptor matches Some(info) ==> (r is Some <==> (info_is_valid(info) && forall|i: int|
                0 <= i < old(self)@.len() ==> !views_overlap(
                    segment_of(info),
                    #[trigger] old(self)@[i],
                ))),
            descriptor matches Some(info) ==> (r matches Some(handle) ==> handle == old(self)@.len()
                && final(self)@ == old(self)@.push(segment_of(info))),
    {
        let info = match descriptor {
            Some(info) => info,
            None => {
                return None;
            },
        };
        let segment = match FrozenSegment::from_info(info) {
            Some(segment) => segment,
            None => {
                return None;
            },
        };
        let n = self.segments.len();
        let mut i: usize = 0;
        while i < n
            invariant
                n == self@.len(),
                n == self.segments@.len(),
                i <= n,
                self.wf(),
                segment@ == segment_of(info),
                descriptor == Some(info),
                forall|k: int| 0 <= k < i ==> !views_overlap(segment_of(info), #[trigger] self@[k]),
            decreases n - i,
        {
            if segment.overlaps(&self.segments[i]) {
                assert(self@[i as int] == self.segments@[i as int]@);
                return None;
            }
            assert(self@[i as int] == self.segments@[i as int]@);
            i = i + 1;
        }
        let ghost before = self@;
        self.segments.push(segment);
        proof {
            assert(self@ =~= before.push(segment_of(info)));
        }
        Some(n)
    }

    /// Records new allocated and committed addresses for a registered segment.
    /// Its base and reservation are unchanged, so the registry stays disjoint.
    pub fn update(&mut self, handle: FrozenSegmentHandle, allocated: usize, committed: usize)
        requires
            old(self).wf(),
            handle < old(self)@.len(),
        ensures
            final(self).wf(),
            final(self)@ == old(self)@.update(
                handle as int,
                SegmentView { allocated, committed, ..old(self)@[handle as int] },
            ),
    {
        let old_segment = &self.segments[handle];
        let segment = FrozenSegment {
            memory: old_segment.memory,
            first_object: old_segment.first_object,
            allocated,
            committed,
            reserved: old_segment.reserved,
        };
        let ghost before = self@;
        self.segments.set(handle, segment);
        proof {
            assert(self@ =~= before.update(
                handle as int,
                SegmentView { allocated, committed, ..before[handle as int] },
            ));
        }
    }
}

/// A descriptor is accepted exactly when it describes a non-null, non-empty
/// reservation that ends within the address space and whose first-object,
/// allocated and committed addresses lie, in that order, within it. Equal
/// neighbouring addresses are allowed: a fresh segment has its allocated
/// address at its first object.
pub proof fn law_valid_descriptor_is_ordered_reservation(info: FrozenSegmentInfo)
    ensures
        info_is_valid(info) <==> ({
            let m = info.memory as int;
            let first = m + info.first_object_offset;
            let allocated = m + info.allocated_offset;
            let committed = m + info.committed_offset;
            let reserved = m + info.reserved_offset;
            &&& m != 0
            &&& m < reserved <= usize::MAX
            &&& m <= first <= allocated <= committed <= reserved
        }),
        info_is_valid(info) ==> segment_of(info).memory <= segment_of(info).first_object
            <= segment_of(info).allocated <= segment_of(info).committed <= segment_of(
            info,
        ).reserved,
{
}

/// Overlap of reservations is symmetric.
pub proof fn law_overlap_is_symmetric(a: SegmentView, b: SegmentView)
    ensures
        views_overlap(a, b) == views_overlap(b, a),
{
}

/// A segment's reservation always overlaps itself, so the same memory can
/// never be registered twice.
pub proof fn law_segment_overlaps_itself(a: SegmentView)
    requires
        a.memory < a.reserved,
    ensures
        views_overlap(a, a),
{
}

} // verus!
