//! CoreCLR allocation flags (`GC_ALLOC_FLAGS`) and their textual rendering.
use vstd::prelude::*;
use vstd::string::StringExecFns;

verus! {

/// CoreCLR's `GC_ALLOC_FLAGS` bitmask, passed to the allocator as a `u32`.
/// Any combination of bits, known or not, is a valid value.
#[derive(Clone, Copy, PartialEq, Eq, Structural)]
pub struct GcAllocFlags(pub u32);

/// Number of named flags that the rendering lists.
pub const NAMED_FLAG_COUNT: usize = 7;

/// Name of the `i`-th named flag, in rendering order.
pub open spec fn flag_name(i: int) -> Seq<char> {
    if i == 0 {
        "FINALIZE"@
    } else if i == 1 {
        "CONTAINS_REF"@
    } else if i == 2 {
        "ALIGN8_BIAS"@
    } else if i == 3 {
        "ALIGN8"@
    } else if i == 4 {
        "ZEROING_OPTIONAL"@
    } else if i == 5 {
        "LARGE_OBJECT_HEAP"@
    } else {
        "PINNED_OBJECT_HEAP"@
    }
}

/// Bit of the `i`-th named flag, in rendering order.
pub open spec fn flag_bit(i: int) -> u32 {
    if i == 0 {
        1
    } else if i == 1 {
        2
    } else if i == 2 {
        4
    } else if i == 3 {
        8
    } else if i == 4 {
        16
    } else if i == 5 {
        32
    } else {
        64
    }
}

/// The names of the named flags set in `bits`, from index `i` on, joined by `" | "`.
/// `first` says whether nothing has been written before index `i`.
pub open spec fn flag_list_from(bits: u32, i: int, first: bool) -> Seq<char>
    decreases NAMED_FLAG_COUNT - i,
{
    if i < 0 || i >= NAMED_FLAG_COUNT {
        Seq::empty()
    } else if bits & flag_bit(i) == flag_bit(i) {
        let sep = if first { Seq::<char>::empty() } else { " | "@ };
        sep + flag_name(i) + flag_list_from(bits, i + 1, false)
    } else {
        flag_list_from(bits, i + 1, first)
    }
}

/// The text `GcAllocFlags(A | B | ...)` listing the named flags set in `bits`.
pub open spec fn flags_text(bits: u32) -> Seq<char> {
    "GcAllocFlags("@ + flag_list_from(bits, 0, true) + ")"@
}

fn named_flag(i: usize) -> (r: (&'static str, u32))
    requires
        i < NAMED_FLAG_COUNT,
    ensures
        r.0@ == flag_name(i as int),
        r.1 == flag_bit(i as int),
{
    if i == 0 {
        ("FINALIZE", 1)
    } else if i == 1 {
        ("CONTAINS_REF", 2)
    } else if i == 2 {
        ("ALIGN8_BIAS", 4)
    } else if i == 3 {
        ("ALIGN8", 8)
    } else if i == 4 {
        ("ZEROING_OPTIONAL", 16)
    } else if i == 5 {
        ("LARGE_OBJECT_HEAP", 32)
    } else {
        ("PINNED_OBJECT_HEAP", 64)
    }
}

impl GcAllocFlags {
    /// The empty set of flags.
    pub fn none() -> (r: Self)
        ensures
            r.0 == 0,
    {
        GcAllocFlags(0)
    }

    /// The `FINALIZE` flag.
    pub fn finalize() -> (r: Self)
        ensures
            r.0 == 1,
    {
        GcAllocFlags(1)
    }

    /// The `CONTAINS_REF` flag.
    pub fn contains_ref() -> (r: Self)
        ensures
            r.0 == 2,
    {
        GcAllocFlags(2)
    }

    /// The `ALIGN8_BIAS` flag.
    pub fn align8_bias() -> (r: Self)
        ensures
            r.0 == 4,
    {
        GcAllocFlags(4)
    }

    /// The `ALIGN8` flag.
    pub fn align8() -> (r: Self)
        ensures
            r.0 == 8,
    {
        GcAllocFlags(8)
    }

    /// The `ZEROING_OPTIONAL` flag.
    pub fn zeroing_optional() -> (r: Self)
        ensures
            r.0 == 16,
    {
        GcAllocFlags(16)
    }

    /// The `LARGE_OBJECT_HEAP` flag.
    pub fn large_object_heap() -> (r: Self)
        ensures
            r.0 == 32,
    {
        GcAllocFlags(32)
    }

    /// The `PINNED_OBJECT_HEAP` flag.
    pub fn pinned_object_heap() -> (r: Self)
        ensures
            r.0 == 64,
    {
        GcAllocFlags(64)
    }

    /// `LARGE_OBJECT_HEAP | PINNED_OBJECT_HEAP`.
    pub fn user_old_heap() -> (r: Self)
        ensures
            r.0 == 96,
    {
        GcAllocFlags(96)
    }


    /// Whether every bit of `flags` is also set in `self`.
    pub open spec fn spec_contains(self, flags: Self) -> bool {
        self.0 & flags.0 == flags.0
    }

    /// True when every bit of `flags` is also set in `self`.
    pub fn contains(self, flags: Self) -> (r: bool)
        ensures
            r == self.spec_contains(flags),
    {
        self.0 & flags.0 == flags.0
    }

    /// Renders the value as `GcAllocFlags(A | B | ...)`, naming each known flag
    /// that is set, in ascending bit order. Unknown bits and the combined
    /// `USER_OLD_HEAP` alias are not named.
    pub fn describe(&self) -> (text: String)
        ensures
            text@ == flags_text(self.0),
    {
        let bits = self.0;
        let mut out = String::from_str("GcAllocFlags(");
        let mut first = true;
        let mut i: usize = 0;
        while i < NAMED_FLAG_COUNT
            invariant
                i <= NAMED_FLAG_COUNT,
                bits == self.0,
                out@ + flag_list_from(bits, i as int, first) == "GcAllocFlags("@ + flag_list_from(
                    bits,
                    0,
                    true,
                ),
            decreases NAMED_FLAG_COUNT - i,
        {
            let (name, bit) = named_flag(i);
            if bits & bit == bit {
                let ghost before = out@;
                if !first {
                    out.append(" | ");
                }
                out.append(name);
                proof {
                    let sep = if first { Seq::<char>::empty() } else { " | "@ };
                    assert(out@ == before + sep + flag_name(i as int));
                    assert(before + (sep + flag_name(i as int) + flag_list_from(bits, i + 1, false))
                        =~= out@ + flag_list_from(bits, i + 1, false));
                }
                first = false;
            }
            i = i + 1;
        }
        out.append(")");
        out
    }
}

/// The `i`-th named flag is bit `i`: the seven named flags are the seven
/// lowest bits, in ascending order, each the value of its constant.
pub proof fn law_named_flag_is_bit_i(i: int)
    requires
        0 <= i < NAMED_FLAG_COUNT,
    ensures
        flag_bit(i) == 1u32 << (i as u32),
{
    assert(1u32 << 0u32 == 1) by (bit_vector);
    assert(1u32 << 1u32 == 2) by (bit_vector);
    assert(1u32 << 2u32 == 4) by (bit_vector);
    assert(1u32 << 3u32 == 8) by (bit_vector);
    assert(1u32 << 4u32 == 16) by (bit_vector);
    assert(1u32 << 5u32 == 32) by (bit_vector);
    assert(1u32 << 6u32 == 64) by (bit_vector);
}

proof fn lemma_unset_flags_are_skipped(bits: u32, j: int, i: int, first: bool)
    requires
        0 <= j <= i <= NAMED_FLAG_COUNT,
        forall|k: int| j <= k < i ==> bits & #[trigger] flag_bit(k) != flag_bit(k),
    ensures
        flag_list_from(bits, j, first) == flag_list_from(bits, i, first),
    decreases i - j,
{
    if j < i {
        lemma_unset_flags_are_skipped(bits, j + 1, i, first);
    }
}

/// Rendering a single named flag lists exactly that flag's name.
pub proof fn law_single_flag_text(i: int)
    requires
        0 <= i < NAMED_FLAG_COUNT,
    ensures
        flags_text(flag_bit(i)) == "GcAllocFlags("@ + flag_name(i) + ")"@,
{
    assert(
        1u32 & 1u32 == 1u32 && 1u32 & 2u32 != 2u32 && 1u32 & 4u32 != 4u32 && 1u32 & 8u32 != 8u32
        && 1u32 & 16u32 != 16u32 && 1u32 & 32u32 != 32u32 && 1u32 & 64u32 != 64u32
        && 2u32 & 1u32 != 1u32 && 2u32 & 2u32 == 2u32 && 2u32 & 4u32 != 4u32 && 2u32 & 8u32 != 8u32
        && 2u32 & 16u32 != 16u32 && 2u32 & 32u32 != 32u32 && 2u32 & 64u32 != 64u32
        && 4u32 & 1u32 != 1u32 && 4u32 & 2u32 != 2u32 && 4u32 & 4u32 == 4u32 && 4u32 & 8u32 != 8u32
        && 4u32 & 16u32 != 16u32 && 4u32 & 32u32 != 32u32 && 4u32 & 64u32 != 64u32
        && 8u32 & 1u32 != 1u32 && 8u32 & 2u32 != 2u32 && 8u32 & 4u32 != 4u32 && 8u32 & 8u32 == 8u32
        && 8u32 & 16u32 != 16u32 && 8u32 & 32u32 != 32u32 && 8u32 & 64u32 != 64u32
        && 16u32 & 1u32 != 1u32 && 16u32 & 2u32 != 2u32 && 16u32 & 4u32 != 4u32 && 16u32 & 8u32 != 8u32
        && 16u32 & 16u32 == 16u32 && 16u32 & 32u32 != 32u32 && 16u32 & 64u32 != 64u32
        && 32u32 & 1u32 != 1u32 && 32u32 & 2u32 != 2u32 && 32u32 & 4u32 != 4u32 && 32u32 & 8u32 != 8u32
        && 32u32 & 16u32 != 16u32 && 32u32 & 32u32 == 32u32 && 32u32 & 64u32 != 64u32
        && 64u32 & 1u32 != 1u32 && 64u32 & 2u32 != 2u32 && 64u32 & 4u32 != 4u32 && 64u32 & 8u32 != 8u32
        && 64u32 & 16u32 != 16u32 && 64u32 & 32u32 != 32u32 && 64u32 & 64u32 == 64u32
    ) by (bit_vector);
    let b = flag_bit(i);
    assert(forall|k: int| 0 <= k < NAMED_FLAG_COUNT && k != i ==> b & #[trigger] flag_bit(k) != flag_bit(k));
    lemma_unset_flags_are_skipped(b, 0, i, true);
    lemma_unset_flags_are_skipped(b, i + 1, NAMED_FLAG_COUNT as int, false);
    assert(b & b == b);
    assert(flag_list_from(b, i, true) =~= Seq::<char>::empty() + flag_name(i) + Seq::<char>::empty());
    assert(flag_list_from(b, i, true) =~= flag_name(i));
}

/// Set containment of flag bits: `a` contains `b` exactly when every bit set
/// in `b` is set in `a`.
pub proof fn law_contains_is_bit_inclusion(a: GcAllocFlags, b: GcAllocFlags)
    ensures
        a.spec_contains(b) <==> (forall|i: u32|
            i < 32 ==> #[trigger] ((b.0 >> i) & 1) == 1 ==> ((a.0 >> i) & 1) == 1),
{
    let x = a.0;
    let y = b.0;
    if x & y == y {
        assert forall|i: u32| i < 32 && #[trigger] ((y >> i) & 1) == 1 implies ((x >> i) & 1) == 1 by {
            assert(((y >> i) & 1) == 1 ==> ((x >> i) & 1) == 1) by (bit_vector)
                requires
                    x & y == y,
                    i < 32,
            ;
        }
    }
    if forall|i: u32| i < 32 ==> #[trigger] ((y >> i) & 1) == 1 ==> ((x >> i) & 1) == 1 {
        // Instantiate the bit condition at every position for the bit-level solver.
        assert(x & y == y) by (bit_vector)
            requires
            ((y >> 0u32) & 1) == 1 ==> ((x >> 0u32) & 1) == 1,
            ((y >> 1u32) & 1) == 1 ==> ((x >> 1u32) & 1) == 1,
            ((y >> 2u32) & 1) == 1 ==> ((x >> 2u32) & 1) == 1,
            ((y >> 3u32) & 1) == 1 ==> ((x >> 3u32) & 1) == 1,
            ((y >> 4u32) & 1) == 1 ==> ((x >> 4u32) & 1) == 1,
            ((y >> 5u32) & 1) == 1 ==> ((x >> 5u32) & 1) == 1,
            ((y >> 6u32) & 1) == 1 ==> ((x >> 6u32) & 1) == 1,
            ((y >> 7u32) & 1) == 1 ==> ((x >> 7u32) & 1) == 1,
            ((y >> 8u32) & 1) == 1 ==> ((x >> 8u32) & 1) == 1,
            ((y >> 9u32) & 1) == 1 ==> ((x >> 9u32) & 1) == 1,
            ((y >> 10u32) & 1) == 1 ==> ((x >> 10u32) & 1) == 1,
            ((y >> 11u32) & 1) == 1 ==> ((x >> 11u32) & 1) == 1,
            ((y >> 12u32) & 1) == 1 ==> ((x >> 12u32) & 1) == 1,
            ((y >> 13u32) & 1) == 1 ==> ((x >> 13u32) & 1) == 1,
            ((y >> 14u32) & 1) == 1 ==> ((x >> 14u32) & 1) == 1,
            ((y >> 15u32) & 1) == 1 ==> ((x >> 15u32) & 1) == 1,
            ((y >> 16u32) & 1) == 1 ==> ((x >> 16u32) & 1) == 1,
            ((y >> 17u32) & 1) == 1 ==> ((x >> 17u32) & 1) == 1,
            ((y >> 18u32) & 1) == 1 ==> ((x >> 18u32) & 1) == 1,
            ((y >> 19u32) & 1) == 1 ==> ((x >> 19u32) & 1) == 1,
            ((y >> 20u32) & 1) == 1 ==> ((x >> 20u32) & 1) == 1,
            ((y >> 21u32) & 1) == 1 ==> ((x >> 21u32) & 1) == 1,
            ((y >> 22u32) & 1) == 1 ==> ((x >> 22u32) & 1) == 1,
            ((y >> 23u32) & 1) == 1 ==> ((x >> 23u32) & 1) == 1,
            ((y >> 24u32) & 1) == 1 ==> ((x >> 24u32) & 1) == 1,
            ((y >> 25u32) & 1) == 1 ==> ((x >> 25u32) & 1) == 1,
            ((y >> 26u32) & 1) == 1 ==> ((x >> 26u32) & 1) == 1,
            ((y >> 27u32) & 1) == 1 ==> ((x >> 27u32) & 1) == 1,
            ((y >> 28u32) & 1) == 1 ==> ((x >> 28u32) & 1) == 1,
            ((y >> 29u32) & 1) == 1 ==> ((x >> 29u32) & 1) == 1,
            ((y >> 30u32) & 1) == 1 ==> ((x >> 30u32) & 1) == 1,
            ((y >> 31u32) & 1) == 1 ==> ((x >> 31u32) & 1) == 1,
        ;
    }
}

/// Containment is reflexive and transitive, and every value contains `NONE`.
pub proof fn law_contains_is_a_preorder(a: GcAllocFlags, b: GcAllocFlags, c: GcAllocFlags)
    ensures
        a.spec_contains(a),
        a.spec_contains(GcAllocFlags(0)),
        a.spec_contains(b) && b.spec_contains(c) ==> a.spec_contains(c),
{
    let x = a.0;
    let y = b.0;
    let z = c.0;
    assert(x & x == x) by (bit_vector);
    assert(x & 0 == 0) by (bit_vector);
    assert((x & y == y && y & z == z) ==> x & z == z) by (bit_vector);
}

/// `USER_OLD_HEAP` is the union of the large- and pinned-object heap flags.
pub proof fn law_user_old_heap_is_large_or_pinned(a: GcAllocFlags)
    ensures
        a.spec_contains(GcAllocFlags(96)) <==> (a.spec_contains(
            GcAllocFlags(32),
        ) && a.spec_contains(GcAllocFlags(64))),
{
    let x = a.0;
    assert(x & 96 == 96 <==> (x & 32 == 32 && x & 64 == 64)) by (bit_vector);
}

} // verus!
