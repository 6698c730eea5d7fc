//! The collector's side of the runtime interface: result codes, the
//! write-barrier request, and installation of the runtime's callback table.
use vstd::prelude::*;

verus! {

/// A COM-style result code.
pub type HResult = u32;

pub const S_OK: HResult = 0;

pub const E_POINTER: HResult = 0x8000_4003;

pub const E_UNEXPECTED: HResult = 0x8000_FFFF;

/// CoreCLR operation used to configure or update its managed write barrier.
#[derive(Clone, Copy, Debug, PartialEq, Eq, Structural)]
pub enum WriteBarrierOp {
    StompResize,
    StompEphemeral,
    Initialize,
    SwitchToWriteWatch,
    SwitchToNonWriteWatch,
}

impl WriteBarrierOp {
    /// The operation's number in the runtime's `WriteBarrierOp` enumeration.
    pub fn code(self) -> (r: i32)
        ensures
            r == match self {
                WriteBarrierOp::StompResize => 0i32,
                WriteBarrierOp::StompEphemeral => 1i32,
                WriteBarrierOp::Initialize => 2i32,
                WriteBarrierOp::SwitchToWriteWatch => 3i32,
                WriteBarrierOp::SwitchToNonWriteWatch => 4i32,
            },
    {
        match self {
            WriteBarrierOp::StompResize => 0,
            WriteBarrierOp::StompEphemeral => 1,
            WriteBarrierOp::Initialize => 2,
            WriteBarrierOp::SwitchToWriteWatch => 3,
            WriteBarrierOp::SwitchToNonWriteWatch => 4,
        }
    }
}

/// CoreCLR's write-barrier request, with every address as an integer.
#[derive(Clone, Copy, Debug)]
pub struct WriteBarrierParameters {
    pub operation: WriteBarrierOp,
    pub is_runtime_suspended: bool,
    pub requires_upper_bounds_check: bool,
    pub card_table: usize,
    pub card_bundle_table: usize,
    pub lowest_address: usize,
    pub highest_address: usize,
    pub ephemeral_low: usize,
    pub ephemeral_high: usize,
    pub write_watch_table: usize,
    pub region_to_generation_table: usize,
    pub region_shr: u8,
    pub region_use_bitwise_write_barrier: bool,
}

/// The write-barrier setup of the non-collecting heap.
///
/// All objects are retained forever and card marking is disabled: the heap
/// range `[lowest, highest)` and the ephemeral range `[ephemeral_low,
/// ephemeral_high)` are both empty, all four bounds being the sentinel
/// `usize::MAX`, so checked stores, bulk reference copies and unchecked object
/// stores all skip the card table. The runtime still needs a non-null card
/// table address, `card_table`, which also serves as the card-bundle table;
/// the empty ranges keep it from ever being indexed. There is no write-watch
/// or region table.
pub fn initial_write_barrier_parameters(card_table: usize) -> (p: WriteBarrierParameters)
    ensures
        p.operation == WriteBarrierOp::Initialize,
        p.is_runtime_suspended,
        !p.requires_upper_bounds_check,
        p.card_table == card_table,
        p.card_bundle_table == card_table,
        p.lowest_address == usize::MAX,
        p.highest_address == usize::MAX,
        p.ephemeral_low == usize::MAX,
        p.ephemeral_high == usize::MAX,
        p.write_watch_table == 0,
        p.region_to_generation_table == 0,
        p.region_shr == 0,
        !p.region_use_bitwise_write_barrier,
{
    let lowest_address = usize::MAX;
    let highest_address = usize::MAX;
    WriteBarrierParameters {
        operation: WriteBarrierOp::Initialize,
        is_runtime_suspended: true,
        requires_upper_bounds_check: false,
        card_table,
        card_bundle_table: card_table,
        lowest_address,
        highest_address,
        ephemeral_low: highest_address,
        ephemeral_high: highest_address,
        write_watch_table: 0,
        region_to_generation_table: 0,
        region_shr: 0,
        region_use_bitwise_write_barrier: false,
    }
}

/// Both ranges of the initial write-barrier setup are empty, and every object
/// address below the sentinel lies outside both of them.
pub proof fn law_initial_barrier_ranges_are_empty(card_table: usize, p: WriteBarrierParameters, a: usize)
    requires
        p == (WriteBarrierParameters {
            operation: WriteBarrierOp::Initialize,
            is_runtime_suspended: true,
            requires_upper_bounds_check: false,
            card_table,
            card_bundle_table: card_table,
            lowest_address: usize::MAX,
            highest_address: usize::MAX,
            ephemeral_low: usize::MAX,
            ephemeral_high: usize::MAX,
            write_watch_table: 0,
            region_to_generation_table: 0,
            region_shr: 0,
            region_use_bitwise_write_barrier: false,
        }),
    ensures
        !(p.lowest_address <= a < p.highest_address),
        !(p.ephemeral_low <= a < p.ephemeral_high),
{
}

/// The runtime's callback table as handed to the collector: a context and an
/// optional write-barrier callback, both identified by their addresses.
#[derive(Clone, Copy, Debug)]
pub struct IGcToClr {
    pub context: usize,
    pub stomp_write_barrier: Option<usize>,
}

/// An installed callback table: a non-null context and a present callback.
#[derive(Clone, Copy, Debug, PartialEq, Eq, Structural)]
pub struct GcToClr {
    pub context: usize,
    pub stomp_write_barrier: usize,
}

/// The table that an acceptable source yields: its context and its callback.
pub open spec fn candidate_of(source: IGcToClr) -> GcToClr {
    GcToClr { context: source.context, stomp_write_barrier: source.stomp_write_barrier->0 }
}

/// Whether a source table may be installed: it is present, has a callback and
/// a non-null context.
pub open spec fn source_is_complete(source: Option<IGcToClr>) -> bool {
    &&& source is Some
    &&& source->0.stomp_write_barrier is Some
    &&& source->0.context != 0
}

/// Installs the runtime's callback table into `destination`, at most once.
///
/// A missing table, a missing callback or a null context is refused with
/// `E_POINTER`. The first complete table is installed and returned.
/// Installing the identical table again returns the installed one; any other
/// table is refused with `E_UNEXPECTED`. An installed table is never replaced.
pub fn install_gc_to_clr_in(destination: &mut Option<GcToClr>, source: Option<IGcToClr>) -> (r:
    Result<GcToClr, HResult>)
    ensures
        !source_is_complete(source) ==> r == Err::<GcToClr, HResult>(E_POINTER),
        !source_is_complete(source) ==> *final(destination) == *old(destination),
        source_is_complete(source) && (*old(destination)) is None ==> r == Ok::<GcToClr, HResult>(
            candidate_of(source->0),
        ),
        source_is_complete(source) && (*old(destination)) is None ==> *final(destination) == Some(
            candidate_of(source->0),
        ),
        (*old(destination)) is Some ==> *final(destination) == *old(destination),
        source_is_complete(source) && (*old(destination)) is Some && (*old(destination))->0
            == candidate_of(source->0) ==> r == Ok::<GcToClr, HResult>((*old(destination))->0),
        source_is_complete(source) && (*old(destination)) is Some && (*old(destination))->0
            != candidate_of(source->0) ==> r == Err::<GcToClr, HResult>(E_UNEXPECTED),
{
    let source = match source {
        Some(source) => source,
        None => {
            return Err(E_POINTER);
        },
    };
    let stomp_write_barrier = match source.stomp_write_barrier {
        Some(callback) => callback,
        None => {
            return Err(E_POINTER);
        },
    };
    if source.context == 0 {
        return Err(E_POINTER);
    }
    let candidate = GcToClr { context: source.context, stomp_write_barrier };
    match destination {
        None => {
            *destination = Some(candidate);
            Ok(candidate)
        },
        Some(installed) => {
            if installed.context == candidate.context && installed.stomp_write_barrier
                == candidate.stomp_write_barrier {
                Ok(*installed)
            } else {
                Err(E_UNEXPECTED)
            }
        },
    }
}

} // verus!
