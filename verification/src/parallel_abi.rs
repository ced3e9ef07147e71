//! Values exchanged with parallel-port callers, as plain fields.

use vstd::prelude::*;

verus! {

/// Try the configured ppdev node, and an explicitly configured raw I/O port behind it.
pub const PARALLEL_TRANSPORT_AUTO: u32 = 0;

/// Explicit Linux ppdev transport.
pub const PARALLEL_TRANSPORT_PPDEV: u32 = 1;

/// Explicit raw x86 I/O-port transport.
pub const PARALLEL_TRANSPORT_RAW_IO: u32 = 2;

/// Complete size of [`ParallelConfig`].
pub const PARALLEL_CONFIG_SIZE: u32 = 40;

/// Complete size of [`ParallelInputSnapshot`].
pub const PARALLEL_INPUT_SNAPSHOT_SIZE: u32 = 16;

/// Complete size of [`ParallelOutputAction`].
pub const PARALLEL_OUTPUT_ACTION_SIZE: u32 = 24;

/// Complete size of [`ParallelInvertingPulseAction`].
pub const PARALLEL_INVERTING_PULSE_ACTION_SIZE: u32 = 20;

/// Complete size of [`ParallelScheduledInvertingPulseAction`].
pub const PARALLEL_SCHEDULED_INVERTING_PULSE_ACTION_SIZE: u32 = 20;

/// Complete size of [`ParallelStats`].
pub const PARALLEL_STATS_SIZE: u32 = 48;

/// Selection of one parallel-port transport.
#[derive(Clone, Debug)]
pub struct ParallelConfig {
    pub struct_size: u32,
    pub abi_version: u32,
    pub transport: u32,
    /// Bytes of the ppdev node's path, if one was given.
    pub ppdev_path: Option<Vec<u8>>,
    pub raw_io_base: u32,
    pub output_enable_mask: u32,
    pub output_initial_mask: u32,
}

/// Parallel input snapshot.
#[derive(Clone, Copy, Debug)]
pub struct ParallelInputSnapshot {
    pub struct_size: u32,
    pub abi_version: u32,
    pub online: u32,
    pub status_mask: u32,
}

/// Persistent output with an optional timed high pulse.
#[derive(Clone, Copy, Debug)]
pub struct ParallelOutputAction {
    pub struct_size: u32,
    pub abi_version: u32,
    pub output_mask: u32,
    pub pulse_mask: u32,
    pub pulse_duration_milliseconds: u32,
    pub cancel_pulse: u32,
}

/// Timed baseline-inverting pulse.
#[derive(Clone, Copy, Debug)]
pub struct ParallelInvertingPulseAction {
    pub struct_size: u32,
    pub abi_version: u32,
    pub invert_mask: u32,
    pub pulse_duration_milliseconds: u32,
    pub cancel_pulse: u32,
}

/// Independently scheduled output inversion request.
#[derive(Clone, Copy, Debug)]
pub struct ParallelScheduledInvertingPulseAction {
    pub struct_size: u32,
    pub abi_version: u32,
    pub invert_mask: u32,
    pub pulse_duration_milliseconds: u32,
    pub cancel_mask: u32,
}

/// Parallel-port status snapshot.
#[derive(Clone, Copy, Debug)]
pub struct ParallelStats {
    pub struct_size: u32,
    pub abi_version: u32,
    pub input_read_count: u64,
    pub output_apply_count: u64,
    pub io_error_count: u64,
    pub online: u32,
    pub last_io_error: i32,
    pub applied_output_mask: u32,
}

/// A structure is complete when it has room for every field at its natural alignment.
pub proof fn law_port_sizes_cover_the_fields()
    ensures
        PARALLEL_CONFIG_SIZE == 3 * 4 + 4 + 8 + 3 * 4 + 4,
        PARALLEL_INPUT_SNAPSHOT_SIZE == 4 * 4,
        PARALLEL_OUTPUT_ACTION_SIZE == 6 * 4,
        PARALLEL_INVERTING_PULSE_ACTION_SIZE == 5 * 4,
        PARALLEL_SCHEDULED_INVERTING_PULSE_ACTION_SIZE == 5 * 4,
        PARALLEL_STATS_SIZE == 2 * 4 + 3 * 8 + 3 * 4 + 4,
{
}

} // verus!
