use vstd::prelude::*;

verus! {

/// Which monitored quantity a poller or a query concerns.
#[derive(Clone, Copy, Debug, PartialEq, Eq, Structural)]
pub enum MetricKind {
    CpuTemp,
    GpuTemp,
}

/// Readings are carried as the IEEE-754 bit pattern of an `f32`; the core
/// stores and echoes them and never computes with them.
/// `0` is the bit pattern of `0.0`, the value reported before any
/// successful poll.
pub const SENTINEL: u32 = 0;

} // verus!
