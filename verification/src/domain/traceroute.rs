use vstd::prelude::*;

use crate::domain::ids::NodeId;

verus! {

/// A completed route trace. The SNR values (dB) are 32-bit floating-point
/// numbers kept as their IEEE-754 bit patterns; `completed_at_ms` is
/// milliseconds since the Unix epoch.
#[derive(Debug)]
pub struct TracerouteResult {
    pub target: NodeId,
    pub route: Vec<NodeId>,
    pub snr_towards_db_bits: Vec<u32>,
    pub route_back: Vec<NodeId>,
    pub snr_back_db_bits: Vec<u32>,
    pub completed_at_ms: u64,
}

/// Progress of a route trace.
#[derive(Debug)]
pub enum TracerouteState {
    Pending { started_at_ms: u64 },
    Done(TracerouteResult),
    Failed { target: NodeId, reason: String },
}

impl TracerouteState {
    /// The node being traced; node 0 while the trace is still pending.
    pub fn target(&self) -> (r: NodeId)
        ensures
            r == match *self {
                TracerouteState::Pending { .. } => NodeId(0),
                TracerouteState::Done(res) => res.target,
                TracerouteState::Failed { target, .. } => target,
            },
    {
        match self {
            Self::Pending { .. } => NodeId(0),
            Self::Done(r) => r.target,
            Self::Failed { target, .. } => *target,
        }
    }
}

} // verus!
