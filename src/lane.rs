use vstd::prelude::*;

verus! {

/// Identifier of a message lane: four opaque bytes, held as one `u32`.
///
/// It is the one key that ties a route, a channel-status entry and the two
/// message streams of a lane together.
#[derive(Clone, Copy, Debug, PartialEq, Eq, Structural)]
pub struct LaneId(pub u32);

impl LaneId {
    pub fn new(id: u32) -> (r: LaneId)
        ensures
            r.0 == id,
    {
        LaneId(id)
    }
}

/// Who originates the traffic of a lane (the sibling parachain that sends on
/// it and receives its congestion notices), and the lane itself.
#[derive(Clone, Copy, Debug, PartialEq, Eq, Structural)]
pub struct SenderAndLane {
    /// Parachain id of the sender.
    pub sender: u32,
    pub lane: LaneId,
}

impl SenderAndLane {
    pub fn new(sender: u32, lane: LaneId) -> (r: SenderAndLane)
        ensures
            r.sender == sender,
            r.lane == lane,
    {
        SenderAndLane { sender, lane }
    }
}

} // verus!
