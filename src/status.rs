use vstd::prelude::*;

verus! {

/// Reports whether the local outbound channel behind a lane is blocked.
///
/// A report is a pure read: asking twice without a change of the channel's
/// state gives the same answer.
pub trait XcmChannelStatusProvider {
    /// Whether the channel is congested (and so inactive).
    spec fn congested(&self) -> bool;

    /// Returns true if the channel is currently congested.
    fn is_congested(&self) -> (r: bool)
        ensures
            r == self.congested(),
    ;
}

/// A provider for lanes whose channel has no backpressure to track: it never
/// reports congestion.
#[derive(Clone, Copy, Debug, PartialEq, Eq, Structural)]
pub struct NeverCongested;

impl XcmChannelStatusProvider for NeverCongested {
    open spec fn congested(&self) -> bool {
        false
    }

    fn is_congested(&self) -> (r: bool) {
        false
    }
}

/// A provider that reads the depth of the outbound queue towards the sibling
/// chain: the channel is congested once more messages are queued than it may
/// hold, or when the channel has been suspended.
#[derive(Clone, Copy, Debug, PartialEq, Eq, Structural)]
pub struct XcmChannelStatusProviderAdapter {
    pub suspended: bool,
    pub queued_messages: u64,
    pub max_queued_messages: u64,
}

impl XcmChannelStatusProviderAdapter {
    /// A provider over an active channel with an empty queue.
    pub fn new(max_queued_messages: u64) -> (r: XcmChannelStatusProviderAdapter)
        ensures
            !r.suspended,
            r.queued_messages == 0,
            r.max_queued_messages == max_queued_messages,
            !r.congested(),
    {
        XcmChannelStatusProviderAdapter { suspended: false, queued_messages: 0, max_queued_messages }
    }
}

impl XcmChannelStatusProvider for XcmChannelStatusProviderAdapter {
    open spec fn congested(&self) -> bool {
        self.suspended || self.queued_messages > self.max_queued_messages
    }

    fn is_congested(&self) -> (r: bool) {
        self.suspended || self.queued_messages > self.max_queued_messages
    }
}

} // verus!
