use vstd::prelude::*;

use crate::lane::LaneId;
use crate::registry::LaneRegistry;
use crate::status::XcmChannelStatusProvider;

verus! {

/// Why an inbound message batch was not accepted.
#[derive(Debug, PartialEq, Eq)]
pub enum VerificationError<E> {
    /// The local outbound channel of the batch's lane is inactive; the proof
    /// was not looked at.
    ChannelInactive,
    /// The proof engine refused the proof, with its own error.
    Proof(E),
}

impl<P: XcmChannelStatusProvider> LaneRegistry<P> {
    /// Verifies an inbound batch of `messages_count` messages of `lane`.
    ///
    /// The cheap liveness check comes first: when the lane's local outbound
    /// channel is inactive the batch is refused with `ChannelInactive` and
    /// `verify` (the proof engine) is never called. Otherwise, and for lanes
    /// without a status entry, the engine's answer is returned unchanged.
    pub fn on_inbound_batch<Pr, T, E, F>(
        &self,
        lane: LaneId,
        messages_proof: Pr,
        messages_count: u32,
        verify: F,
    ) -> (r: Result<T, VerificationError<E>>) where F: FnOnce(Pr, u32) -> Result<T, E>
        requires
            self.wf(),
            self.lane_active(lane) ==> verify.requires((messages_proof, messages_count)),
        ensures
            !self.lane_active(lane) ==> r == Err::<T, VerificationError<E>>(
                VerificationError::ChannelInactive,
            ),
            self.lane_active(lane) ==> match r {
                Ok(messages) => verify.ensures((messages_proof, messages_count), Ok(messages)),
                Err(VerificationError::Proof(e)) => verify.ensures(
                    (messages_proof, messages_count),
                    Err(e),
                ),
                Err(VerificationError::ChannelInactive) => false,
            },
    {
        if !self.is_outbound_xcmp_channel_active(lane) {
            return Err(VerificationError::ChannelInactive);
        }
        match verify(messages_proof, messages_count) {
            Ok(messages) => Ok(messages),
            Err(e) => Err(VerificationError::Proof(e)),
        }
    }
}

} // verus!
