use vstd::prelude::*;

use crate::lane::LaneId;
use crate::registry::LaneRegistry;
use crate::status::XcmChannelStatusProvider;

verus! {

/// One call of a submitted transaction, after batches have been expanded, as
/// far as the bridge's messages pallet is concerned.
#[derive(Clone, Copy, Debug, PartialEq, Eq, Structural)]
pub enum BridgeCall {
    /// Delivers `messages_count` messages of `lane` to this chain.
    ReceiveMessagesProof { lane: LaneId, messages_count: u32 },
    /// Confirms delivery of messages that this chain sent on `lane`.
    ReceiveMessagesDeliveryProof { lane: LaneId },
    /// Any other call.
    Other,
}

/// Why a transaction is not valid.
#[derive(Debug, PartialEq, Eq)]
pub enum TransactionValidityError<E> {
    /// It delivers messages to a lane whose local outbound channel is
    /// inactive; it cannot become valid as it stands.
    Stale,
    /// The inner refund computation refused it, with its own error.
    Inner(E),
}

impl<P: XcmChannelStatusProvider> LaneRegistry<P> {
    /// Whether some call of `calls` delivers messages to an inactive lane.
    pub open spec fn delivers_to_inactive_lane(&self, calls: Seq<BridgeCall>) -> bool {
        exists|i: int|
            0 <= i < calls.len() && match #[trigger] calls[i] {
                BridgeCall::ReceiveMessagesProof { lane, messages_count: _ } => !self.lane_active(
                    lane,
                ),
                _ => false,
            }
    }

    fn check_delivery_lanes(&self, calls: &Vec<BridgeCall>) -> (r: bool)
        requires
            self.wf(),
        ensures
            r == !self.delivers_to_inactive_lane(calls@),
    {
        let mut i: usize = 0;
        while i < calls.len()
            invariant
                self.wf(),
                0 <= i <= calls@.len(),
                forall|k: int|
                    0 <= k < i ==> match #[trigger] calls@[k] {
                        BridgeCall::ReceiveMessagesProof { lane, messages_count: _ } => self.lane_active(
                            lane,
                        ),
                        _ => true,
                    },
            decreases calls@.len() - i,
        {
            match calls[i] {
                BridgeCall::ReceiveMessagesProof { lane, messages_count: _ } => {
                    if !self.is_outbound_xcmp_channel_active(lane) {
                        return false;
                    }
                },
                _ => {},
            }
            i = i + 1;
        }
        true
    }

    /// Checks a transaction made of `calls`. If any of them delivers messages
    /// to a lane whose local outbound channel is inactive, the transaction is
    /// `Stale` (whatever the other lanes are) and `inner` is not called.
    /// Otherwise the inner refund and priority computation decides, and its
    /// answer is returned unchanged.
    pub fn validate_delivery_tx<V, E, F>(&self, calls: &Vec<BridgeCall>, inner: F) -> (r: Result<
        V,
        TransactionValidityError<E>,
    >) where F: FnOnce() -> Result<V, E>
        requires
            self.wf(),
            !self.delivers_to_inactive_lane(calls@) ==> inner.requires(()),
        ensures
            self.delivers_to_inactive_lane(calls@) ==> r == Err::<V, TransactionValidityError<E>>(
                TransactionValidityError::Stale,
            ),
            !self.delivers_to_inactive_lane(calls@) ==> match r {
                Ok(v) => inner.ensures((), Ok(v)),
                Err(TransactionValidityError::Inner(e)) => inner.ensures((), Err(e)),
                Err(TransactionValidityError::Stale) => false,
            },
    {
        if !self.check_delivery_lanes(calls) {
            return Err(TransactionValidityError::Stale);
        }
        match inner() {
            Ok(v) => Ok(v),
            Err(e) => Err(TransactionValidityError::Inner(e)),
        }
    }

    /// The pre-dispatch step: runs the whole validity check again (the lanes
    /// may have changed since the transaction entered the pool), then hands
    /// over to the inner pre-dispatch computation.
    pub fn pre_dispatch<V, Pre, E, F, G>(
        &self,
        calls: &Vec<BridgeCall>,
        inner_validate: F,
        inner_pre_dispatch: G,
    ) -> (r: Result<Pre, TransactionValidityError<E>>) where
        F: FnOnce() -> Result<V, E>,
        G: FnOnce() -> Result<Pre, E>,

        requires
            self.wf(),
            !self.delivers_to_inactive_lane(calls@) ==> inner_validate.requires(()),
            !self.delivers_to_inactive_lane(calls@) ==> inner_pre_dispatch.requires(()),
        ensures
            self.delivers_to_inactive_lane(calls@) ==> r == Err::<Pre, TransactionValidityError<E>>(
                TransactionValidityError::Stale,
            ),
            !self.delivers_to_inactive_lane(calls@) ==> match r {
                Ok(pre) => (exists|v: V| #[trigger] inner_validate.ensures((), Ok(v)))
                    && inner_pre_dispatch.ensures((), Ok(pre)),
                Err(TransactionValidityError::Inner(e)) => inner_validate.ensures((), Err(e)) || ((
                exists|v: V| #[trigger] inner_validate.ensures((), Ok(v)))
                    && inner_pre_dispatch.ensures((), Err(e))),
                Err(TransactionValidityError::Stale) => false,
            },
    {
        match self.validate_delivery_tx(calls, inner_validate) {
            Ok(_) => {},
            Err(e) => {
                return Err(e);
            },
        }
        match inner_pre_dispatch() {
            Ok(pre) => Ok(pre),
            Err(e) => Err(TransactionValidityError::Inner(e)),
        }
    }
}

/// One call that delivers to an inactive lane makes the whole transaction
/// stale, whatever the lanes of its other calls are: the lanes are checked as
/// a conjunction.
pub proof fn lemma_any_inactive_lane_is_stale<P: XcmChannelStatusProvider>(
    registry: LaneRegistry<P>,
    calls: Seq<BridgeCall>,
    i: int,
    lane: LaneId,
    messages_count: u32,
)
    requires
        0 <= i < calls.len(),
        calls[i] == (BridgeCall::ReceiveMessagesProof { lane, messages_count }),
        !registry.lane_active(lane),
    ensures
        registry.delivers_to_inactive_lane(calls),
{
    assert(match calls[i] {
        BridgeCall::ReceiveMessagesProof { lane, messages_count: _ } => !registry.lane_active(lane),
        _ => false,
    });
}

} // verus!
