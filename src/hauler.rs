use vstd::prelude::*;

use crate::congestion::{CongestionNotice, XcmBlobHaulerItemAdapter};
use crate::lane::{LaneId, SenderAndLane};

verus! {

/// What the transport reports for a message it enqueued.
#[derive(Clone, Copy, Debug, PartialEq, Eq, Structural)]
pub struct SendArtifacts {
    /// Nonce given to the message on its lane.
    pub nonce: u64,
    /// Messages of the lane that are enqueued and not yet delivered.
    pub enqueued_messages: u64,
}

/// Why an export failed.
#[derive(Debug, PartialEq, Eq)]
pub enum ExportError<E> {
    /// No handler of this bridge owns the route's lane.
    RouteNotFound,
    /// The transport refused the message.
    Send(E),
}

/// Notices emitted by the first `k` handlers of `items` for one event.
pub open spec fn notices_upto(
    items: Seq<XcmBlobHaulerItemAdapter>,
    lane: LaneId,
    enqueued_messages: u64,
    k: int,
) -> Seq<CongestionNotice>
    decreases k,
{
    if k <= 0 {
        Seq::empty()
    } else {
        let prev = notices_upto(items, lane, enqueued_messages, k - 1);
        match items[k - 1].step(lane, enqueued_messages).1 {
            Some(n) => prev.push(n),
            None => prev,
        }
    }
}

/// Notices emitted by all `items`, in order, for one event.
pub open spec fn notices_of(
    items: Seq<XcmBlobHaulerItemAdapter>,
    lane: LaneId,
    enqueued_messages: u64,
) -> Seq<CongestionNotice> {
    notices_upto(items, lane, enqueued_messages, items.len() as int)
}

/// Every handler of `before` after one event.
pub open spec fn stepped_all(
    before: Seq<XcmBlobHaulerItemAdapter>,
    after: Seq<XcmBlobHaulerItemAdapter>,
    lane: LaneId,
    enqueued_messages: u64,
) -> bool {
    &&& after.len() == before.len()
    &&& forall|i: int|
        0 <= i < before.len() ==> #[trigger] after[i] == before[i].step(lane, enqueued_messages).0
}

/// Whether some handler of `items` owns `lane`.
pub open spec fn owns_lane(items: Seq<XcmBlobHaulerItemAdapter>, lane: LaneId) -> bool {
    exists|i: int| 0 <= i < items.len() && (#[trigger] items[i]).route.lane == lane
}

/// Several independently configured lanes sharing one transport: each event
/// goes to every handler, and each handler acts only on its own lane.
pub struct XcmBlobHaulerAdapter {
    pub items: Vec<XcmBlobHaulerItemAdapter>,
}

impl XcmBlobHaulerAdapter {
    pub fn new(items: Vec<XcmBlobHaulerItemAdapter>) -> (r: XcmBlobHaulerAdapter)
        ensures
            r.items@ == items@,
    {
        XcmBlobHaulerAdapter { items }
    }

    fn broadcast(&mut self, lane: LaneId, enqueued_messages: u64) -> (r: Vec<CongestionNotice>)
        ensures
            stepped_all(old(self).items@, final(self).items@, lane, enqueued_messages),
            r@ == notices_of(old(self).items@, lane, enqueued_messages),
    {
        let ghost before = self.items@;
        let mut notices: Vec<CongestionNotice> = Vec::new();
        let mut i: usize = 0;
        while i < self.items.len()
            invariant
                0 <= i <= self.items@.len(),
                self.items@.len() == before.len(),
                forall|k: int| 0 <= k < i ==> #[trigger] self.items@[k] == before[k].step(lane, enqueued_messages).0,
                forall|k: int| i <= k < before.len() ==> #[trigger] self.items@[k] == before[k],
                notices@ == notices_upto(before, lane, enqueued_messages, i as int),
            decreases self.items@.len() - i,
        {
            let mut item = self.items[i];
            let notice = item.observe(lane, enqueued_messages);
            self.items.set(i, item);
            match notice {
                Some(n) => notices.push(n),
                None => {},
            }
            i = i + 1;
        }
        notices
    }

    /// Hands a message-enqueued event of `lane` to every handler.
    pub fn on_message_enqueued(&mut self, lane: LaneId, enqueued_messages: u64) -> (r: Vec<
        CongestionNotice,
    >)
        ensures
            stepped_all(old(self).items@, final(self).items@, lane, enqueued_messages),
            r@ == notices_of(old(self).items@, lane, enqueued_messages),
    {
        self.broadcast(lane, enqueued_messages)
    }

    /// Hands a messages-delivered event of `lane` to every handler.
    pub fn on_messages_delivered(&mut self, lane: LaneId, enqueued_messages: u64) -> (r: Vec<
        CongestionNotice,
    >)
        ensures
            stepped_all(old(self).items@, final(self).items@, lane, enqueued_messages),
            r@ == notices_of(old(self).items@, lane, enqueued_messages),
    {
        self.broadcast(lane, enqueued_messages)
    }

    /// Exports `message` along `sender_and_lane`: the transport gets the
    /// message on the route's lane, and once it is enqueued every handler
    /// learns the lane's outstanding count. The export succeeds with `id` and
    /// the congestion notices to send; those are advisory and cannot fail it.
    /// A lane that no handler owns is refused before the transport is called.
    pub fn export<M, Id, E, F>(
        &mut self,
        id: Id,
        sender_and_lane: SenderAndLane,
        message: M,
        transport: F,
    ) -> (r: Result<(Id, Vec<CongestionNotice>), ExportError<E>>) where
        F: FnOnce(LaneId, M) -> Result<SendArtifacts, E>,

        requires
            owns_lane(old(self).items@, sender_and_lane.lane) ==> transport.requires(
                (sender_and_lane.lane, message),
            ),
        ensures
            !owns_lane(old(self).items@, sender_and_lane.lane) ==> (r matches Err(
                ExportError::RouteNotFound,
            )) && final(self).items@ == old(self).items@,
            owns_lane(old(self).items@, sender_and_lane.lane) ==> match r {
                Ok((rid, notices)) => exists|a: SendArtifacts|
                    #![trigger transport.ensures((sender_and_lane.lane, message), Ok(a))]
                    transport.ensures((sender_and_lane.lane, message), Ok(a)) && rid == id
                        && stepped_all(
                        old(self).items@,
                        final(self).items@,
                        sender_and_lane.lane,
                        a.enqueued_messages,
                    ) && notices@ == notices_of(
                        old(self).items@,
                        sender_and_lane.lane,
                        a.enqueued_messages,
                    ),
                Err(ExportError::Send(e)) => transport.ensures(
                    (sender_and_lane.lane, message),
                    Err(e),
                ) && final(self).items@ == old(self).items@,
                Err(ExportError::RouteNotFound) => false,
            },
    {
        let lane = sender_and_lane.lane;
        let mut found = false;
        let mut i: usize = 0;
        while i < self.items.len()
            invariant
                0 <= i <= self.items@.len(),
                found <==> exists|k: int| 0 <= k < i && (#[trigger] self.items@[k]).route.lane == lane,
            decreases self.items@.len() - i,
        {
            if self.items[i].route.lane == lane {
                found = true;
            }
            i = i + 1;
        }
        if !found {
            return Err(ExportError::RouteNotFound);
        }
        match transport(lane, message) {
            Ok(artifacts) => {
                let notices = self.on_message_enqueued(lane, artifacts.enqueued_messages);
                Ok((id, notices))
            },
            Err(e) => Err(ExportError::Send(e)),
        }
    }
}

/// Isolation: an event tagged with `lane` leaves every handler of another lane
/// as it was, and every notice it causes is addressed along `lane`.
pub proof fn lemma_lane_isolation(
    items: Seq<XcmBlobHaulerItemAdapter>,
    lane: LaneId,
    enqueued_messages: u64,
)
    ensures
        forall|i: int|
            0 <= i < items.len() && (#[trigger] items[i]).route.lane != lane ==> items[i].step(
                lane,
                enqueued_messages,
            ) == (items[i], None::<CongestionNotice>),
        forall|k: int|
            0 <= k < notices_of(items, lane, enqueued_messages).len() ==> (#[trigger] notices_of(
                items,
                lane,
                enqueued_messages,
            )[k]).route.lane == lane,
{
    lemma_notices_upto_on_lane(items, lane, enqueued_messages, items.len() as int);
}

proof fn lemma_notices_upto_on_lane(
    items: Seq<XcmBlobHaulerItemAdapter>,
    lane: LaneId,
    enqueued_messages: u64,
    n: int,
)
    requires
        0 <= n <= items.len(),
    ensures
        forall|k: int|
            0 <= k < notices_upto(items, lane, enqueued_messages, n).len() ==> (#[trigger] notices_upto(
                items,
                lane,
                enqueued_messages,
                n,
            )[k]).route.lane == lane,
    decreases n,
{
    if n > 0 {
        lemma_notices_upto_on_lane(items, lane, enqueued_messages, n - 1);
    }
}

} // verus!
