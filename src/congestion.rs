use vstd::prelude::*;

use crate::lane::{LaneId, SenderAndLane};

verus! {

/// The outstanding-message counts between which a lane's congestion state
/// holds still: above `high` a lane is congested, at or below `low` it is not.
#[derive(Clone, Copy, Debug, PartialEq, Eq, Structural)]
pub struct Watermarks {
    pub high: u64,
    pub low: u64,
}

impl Watermarks {
    pub open spec fn wf(&self) -> bool {
        self.low < self.high
    }

    /// Watermarks with `low < high`; `None` otherwise.
    pub fn new(high: u64, low: u64) -> (r: Option<Watermarks>)
        ensures
            low < high <==> r is Some,
            r matches Some(w) ==> w.high == high && w.low == low && w.wf(),
    {
        if low < high {
            Some(Watermarks { high, low })
        } else {
            None
        }
    }
}

/// Which of the two fixed notices goes back to a lane's sender.
#[derive(Clone, Copy, Debug, PartialEq, Eq, Structural)]
pub enum NoticeKind {
    Congested,
    Uncongested,
}

/// A notice to send, best effort, back along `route` to the lane's sender.
#[derive(Clone, Copy, Debug, PartialEq, Eq, Structural)]
pub struct CongestionNotice {
    pub route: SenderAndLane,
    pub kind: NoticeKind,
}

/// The congestion state after an event that reports `outstanding` messages,
/// when it was `prev` before.
pub open spec fn next_congested(prev: bool, outstanding: u64, w: Watermarks) -> bool {
    if outstanding > w.high {
        true
    } else if outstanding <= w.low {
        false
    } else {
        prev
    }
}

/// The notice owed when the state moves from `prev` to `now`: one per change
/// and none otherwise.
pub open spec fn notice_for(prev: bool, now: bool) -> Option<NoticeKind> {
    if prev == now {
        None
    } else if now {
        Some(NoticeKind::Congested)
    } else {
        Some(NoticeKind::Uncongested)
    }
}

/// The congestion state of a lane that started clear and then saw events
/// reporting `counts`, in order.
pub open spec fn congested_after(w: Watermarks, counts: Seq<u64>) -> bool
    decreases counts.len(),
{
    if counts.len() == 0 {
        false
    } else {
        next_congested(congested_after(w, counts.drop_last()), counts.last(), w)
    }
}

/// The notice emitted on the `i`-th event of `counts`.
pub open spec fn notice_at(w: Watermarks, counts: Seq<u64>, i: int) -> Option<NoticeKind> {
    notice_for(congested_after(w, counts.take(i)), congested_after(w, counts.take(i + 1)))
}

/// Whether, among `counts`, some count went above `high` and none after it
/// dropped to or below `low`.
pub open spec fn crossed_and_held(w: Watermarks, counts: Seq<u64>) -> bool {
    exists|j: int|
        0 <= j < counts.len() && (#[trigger] counts[j]) > w.high && forall|k: int|
            j < k < counts.len() ==> (#[trigger] counts[k]) > w.low
}

/// The congestion handler of one lane: it remembers whether the lane was
/// congested at the last event, and reacts only to events of its own lane.
#[derive(Clone, Copy, Debug, PartialEq, Eq, Structural)]
pub struct XcmBlobHaulerItemAdapter {
    pub route: SenderAndLane,
    pub watermarks: Watermarks,
    pub congested: bool,
}

impl XcmBlobHaulerItemAdapter {
    /// The handler and the notice after an event of `lane` reporting
    /// `enqueued_messages` outstanding messages.
    pub open spec fn step(self, lane: LaneId, enqueued_messages: u64) -> (
        XcmBlobHaulerItemAdapter,
        Option<CongestionNotice>,
    ) {
        if lane != self.route.lane {
            (self, None)
        } else {
            let now = next_congested(self.congested, enqueued_messages, self.watermarks);
            let next = XcmBlobHaulerItemAdapter { congested: now, ..self };
            match notice_for(self.congested, now) {
                Some(kind) => (next, Some(CongestionNotice { route: self.route, kind })),
                None => (next, None),
            }
        }
    }

    /// The handler, and the notice of each event, after events of its own lane
    /// reporting `counts`, in order.
    pub open spec fn run(self, counts: Seq<u64>) -> (
        XcmBlobHaulerItemAdapter,
        Seq<Option<CongestionNotice>>,
    )
        decreases counts.len(),
    {
        if counts.len() == 0 {
            (self, Seq::empty())
        } else {
            let (h, notices) = self.run(counts.drop_last());
            let (next, notice) = h.step(self.route.lane, counts.last());
            (next, notices.push(notice))
        }
    }

    /// A handler for `route` whose lane starts uncongested.
    pub fn new(route: SenderAndLane, watermarks: Watermarks) -> (r: XcmBlobHaulerItemAdapter)
        ensures
            r.route == route,
            r.watermarks == watermarks,
            !r.congested,
    {
        XcmBlobHaulerItemAdapter { route, watermarks, congested: false }
    }

    /// Applies one event of `lane` reporting `enqueued_messages` outstanding messages.
    pub(crate) fn observe(&mut self, lane: LaneId, enqueued_messages: u64) -> (r: Option<CongestionNotice>)
        ensures
            (*final(self), r) == old(self).step(lane, enqueued_messages),
    {
        if lane != self.route.lane {
            return None;
        }
        let prev = self.congested;
        let now = if enqueued_messages > self.watermarks.high {
            true
        } else if enqueued_messages <= self.watermarks.low {
            false
        } else {
            prev
        };
        self.congested = now;
        if prev == now {
            None
        } else if now {
            Some(CongestionNotice { route: self.route, kind: NoticeKind::Congested })
        } else {
            Some(CongestionNotice { route: self.route, kind: NoticeKind::Uncongested })
        }
    }

    /// Reacts to a message enqueued on `lane`, after which `enqueued_messages`
    /// are outstanding. Events of another lane change nothing.
    pub fn try_on_message_enqueued(&mut self, lane: LaneId, enqueued_messages: u64) -> (r: Option<
        CongestionNotice,
    >)
        ensures
            (*final(self), r) == old(self).step(lane, enqueued_messages),
    {
        self.observe(lane, enqueued_messages)
    }

    /// Reacts to a delivery confirmation on `lane`, after which
    /// `enqueued_messages` are still outstanding. Events of another lane change
    /// nothing.
    pub fn try_on_messages_delivered(&mut self, lane: LaneId, enqueued_messages: u64) -> (r: Option<
        CongestionNotice,
    >)
        ensures
            (*final(self), r) == old(self).step(lane, enqueued_messages),
    {
        self.observe(lane, enqueued_messages)
    }
}

/// A handler that starts uncongested and sees events of its lane reporting
/// `counts` ends congested exactly as `congested_after` says, and emits on the
/// `i`-th event exactly the notice `notice_at` gives, addressed to its route.
pub proof fn lemma_handler_follows_hysteresis(handler: XcmBlobHaulerItemAdapter, counts: Seq<u64>)
    requires
        !handler.congested,
    ensures
        handler.run(counts).0 == (XcmBlobHaulerItemAdapter {
            congested: congested_after(handler.watermarks, counts),
            ..handler
        }),
        handler.run(counts).1.len() == counts.len(),
        forall|i: int|
            0 <= i < counts.len() ==> match notice_at(handler.watermarks, counts, i) {
                Some(kind) => #[trigger] handler.run(counts).1[i] == Some(
                    CongestionNotice { route: handler.route, kind },
                ),
                None => handler.run(counts).1[i] is None,
            },
    decreases counts.len(),
{
    let w = handler.watermarks;
    if counts.len() > 0 {
        let p = counts.drop_last();
        let n = counts.len() - 1;
        lemma_handler_follows_hysteresis(handler, p);
        assert(counts.take(n + 1) =~= counts);
        assert(counts.take(n) =~= p);
        assert(p.take(n) =~= p);
        assert forall|i: int| 0 <= i < counts.len() implies match notice_at(w, counts, i) {
            Some(kind) => #[trigger] handler.run(counts).1[i] == Some(
                CongestionNotice { route: handler.route, kind },
            ),
            None => handler.run(counts).1[i] is None,
        } by {
            if i < n {
                assert(p.take(i) =~= counts.take(i));
                assert(p.take(i + 1) =~= counts.take(i + 1));
                assert(handler.run(counts).1[i] == handler.run(p).1[i]);
            }
        }
    }
}

/// Hysteresis: after any sequence of events on one lane, the lane is congested
/// exactly when some count went above the high watermark and none since then
/// dropped to or below the low one. So a congested notice comes exactly on the
/// event that first crosses the high watermark, an uncongested notice exactly
/// on the event that first drops to or below the low watermark after that, and
/// no other event emits one.
pub proof fn lemma_hysteresis(w: Watermarks, counts: Seq<u64>, i: int)
    requires
        w.wf(),
        0 <= i < counts.len(),
    ensures
        congested_after(w, counts) == crossed_and_held(w, counts),
        notice_at(w, counts, i) == Some(NoticeKind::Congested) <==> counts[i] > w.high
            && !crossed_and_held(w, counts.take(i)),
        notice_at(w, counts, i) == Some(NoticeKind::Uncongested) <==> counts[i] <= w.low
            && crossed_and_held(w, counts.take(i)),
        notice_at(w, counts, i) is None <==> (counts[i] > w.high && crossed_and_held(
            w,
            counts.take(i),
        )) || (counts[i] <= w.low && !crossed_and_held(w, counts.take(i))) || (w.low < counts[i]
            <= w.high),
{
    lemma_congested_after_characterised(w, counts);
    lemma_congested_after_characterised(w, counts.take(i));
    lemma_congested_after_characterised(w, counts.take(i + 1));
    assert(counts.take(i + 1).drop_last() =~= counts.take(i));
    assert(counts.take(i + 1).last() == counts[i]);
}

proof fn lemma_congested_after_characterised(w: Watermarks, counts: Seq<u64>)
    requires
        w.wf(),
    ensures
        congested_after(w, counts) == crossed_and_held(w, counts),
    decreases counts.len(),
{
    if counts.len() > 0 {
        let prefix = counts.drop_last();
        let n = counts.len() - 1;
        lemma_congested_after_characterised(w, prefix);
        if counts[n] > w.high {
            assert(crossed_and_held(w, counts)) by {
                assert(counts[n] > w.high);
            }
        } else if counts[n] <= w.low {
            if crossed_and_held(w, counts) {
                let j = choose|j: int|
                    0 <= j < counts.len() && (#[trigger] counts[j]) > w.high && forall|k: int|
                        j < k < counts.len() ==> (#[trigger] counts[k]) > w.low;
                if j < n {
                    assert(counts[n] > w.low);
                }
            }
        } else {
            if crossed_and_held(w, prefix) {
                let j = choose|j: int|
                    0 <= j < prefix.len() && (#[trigger] prefix[j]) > w.high && forall|k: int|
                        j < k < prefix.len() ==> (#[trigger] prefix[k]) > w.low;
                assert(counts[j] == prefix[j]);
                assert forall|k: int| j < k < counts.len() implies (#[trigger] counts[k]) > w.low by {
                    if k < n {
                        assert(counts[k] == prefix[k]);
                    }
                }
            }
            if crossed_and_held(w, counts) {
                let j = choose|j: int|
                    0 <= j < counts.len() && (#[trigger] counts[j]) > w.high && forall|k: int|
                        j < k < counts.len() ==> (#[trigger] counts[k]) > w.low;
                assert(j < n);
                assert(prefix[j] == counts[j]);
                assert forall|k: int| j < k < prefix.len() implies (#[trigger] prefix[k]) > w.low by {
                    assert(counts[k] == prefix[k]);
                }
            }
        }
    }
}

} // verus!
