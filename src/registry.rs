use vstd::prelude::*;

use crate::lane::{LaneId, SenderAndLane};
use crate::status::XcmChannelStatusProvider;

verus! {

/// What the registry knows of one lane: its route and the provider that tells
/// whether the lane's local outbound channel is live.
pub struct LaneEntry<P> {
    pub route: SenderAndLane,
    pub status: P,
}

/// Why a lane could not be added to a registry.
#[derive(Clone, Copy, Debug, PartialEq, Eq, Structural)]
pub enum RegistryError {
    /// The lane is already registered.
    DuplicateLane,
}

/// The lanes of one bridge instance, each with its route and channel-status
/// provider. Lookups scan the (small) list; every lane appears at most once.
pub struct LaneRegistry<P> {
    entries: Vec<LaneEntry<P>>,
}

impl<P> View for LaneRegistry<P> {
    type V = Seq<LaneEntry<P>>;

    closed spec fn view(&self) -> Seq<LaneEntry<P>> {
        self.entries@
    }
}

/// Whether `entries` holds an entry for `lane`.
pub open spec fn has_lane<P>(entries: Seq<LaneEntry<P>>, lane: LaneId) -> bool {
    exists|i: int| 0 <= i < entries.len() && (#[trigger] entries[i]).route.lane == lane
}

impl<P> LaneRegistry<P> {
    /// No lane appears twice.
    pub open spec fn wf(&self) -> bool {
        forall|i: int, j: int|
            0 <= i < self@.len() && 0 <= j < self@.len() && (#[trigger] self@[i]).route.lane
                == (#[trigger] self@[j]).route.lane ==> i == j
    }

    /// The entry registered for `lane`, if any.
    pub open spec fn entry_of(&self, lane: LaneId) -> Option<LaneEntry<P>> {
        if has_lane(self@, lane) {
            Some(
                self@[choose|i: int| 0 <= i < self@.len() && (#[trigger] self@[i]).route.lane == lane],
            )
        } else {
            None
        }
    }

    /// An empty registry.
    pub fn new() -> (r: LaneRegistry<P>)
        ensures
            r@ == Seq::<LaneEntry<P>>::empty(),
            r.wf(),
    {
        LaneRegistry { entries: Vec::new() }
    }

    /// The number of registered lanes.
    pub fn len(&self) -> (r: usize)
        ensures
            r == self@.len(),
    {
        self.entries.len()
    }

    /// Position of the entry for `lane`, if any.
    fn position(&self, lane: LaneId) -> (r: Option<usize>)
        requires
            self.wf(),
        ensures
            r is None <==> !has_lane(self@, lane),
            r matches Some(i) ==> i < self@.len() && self@[i as int].route.lane == lane,
    {
        let mut i: usize = 0;
        while i < self.entries.len()
            invariant
                0 <= i <= self@.len(),
                self@ == self.entries@,
                forall|k: int| 0 <= k < i ==> (#[trigger] self@[k]).route.lane != lane,
            decreases self.entries.len() - i,
        {
            if self.entries[i].route.lane == lane {
                return Some(i);
            }
            i = i + 1;
        }
        None
    }

    /// Adds a lane. A lane that is already registered is refused, and the
    /// registry is left as it was.
    pub fn register(&mut self, route: SenderAndLane, status: P) -> (r: Result<(), RegistryError>)
        requires
            old(self).wf(),
        ensures
            final(self).wf(),
            has_lane(old(self)@, route.lane) ==> r == Err::<(), RegistryError>(
                RegistryError::DuplicateLane,
            ) && final(self)@ == old(self)@,
            !has_lane(old(self)@, route.lane) ==> r is Ok && final(self)@ == old(self)@.push(
                LaneEntry { route, status },
            ),
    {
        match self.position(route.lane) {
            Some(_) => Err(RegistryError::DuplicateLane),
            None => {
                self.entries.push(LaneEntry { route, status });
                assert forall|i: int, j: int|
                    0 <= i < self@.len() && 0 <= j < self@.len() && (#[trigger] self@[i]).route.lane
                        == (#[trigger] self@[j]).route.lane implies i == j by {
                    if i == self@.len() - 1 && j < self@.len() - 1 {
                        assert(old(self)@[j] == self@[j]);
                    }
                    if j == self@.len() - 1 && i < self@.len() - 1 {
                        assert(old(self)@[i] == self@[i]);
                    }
                }
                Ok(())
            },
        }
    }

    /// Looks up the route and channel-status provider of `lane`; `None` when
    /// the lane is not one of this bridge's.
    pub fn resolve(&self, lane: LaneId) -> (r: Option<&LaneEntry<P>>)
        requires
            self.wf(),
        ensures
            r is None <==> self.entry_of(lane) is None,
            r matches Some(e) ==> self.entry_of(lane) == Some(*e),
    {
        match self.position(lane) {
            Some(i) => {
                proof {
                    let k = choose|k: int| 0 <= k < self@.len() && (#[trigger] self@[k]).route.lane == lane;
                    assert(self@[k].route.lane == self@[i as int].route.lane);
                }
                Some(&self.entries[i])
            },
            None => None,
        }
    }
}

impl<P: XcmChannelStatusProvider> LaneRegistry<P> {
    /// Whether the local outbound channel of `lane` is live. A lane without an
    /// entry has no tracked backpressure and counts as live.
    pub open spec fn lane_active(&self, lane: LaneId) -> bool {
        match self.entry_of(lane) {
            Some(e) => !e.status.congested(),
            None => true,
        }
    }

    /// Returns true if the local outbound channel associated with `lane` is
    /// active.
    pub fn is_outbound_xcmp_channel_active(&self, lane: LaneId) -> (r: bool)
        requires
            self.wf(),
        ensures
            r == self.lane_active(lane),
    {
        match self.resolve(lane) {
            Some(entry) => !entry.status.is_congested(),
            None => true,
        }
    }
}

/// Resolving a lane twice, with no change of the registry in between, gives
/// the same route and the same channel-status entry.
pub proof fn lemma_resolve_idempotent<P>(
    registry: LaneRegistry<P>,
    lane: LaneId,
    first: Option<LaneEntry<P>>,
    second: Option<LaneEntry<P>>,
)
    requires
        registry.wf(),
        first == registry.entry_of(lane),
        second == registry.entry_of(lane),
    ensures
        first == second,
        first matches Some(e) ==> e.route.lane == lane,
{
}

} // verus!
