use vstd::prelude::*;
use crate::counters::BalloonCounters;
use crate::error::Error;
use crate::queue::{
    chain_spec, chains_spec, process_pfn_chain, process_reporting_chain, process_stats_chain,
    Action, BalloonVq, DescriptorChain, Outcome,
};

verus! {

/// Feature bit: memory statistics virtqueue.
pub const VIRTIO_BALLOON_F_STATS_VQ: u64 = 1;

/// Feature bit: deflate the balloon on guest out-of-memory.
pub const VIRTIO_BALLOON_F_DEFLATE_ON_OOM: u64 = 2;

/// Feature bit: free page reporting virtqueue.
pub const VIRTIO_BALLOON_F_REPORTING: u64 = 5;

/// Feature bit: a second pair of inflate and deflate queues for
/// heterogeneous memory.
pub const VIRTIO_BALLOON_F_HETERO_MEM: u64 = 6;

/// Last event tag reserved by the event loop for its own use.
pub const EPOLL_HELPER_EVENT_LAST: u16 = 15;

/// Inflate virtqueue event.
pub const INFLATE_QUEUE_EVENT: u16 = EPOLL_HELPER_EVENT_LAST + 1;

/// Deflate virtqueue event.
pub const DEFLATE_QUEUE_EVENT: u16 = EPOLL_HELPER_EVENT_LAST + 2;

/// Statistics virtqueue event.
pub const STATS_QUEUE_EVENT: u16 = EPOLL_HELPER_EVENT_LAST + 3;

/// Expiry of the statistics refresh timer.
pub const STATS_TIMER_EVENT: u16 = EPOLL_HELPER_EVENT_LAST + 4;

/// Reporting virtqueue event.
pub const REPORTING_QUEUE_EVENT: u16 = EPOLL_HELPER_EVENT_LAST + 5;

/// Heterogeneous inflate virtqueue event.
pub const HETERO_INFLATE_QUEUE_EVENT: u16 = EPOLL_HELPER_EVENT_LAST + 6;

/// Heterogeneous deflate virtqueue event.
pub const HETERO_DEFLATE_QUEUE_EVENT: u16 = EPOLL_HELPER_EVENT_LAST + 7;

/// Whether feature `bit` is set in `features`.
pub open spec fn feature_set(features: u64, bit: u64) -> bool {
    features & (1u64 << bit) != 0
}

/// Whether feature `bit` is set in `features`.
pub fn has_feature(features: u64, bit: u64) -> (r: bool)
    requires
        bit < 64,
    ensures
        r == feature_set(features, bit),
{
    features & (1u64 << bit) != 0
}

/// Where each queue role sits in the vector of activated queues.
///
/// Inflate and deflate are always present; the others only when their
/// feature was acknowledged and a queue was supplied for them.
#[derive(Debug, Clone, Copy, PartialEq, Eq, Structural)]
pub struct QueueIndices {
    pub inflate: usize,
    pub deflate: usize,
    pub stats: Option<usize>,
    pub reporting: Option<usize>,
    pub hetero_inflate: Option<usize>,
    pub hetero_deflate: Option<usize>,
}

/// The next free index, and the index given to an optional queue: one is
/// given when `wanted` and a queue is left among `num_queues`.
pub open spec fn take_slot(next: nat, wanted: bool, num_queues: nat) -> (nat, Option<usize>) {
    if wanted && next < num_queues {
        (next + 1, Some(next as usize))
    } else {
        (next, None)
    }
}

/// The number of queues that activation needs to give every acknowledged
/// optional feature its queues.
pub open spec fn queues_needed(acked: u64) -> nat {
    2 + (if feature_set(acked, VIRTIO_BALLOON_F_STATS_VQ) {
        1nat
    } else {
        0
    }) + (if feature_set(acked, VIRTIO_BALLOON_F_REPORTING) {
        1nat
    } else {
        0
    }) + (if feature_set(acked, VIRTIO_BALLOON_F_HETERO_MEM) {
        2nat
    } else {
        0
    })
}

impl QueueIndices {
    /// The layout that activation builds from the acknowledged features and
    /// the number of queues the transport supplied, in the fixed order
    /// inflate, deflate, statistics, reporting, heterogeneous inflate,
    /// heterogeneous deflate.
    pub open spec fn layout(acked: u64, num_queues: nat) -> QueueIndices {
        let s = take_slot(2, feature_set(acked, VIRTIO_BALLOON_F_STATS_VQ), num_queues);
        let r = take_slot(s.0, feature_set(acked, VIRTIO_BALLOON_F_REPORTING), num_queues);
        let hi = take_slot(r.0, feature_set(acked, VIRTIO_BALLOON_F_HETERO_MEM), num_queues);
        let hd = take_slot(hi.0, feature_set(acked, VIRTIO_BALLOON_F_HETERO_MEM), num_queues);
        QueueIndices {
            inflate: 0,
            deflate: 1,
            stats: s.1,
            reporting: r.1,
            hetero_inflate: hi.1,
            hetero_deflate: hd.1,
        }
    }

    /// The index of the queue playing `role`, if it is present.
    pub open spec fn spec_index_of(&self, role: BalloonVq) -> Option<usize> {
        match role {
            BalloonVq::Inflate => Some(self.inflate),
            BalloonVq::Deflate => Some(self.deflate),
            BalloonVq::Stats => self.stats,
            BalloonVq::Reporting => self.reporting,
            BalloonVq::HeteroInflate => self.hetero_inflate,
            BalloonVq::HeteroDeflate => self.hetero_deflate,
        }
    }

    /// The event tags to register, in registration order.
    pub open spec fn spec_events(&self) -> Seq<u16> {
        seq![INFLATE_QUEUE_EVENT, DEFLATE_QUEUE_EVENT] + (if self.stats is Some {
            seq![STATS_TIMER_EVENT, STATS_QUEUE_EVENT]
        } else {
            Seq::empty()
        }) + (if self.reporting is Some {
            seq![REPORTING_QUEUE_EVENT]
        } else {
            Seq::empty()
        }) + (if self.hetero_inflate is Some {
            seq![HETERO_INFLATE_QUEUE_EVENT]
        } else {
            Seq::empty()
        }) + (if self.hetero_deflate is Some {
            seq![HETERO_DEFLATE_QUEUE_EVENT]
        } else {
            Seq::empty()
        })
    }

    /// Builds the layout from the acknowledged features and the number of
    /// queues supplied.
    pub fn from_features(acked: u64, num_queues: usize) -> (r: QueueIndices)
        requires
            num_queues >= 2,
        ensures
            r == QueueIndices::layout(acked, num_queues as nat),
    {
        let mut next: usize = 2;
        let stats = if has_feature(acked, VIRTIO_BALLOON_F_STATS_VQ) && next < num_queues {
            next = next + 1;
            Some(next - 1)
        } else {
            None
        };
        let reporting = if has_feature(acked, VIRTIO_BALLOON_F_REPORTING) && next < num_queues {
            next = next + 1;
            Some(next - 1)
        } else {
            None
        };
        let hetero = has_feature(acked, VIRTIO_BALLOON_F_HETERO_MEM);
        let hetero_inflate = if hetero && next < num_queues {
            next = next + 1;
            Some(next - 1)
        } else {
            None
        };
        let hetero_deflate = if hetero && next < num_queues {
            next = next + 1;
            Some(next - 1)
        } else {
            None
        };
        QueueIndices { inflate: 0, deflate: 1, stats, reporting, hetero_inflate, hetero_deflate }
    }

    /// The number of queues that the acknowledged features `acked` need.
    pub fn queues_needed_for(acked: u64) -> (r: usize)
        ensures
            r == queues_needed(acked),
    {
        let mut n: usize = 2;
        if has_feature(acked, VIRTIO_BALLOON_F_STATS_VQ) {
            n = n + 1;
        }
        if has_feature(acked, VIRTIO_BALLOON_F_REPORTING) {
            n = n + 1;
        }
        if has_feature(acked, VIRTIO_BALLOON_F_HETERO_MEM) {
            n = n + 2;
        }
        n
    }

    /// The index of the queue playing `role`, if it is present.
    pub fn index_of(&self, role: BalloonVq) -> (r: Option<usize>)
        ensures
            r == self.spec_index_of(role),
    {
        match role {
            BalloonVq::Inflate => Some(self.inflate),
            BalloonVq::Deflate => Some(self.deflate),
            BalloonVq::Stats => self.stats,
            BalloonVq::Reporting => self.reporting,
            BalloonVq::HeteroInflate => self.hetero_inflate,
            BalloonVq::HeteroDeflate => self.hetero_deflate,
        }
    }

    /// The event tags to register with the event loop, in order.
    pub fn events(&self) -> (r: Vec<u16>)
        ensures
            r@ == self.spec_events(),
    {
        let mut v: Vec<u16> = Vec::new();
        v.push(INFLATE_QUEUE_EVENT);
        v.push(DEFLATE_QUEUE_EVENT);
        if self.stats.is_some() {
            v.push(STATS_TIMER_EVENT);
            v.push(STATS_QUEUE_EVENT);
        }
        if self.reporting.is_some() {
            v.push(REPORTING_QUEUE_EVENT);
        }
        if self.hetero_inflate.is_some() {
            v.push(HETERO_INFLATE_QUEUE_EVENT);
        }
        if self.hetero_deflate.is_some() {
            v.push(HETERO_DEFLATE_QUEUE_EVENT);
        }
        assert(v@ =~= self.spec_events());
        v
    }
}

/// What a readiness event asks the worker to do.
#[derive(Debug, Clone, Copy, PartialEq, Eq, Structural)]
pub enum EventKind {
    /// Drain the queue playing this role.
    Queue(BalloonVq),
    /// The statistics refresh timer expired.
    StatsTimer,
}

/// Why a readiness event cannot be handled.
#[derive(Debug, Clone, Copy, PartialEq, Eq, Structural)]
pub enum DispatchError {
    /// The event belongs to a feature that was not activated.
    NotRegistered(u16),
    /// The event tag is not one of the balloon's.
    Unknown(u16),
}

/// The handler's view of the statistics queue, timer and queue layout.
#[derive(Debug, Clone, Copy)]
pub struct BalloonEpollHandler {
    pub queue_indices: QueueIndices,
    /// Whether a refresh interval was configured.
    pub stats_interval_set: bool,
    /// The statistics queue index, latched on its first drain.
    pub stats_queue_index: Option<usize>,
    pub counters: BalloonCounters,
}

/// The outcome of a readiness event `ev` for a device with layout `q`.
pub open spec fn dispatch_spec(q: QueueIndices, ev: u16) -> Result<EventKind, DispatchError> {
    if ev == INFLATE_QUEUE_EVENT {
        Ok(EventKind::Queue(BalloonVq::Inflate))
    } else if ev == DEFLATE_QUEUE_EVENT {
        Ok(EventKind::Queue(BalloonVq::Deflate))
    } else if ev == STATS_TIMER_EVENT {
        if q.stats is Some {
            Ok(EventKind::StatsTimer)
        } else {
            Err(DispatchError::NotRegistered(ev))
        }
    } else if ev == STATS_QUEUE_EVENT {
        if q.stats is Some {
            Ok(EventKind::Queue(BalloonVq::Stats))
        } else {
            Err(DispatchError::NotRegistered(ev))
        }
    } else if ev == REPORTING_QUEUE_EVENT {
        if q.reporting is Some {
            Ok(EventKind::Queue(BalloonVq::Reporting))
        } else {
            Err(DispatchError::NotRegistered(ev))
        }
    } else if ev == HETERO_INFLATE_QUEUE_EVENT {
        if q.hetero_inflate is Some {
            Ok(EventKind::Queue(BalloonVq::HeteroInflate))
        } else {
            Err(DispatchError::NotRegistered(ev))
        }
    } else if ev == HETERO_DEFLATE_QUEUE_EVENT {
        if q.hetero_deflate is Some {
            Ok(EventKind::Queue(BalloonVq::HeteroDeflate))
        } else {
            Err(DispatchError::NotRegistered(ev))
        }
    } else {
        Err(DispatchError::Unknown(ev))
    }
}

/// The action, or the error, that ends a drain of the queue at
/// `queue_index` playing `role` that consumed at least one chain.
pub open spec fn closing_spec(role: BalloonVq, queue_index: usize, interval_set: bool) -> Result<
    Action,
    Error,
> {
    if role == BalloonVq::Stats {
        if interval_set {
            Ok(Action::ArmStatsTimer)
        } else {
            Err(Error::MemoryStatistic)
        }
    } else {
        Ok(Action::Signal { queue_index })
    }
}

/// A whole drain of the chains `cs` on the queue at `queue_index` playing
/// `role`: the chains' actions, then, when every chain succeeded and there
/// was at least one, the closing action; and the statistics cells after it.
pub open spec fn drain_spec(
    cells: Seq<u64>,
    role: BalloonVq,
    queue_index: usize,
    interval_set: bool,
    cs: Seq<DescriptorChain>,
) -> (Seq<Action>, Option<Error>, Seq<u64>) {
    let r = chains_spec(cells, role, cs);
    if r.1 is None && cs.len() > 0 {
        match closing_spec(role, queue_index, interval_set) {
            Ok(a) => (r.0.push(a), None, r.2),
            Err(e) => (r.0, Some(e), r.2),
        }
    } else {
        r
    }
}

impl BalloonEpollHandler {
    /// A handler for the queues laid out as `queue_indices`, with fresh
    /// statistics.
    pub fn new(queue_indices: QueueIndices, stats_interval_set: bool) -> (r: Self)
        ensures
            r.queue_indices == queue_indices,
            r.stats_interval_set == stats_interval_set,
            r.stats_queue_index is None,
            r.counters@ == Seq::new(16, |i: int| 0u64),
    {
        BalloonEpollHandler {
            queue_indices,
            stats_interval_set,
            stats_queue_index: None,
            counters: BalloonCounters::new(),
        }
    }

    /// Decides what readiness event `ev` asks for.
    pub fn dispatch(&self, ev: u16) -> (r: Result<EventKind, DispatchError>)
        ensures
            r == dispatch_spec(self.queue_indices, ev),
    {
        let q = &self.queue_indices;
        if ev == INFLATE_QUEUE_EVENT {
            Ok(EventKind::Queue(BalloonVq::Inflate))
        } else if ev == DEFLATE_QUEUE_EVENT {
            Ok(EventKind::Queue(BalloonVq::Deflate))
        } else if ev == STATS_TIMER_EVENT {
            if q.stats.is_some() {
                Ok(EventKind::StatsTimer)
            } else {
                Err(DispatchError::NotRegistered(ev))
            }
        } else if ev == STATS_QUEUE_EVENT {
            if q.stats.is_some() {
                Ok(EventKind::Queue(BalloonVq::Stats))
            } else {
                Err(DispatchError::NotRegistered(ev))
            }
        } else if ev == REPORTING_QUEUE_EVENT {
            if q.reporting.is_some() {
                Ok(EventKind::Queue(BalloonVq::Reporting))
            } else {
                Err(DispatchError::NotRegistered(ev))
            }
        } else if ev == HETERO_INFLATE_QUEUE_EVENT {
            if q.hetero_inflate.is_some() {
                Ok(EventKind::Queue(BalloonVq::HeteroInflate))
            } else {
                Err(DispatchError::NotRegistered(ev))
            }
        } else if ev == HETERO_DEFLATE_QUEUE_EVENT {
            if q.hetero_deflate.is_some() {
                Ok(EventKind::Queue(BalloonVq::HeteroDeflate))
            } else {
                Err(DispatchError::NotRegistered(ev))
            }
        } else {
            Err(DispatchError::Unknown(ev))
        }
    }

    /// Starts a drain of the queue playing `role`: the first drain of the
    /// statistics queue latches its index for the refresh timer.
    pub fn begin_drain(&mut self, role: BalloonVq)
        requires
            old(self).queue_indices.spec_index_of(role) is Some,
        ensures
            final(self).queue_indices == old(self).queue_indices,
            final(self).stats_interval_set == old(self).stats_interval_set,
            final(self).counters == old(self).counters,
            final(self).stats_queue_index == (if role == BalloonVq::Stats
                && old(self).stats_queue_index is None {
                old(self).queue_indices.spec_index_of(role)
            } else {
                old(self).stats_queue_index
            }),
    {
        if role == BalloonVq::Stats && self.stats_queue_index.is_none() {
            self.stats_queue_index = self.queue_indices.index_of(role);
        }
    }

    /// Handles one chain taken from the queue playing `role`.
    pub fn process_chain(&mut self, role: BalloonVq, c: &DescriptorChain) -> (r: Outcome)
        ensures
            final(self).queue_indices == old(self).queue_indices,
            final(self).stats_interval_set == old(self).stats_interval_set,
            final(self).stats_queue_index == old(self).stats_queue_index,
            r.spec() == (
                chain_spec(old(self).counters@, role, *c).0,
                chain_spec(old(self).counters@, role, *c).1,
            ),
            final(self).counters@ == chain_spec(old(self).counters@, role, *c).2,
    {
        match role {
            BalloonVq::Stats => process_stats_chain(&mut self.counters, c),
            BalloonVq::Reporting => process_reporting_chain(c),
            _ => process_pfn_chain(role, c),
        }
    }

    /// Ends a drain of the queue playing `role`, which consumed at least one
    /// chain when `used`: an interrupt for the queue, or for the statistics
    /// queue the refresh timer.
    pub fn finish_drain(&self, role: BalloonVq, used: bool) -> (r: Result<Option<Action>, Error>)
        requires
            self.queue_indices.spec_index_of(role) is Some,
        ensures
            !used ==> r == Ok::<Option<Action>, Error>(None),
            used ==> r == match closing_spec(
                role,
                self.queue_indices.spec_index_of(role)->Some_0,
                self.stats_interval_set,
            ) {
                Ok(a) => Ok::<Option<Action>, Error>(Some(a)),
                Err(e) => Err(e),
            },
    {
        if !used {
            return Ok(None);
        }
        if role == BalloonVq::Stats {
            if self.stats_interval_set {
                Ok(Some(Action::ArmStatsTimer))
            } else {
                Err(Error::MemoryStatistic)
            }
        } else {
            match self.queue_indices.index_of(role) {
                Some(queue_index) => Ok(Some(Action::Signal { queue_index })),
                None => Err(Error::InvalidQueueIndex(0)),
            }
        }
    }

    /// Drains the chains `cs`, in available-ring order, from the queue
    /// playing `role`: every chain is handled until one fails, and a drain
    /// that consumed at least one chain without failing ends with the
    /// queue's interrupt (or, for statistics, the refresh timer).
    pub fn drain(&mut self, role: BalloonVq, cs: &Vec<DescriptorChain>) -> (r: Outcome)
        requires
            old(self).queue_indices.spec_index_of(role) is Some,
        ensures
            final(self).queue_indices == old(self).queue_indices,
            final(self).stats_interval_set == old(self).stats_interval_set,
            final(self).stats_queue_index == (if role == BalloonVq::Stats
                && old(self).stats_queue_index is None {
                old(self).queue_indices.spec_index_of(role)
            } else {
                old(self).stats_queue_index
            }),
            r.spec() == (
                drain_spec(
                    old(self).counters@,
                    role,
                    old(self).queue_indices.spec_index_of(role)->Some_0,
                    old(self).stats_interval_set,
                    cs@,
                ).0,
                drain_spec(
                    old(self).counters@,
                    role,
                    old(self).queue_indices.spec_index_of(role)->Some_0,
                    old(self).stats_interval_set,
                    cs@,
                ).1,
            ),
            final(self).counters@ == drain_spec(
                old(self).counters@,
                role,
                old(self).queue_indices.spec_index_of(role)->Some_0,
                old(self).stats_interval_set,
                cs@,
            ).2,
    {
        let ghost cells = self.counters@;
        self.begin_drain(role);
        let mut actions: Vec<Action> = Vec::new();
        let mut i: usize = 0;
        while i < cs.len()
            invariant
                self.queue_indices == old(self).queue_indices,
                self.stats_interval_set == old(self).stats_interval_set,
                self.stats_queue_index == (if role == BalloonVq::Stats
                    && old(self).stats_queue_index is None {
                    old(self).queue_indices.spec_index_of(role)
                } else {
                    old(self).stats_queue_index
                }),
                cells == old(self).counters@,
                i <= cs@.len(),
                chains_spec(cells, role, cs@.take(i as int)).1 is None,
                actions@ == chains_spec(cells, role, cs@.take(i as int)).0,
                self.counters@ == chains_spec(cells, role, cs@.take(i as int)).2,
            decreases cs@.len() - i,
        {
            let ghost before = self.counters@;
            let out = self.process_chain(role, &cs[i]);
            assert(cs@.take(i + 1).drop_last() =~= cs@.take(i as int));
            let mut chain_actions = out.actions;
            actions.append(&mut chain_actions);
            i = i + 1;
            if out.error.is_some() {
                proof {
                    lemma_chains_stop(cells, role, cs@, i as nat);
                }
                return Outcome { actions, error: out.error };
            }
        }
        assert(cs@.take(i as int) =~= cs@);
        match self.finish_drain(role, i > 0) {
            Ok(Some(a)) => {
                actions.push(a);
                Outcome { actions, error: None }
            },
            Ok(None) => Outcome { actions, error: None },
            Err(e) => Outcome { actions, error: Some(e) },
        }
    }

    /// Handles expiry of the refresh timer: an interrupt on the latched
    /// statistics queue, or an error when no statistics were ever drained.
    pub fn process_stats_timer(&self) -> (r: Result<Action, Error>)
        ensures
            self.stats_queue_index is Some ==> r == Ok::<Action, Error>(
                Action::Signal { queue_index: self.stats_queue_index->Some_0 },
            ),
            self.stats_queue_index is None ==> r == Err::<Action, Error>(Error::MemoryStatistic),
    {
        match self.stats_queue_index {
            Some(queue_index) => Ok(Action::Signal { queue_index }),
            None => Err(Error::MemoryStatistic),
        }
    }
}

/// Once a chain fails, the chains after it change nothing.
proof fn lemma_chains_stop(cells: Seq<u64>, role: BalloonVq, cs: Seq<DescriptorChain>, k: nat)
    requires
        k <= cs.len(),
        chains_spec(cells, role, cs.take(k as int)).1 is Some,
    ensures
        chains_spec(cells, role, cs) == chains_spec(cells, role, cs.take(k as int)),
    decreases cs.len() - k,
{
    if k < cs.len() {
        assert(cs.take((k + 1) as int).drop_last() =~= cs.take(k as int));
        lemma_chains_stop(cells, role, cs, k + 1);
    } else {
        assert(cs.take(k as int) =~= cs);
    }
}

} // verus!
