use vstd::prelude::*;
use crate::config::{pages_of, VirtioBalloonConfig, VIRTIO_BALLOON_PFN_SHIFT};
use crate::counters::{stat_name, BalloonCounters, NUM_STATS};
use crate::handler::{
    queues_needed, BalloonEpollHandler, QueueIndices, VIRTIO_BALLOON_F_DEFLATE_ON_OOM, VIRTIO_BALLOON_F_HETERO_MEM,
    VIRTIO_BALLOON_F_REPORTING, VIRTIO_BALLOON_F_STATS_VQ,
};
use crate::queue::PAGE_SIZE;
use std::time::Duration;

verus! {

/// Feature bit: compliance with virtio 1.0.
pub const VIRTIO_F_VERSION_1: u64 = 32;

/// Virtio device type of a memory balloon.
pub const VIRTIO_ID_BALLOON: u32 = 5;

/// Depth of the inflate and deflate queues (and of their heterogeneous pair).
pub const QUEUE_SIZE: u16 = 128;

/// Depth of the statistics queue.
pub const STATS_QUEUE_SIZE: u16 = 32;

/// Depth of the reporting queue.
pub const REPORTING_QUEUE_SIZE: u16 = 32;

/// Why the device refused to activate.
#[derive(Debug, Clone, Copy, PartialEq, Eq, Structural)]
pub enum ActivateError {
    /// Too few queues, or a host page size other than 4 KiB.
    BadActivate,
}

/// The persisted part of the device: features and configuration record.
#[derive(Debug, Clone, Copy, PartialEq, Eq, Structural)]
pub struct BalloonState {
    pub avail_features: u64,
    pub acked_features: u64,
    pub config: VirtioBalloonConfig,
}

/// The features offered for the given options.
pub open spec fn offered_features(
    stats: bool,
    deflate_on_oom: bool,
    reporting: bool,
    hetero: bool,
) -> u64 {
    (1u64 << VIRTIO_F_VERSION_1) | (if stats {
        1u64 << VIRTIO_BALLOON_F_STATS_VQ
    } else {
        0
    }) | (if deflate_on_oom {
        1u64 << VIRTIO_BALLOON_F_DEFLATE_ON_OOM
    } else {
        0
    }) | (if reporting {
        1u64 << VIRTIO_BALLOON_F_REPORTING
    } else {
        0
    }) | (if hetero {
        1u64 << VIRTIO_BALLOON_F_HETERO_MEM
    } else {
        0
    })
}

/// The depths of the queues the device asks for.
pub open spec fn queue_sizes_for(stats: bool, reporting: bool, hetero: bool) -> Seq<u16> {
    seq![QUEUE_SIZE, QUEUE_SIZE] + (if stats {
        seq![STATS_QUEUE_SIZE]
    } else {
        Seq::empty()
    }) + (if reporting {
        seq![REPORTING_QUEUE_SIZE]
    } else {
        Seq::empty()
    }) + (if hetero {
        seq![QUEUE_SIZE, QUEUE_SIZE]
    } else {
        Seq::empty()
    })
}

/// A byte count from a page count of the balloon interface.
pub open spec fn bytes_of(pages: u32) -> u64 {
    (pages as int * 4096) as u64
}

/// The control side of a virtio memory balloon.
#[derive(Debug)]
pub struct Balloon {
    id: String,
    avail_features: u64,
    acked_features: u64,
    config: VirtioBalloonConfig,
    queue_sizes: Vec<u16>,
    paused: bool,
    stats_polling_interval: Option<Duration>,
    /// An interrupt injector was bound by an activation.
    interrupt_bound: bool,
    /// A worker runs the queues.
    active: bool,
}

impl Balloon {
    pub closed spec fn spec_avail_features(&self) -> u64 {
        self.avail_features
    }

    pub closed spec fn spec_acked_features(&self) -> u64 {
        self.acked_features
    }

    pub closed spec fn spec_config(&self) -> VirtioBalloonConfig {
        self.config
    }

    pub closed spec fn spec_queue_sizes(&self) -> Seq<u16> {
        self.queue_sizes@
    }

    pub closed spec fn spec_paused(&self) -> bool {
        self.paused
    }

    pub closed spec fn spec_interval(&self) -> Option<Duration> {
        self.stats_polling_interval
    }

    pub closed spec fn spec_interrupt_bound(&self) -> bool {
        self.interrupt_bound
    }

    pub closed spec fn spec_active(&self) -> bool {
        self.active
    }

    pub closed spec fn spec_id(&self) -> Seq<char> {
        self.id@
    }

    /// The state that a snapshot persists.
    pub open spec fn spec_state(&self) -> BalloonState {
        BalloonState {
            avail_features: self.spec_avail_features(),
            acked_features: self.spec_acked_features(),
            config: self.spec_config(),
        }
    }

    /// Creates a balloon targeting `size[0]` bytes of ordinary and `size[1]`
    /// bytes of heterogeneous memory, or, given a saved `state`, restores
    /// that state verbatim and starts paused.
    pub fn new(
        id: String,
        size: [u64; 2],
        stats_polling_interval: Option<Duration>,
        deflate_on_oom: bool,
        free_page_reporting: bool,
        heterogeneous_memory: bool,
        state: Option<BalloonState>,
    ) -> (r: Self)
        ensures
            r.spec_id() == id@,
            r.spec_interval() == stats_polling_interval,
            r.spec_queue_sizes() == queue_sizes_for(
                stats_polling_interval is Some,
                free_page_reporting,
                heterogeneous_memory,
            ),
            !r.spec_interrupt_bound(),
            !r.spec_active(),
            state is Some ==> r.spec_state() == state->Some_0 && r.spec_paused(),
            state is None ==> !r.spec_paused() && r.spec_acked_features() == 0
                && r.spec_avail_features() == offered_features(
                stats_polling_interval is Some,
                deflate_on_oom,
                free_page_reporting,
                heterogeneous_memory,
            ) && r.spec_config() == (VirtioBalloonConfig {
                num_pages: pages_of(size[0]),
                actual: 0,
                hint_cmd_id: 0,
                poison_val: 0,
                num_hetero_pages: pages_of(size[1]),
                hetero_actual: 0,
            }),
    {
        let mut queue_sizes: Vec<u16> = Vec::new();
        queue_sizes.push(QUEUE_SIZE);
        queue_sizes.push(QUEUE_SIZE);
        let (avail_features, acked_features, config, paused) = match state {
            Some(s) => (s.avail_features, s.acked_features, s.config, true),
            None => {
                let stats = stats_polling_interval.is_some();
                let avail_features: u64 = (1u64 << VIRTIO_F_VERSION_1) | (if stats {
                    1u64 << VIRTIO_BALLOON_F_STATS_VQ
                } else {
                    0
                }) | (if deflate_on_oom {
                    1u64 << VIRTIO_BALLOON_F_DEFLATE_ON_OOM
                } else {
                    0
                }) | (if free_page_reporting {
                    1u64 << VIRTIO_BALLOON_F_REPORTING
                } else {
                    0
                }) | (if heterogeneous_memory {
                    1u64 << VIRTIO_BALLOON_F_HETERO_MEM
                } else {
                    0
                });
                (avail_features, 0, VirtioBalloonConfig::with_target(size), false)
            },
        };
        if stats_polling_interval.is_some() {
            queue_sizes.push(STATS_QUEUE_SIZE);
        }
        if free_page_reporting {
            queue_sizes.push(REPORTING_QUEUE_SIZE);
        }
        if heterogeneous_memory {
            queue_sizes.push(QUEUE_SIZE);
            queue_sizes.push(QUEUE_SIZE);
        }
        assert(queue_sizes@ =~= queue_sizes_for(
            stats_polling_interval is Some,
            free_page_reporting,
            heterogeneous_memory,
        ));
        Balloon {
            id,
            avail_features,
            acked_features,
            config,
            queue_sizes,
            paused,
            stats_polling_interval,
            interrupt_bound: false,
            active: false,
        }
    }

    /// Sets new targets from byte sizes. Returns whether a
    /// configuration-change interrupt is owed to the guest, which is when
    /// the device has been activated.
    pub fn resize(&mut self, size: [u64; 2]) -> (r: bool)
        ensures
            final(self).spec_config() == (VirtioBalloonConfig {
                num_pages: pages_of(size[0]),
                num_hetero_pages: pages_of(size[1]),
                ..old(self).spec_config()
            }),
            r == old(self).spec_interrupt_bound(),
            final(self).spec_avail_features() == old(self).spec_avail_features(),
            final(self).spec_acked_features() == old(self).spec_acked_features(),
            final(self).spec_interrupt_bound() == old(self).spec_interrupt_bound(),
            final(self).spec_active() == old(self).spec_active(),
            final(self).spec_paused() == old(self).spec_paused(),
    {
        self.config.set_target(size);
        self.interrupt_bound
    }

    /// Bytes the guest reports as held in the balloon.
    pub fn get_actual(&self) -> (r: u64)
        ensures
            r == bytes_of(self.spec_config().actual),
    {
        let a = self.config.actual as u64;
        assert((a << 12u64) == a * 4096) by (bit_vector)
            requires
                a < 0x1_0000_0000,
        ;
        a << VIRTIO_BALLOON_PFN_SHIFT
    }

    /// Bytes of heterogeneous memory the guest reports as held in the balloon.
    pub fn get_hetero_actual(&self) -> (r: u64)
        ensures
            r == bytes_of(self.spec_config().hetero_actual),
    {
        let a = self.config.hetero_actual as u64;
        assert((a << 12u64) == a * 4096) by (bit_vector)
            requires
                a < 0x1_0000_0000,
        ;
        a << VIRTIO_BALLOON_PFN_SHIFT
    }

    /// The state that a snapshot persists.
    pub fn state(&self) -> (r: BalloonState)
        ensures
            r == self.spec_state(),
    {
        BalloonState {
            avail_features: self.avail_features,
            acked_features: self.acked_features,
            config: self.config,
        }
    }

    pub fn device_type(&self) -> (r: u32)
        ensures
            r == VIRTIO_ID_BALLOON,
    {
        VIRTIO_ID_BALLOON
    }

    /// Depths of the queues the device asks for.
    pub fn queue_max_sizes(&self) -> (r: &[u16])
        ensures
            r@ == self.spec_queue_sizes(),
    {
        self.queue_sizes.as_slice()
    }

    pub fn features(&self) -> (r: u64)
        ensures
            r == self.spec_avail_features(),
    {
        self.avail_features
    }

    /// Acknowledges the offered features among `value`; others are ignored.
    pub fn ack_features(&mut self, value: u64)
        ensures
            final(self).spec_acked_features() == old(self).spec_acked_features() | (value
                & old(self).spec_avail_features()),
            final(self).spec_avail_features() == old(self).spec_avail_features(),
            final(self).spec_config() == old(self).spec_config(),
            final(self).spec_interrupt_bound() == old(self).spec_interrupt_bound(),
            final(self).spec_active() == old(self).spec_active(),
            final(self).spec_paused() == old(self).spec_paused(),
    {
        self.acked_features = self.acked_features | (value & self.avail_features);
    }

    /// Reads the configuration window from `offset` into `data`.
    pub fn read_config(&self, offset: u64, data: &mut [u8])
        ensures
            final(data)@.len() == old(data)@.len(),
            forall|i: int|
                0 <= i < old(data)@.len() ==> #[trigger] final(data)@[i]
                    == self.spec_config().read_byte(offset, old(data)@, i),
    {
        self.config.read_config(offset, data)
    }

    /// Applies a guest write to the configuration window; only `actual`
    /// and `hetero_actual` may be written, four bytes at a time.
    pub fn write_config(&mut self, offset: u64, data: &[u8])
        ensures
            final(self).spec_config() == old(self).spec_config().after_write(offset, data@),
            final(self).spec_avail_features() == old(self).spec_avail_features(),
            final(self).spec_acked_features() == old(self).spec_acked_features(),
            final(self).spec_interrupt_bound() == old(self).spec_interrupt_bound(),
            final(self).spec_active() == old(self).spec_active(),
            final(self).spec_paused() == old(self).spec_paused(),
    {
        self.config.write_config(offset, data)
    }

    /// Activates the device with `num_queues` queues supplied by the
    /// transport on a host with pages of `page_size` bytes: lays the queues
    /// out by role and hands back the handler for the worker. Refused when
    /// the page size is not 4 KiB, or when there are fewer queues than
    /// inflate, deflate and the acknowledged optional features need, so that
    /// a queue is present exactly when its feature was acknowledged.
    pub fn activate(&mut self, num_queues: usize, page_size: u64) -> (r: Result<
        BalloonEpollHandler,
        ActivateError,
    >)
        ensures
            (num_queues >= queues_needed(old(self).spec_acked_features()) && page_size
                == PAGE_SIZE) <==> r is Ok,
            r is Err ==> r == Err::<BalloonEpollHandler, ActivateError>(ActivateError::BadActivate)
                && *final(self) == *old(self),
            r is Ok ==> {
                &&& r->Ok_0.queue_indices == QueueIndices::layout(
                    old(self).spec_acked_features(),
                    num_queues as nat,
                )
                &&& r->Ok_0.stats_interval_set == old(self).spec_interval() is Some
                &&& r->Ok_0.stats_queue_index is None
                &&& r->Ok_0.counters@ == Seq::new(16, |i: int| 0u64)
                &&& final(self).spec_interrupt_bound()
                &&& final(self).spec_active()
                &&& final(self).spec_state() == old(self).spec_state()
                &&& final(self).spec_paused() == old(self).spec_paused()
            },
    {
        if num_queues < QueueIndices::queues_needed_for(self.acked_features) || page_size
            != PAGE_SIZE {
            return Err(ActivateError::BadActivate);
        }
        let indices = QueueIndices::from_features(self.acked_features, num_queues);
        self.interrupt_bound = true;
        self.active = true;
        Ok(BalloonEpollHandler::new(indices, self.stats_polling_interval.is_some()))
    }

    /// Stops the worker. Returns whether one was running, in which case the
    /// interrupt injector goes back to the caller.
    pub fn reset(&mut self) -> (r: bool)
        ensures
            r == old(self).spec_active(),
            !final(self).spec_active(),
            final(self).spec_state() == old(self).spec_state(),
            final(self).spec_interrupt_bound() == old(self).spec_interrupt_bound(),
            final(self).spec_paused() == old(self).spec_paused(),
    {
        let was = self.active;
        self.active = false;
        was
    }

    pub fn pause(&mut self)
        ensures
            final(self).spec_paused(),
            final(self).spec_state() == old(self).spec_state(),
            final(self).spec_active() == old(self).spec_active(),
            final(self).spec_interrupt_bound() == old(self).spec_interrupt_bound(),
    {
        self.paused = true;
    }

    pub fn resume(&mut self)
        ensures
            !final(self).spec_paused(),
            final(self).spec_state() == old(self).spec_state(),
            final(self).spec_active() == old(self).spec_active(),
            final(self).spec_interrupt_bound() == old(self).spec_interrupt_bound(),
    {
        self.paused = false;
    }

    pub fn is_paused(&self) -> (r: bool)
        ensures
            r == self.spec_paused(),
    {
        self.paused
    }

    pub fn id(&self) -> (r: &str)
        ensures
            r@ == self.spec_id(),
    {
        self.id.as_str()
    }

    /// The state to persist; restoring passes it back to [`Balloon::new`].
    pub fn snapshot(&self) -> (r: BalloonState)
        ensures
            r == self.spec_state(),
    {
        self.state()
    }

    /// The observable counters: the sixteen statistics by name, then the
    /// balloon's actual sizes in bytes.
    pub fn counters(&self, stats: &BalloonCounters) -> (r: Vec<(&'static str, u64)>)
        ensures
            r@.len() == 18,
            forall|i: int|
                0 <= i < 16 ==> (#[trigger] r@[i]).0@ == stat_name(i as u16) && r@[i].1
                    == stats@[i],
            r@[16].0@ == "actual"@ && r@[16].1 == bytes_of(self.spec_config().actual),
            r@[17].0@ == "hetero_actual"@ && r@[17].1 == bytes_of(
                self.spec_config().hetero_actual,
            ),
    {
        let mut out: Vec<(&'static str, u64)> = Vec::new();
        let mut tag: u16 = 0;
        while tag < NUM_STATS
            invariant
                tag <= NUM_STATS,
                out@.len() == tag,
                forall|i: int|
                    0 <= i < tag ==> (#[trigger] out@[i]).0@ == stat_name(i as u16) && out@[i].1
                        == stats@[i],
            decreases NUM_STATS - tag,
        {
            let name = match stats.name(tag) {
                Ok(n) => n,
                Err(_) => "",
            };
            let value = match stats.get(tag) {
                Ok(v) => v,
                Err(_) => 0,
            };
            out.push((name, value));
            tag = tag + 1;
        }
        out.push(("actual", self.get_actual()));
        out.push(("hetero_actual", self.get_hetero_actual()));
        out
    }
}

} // verus!
