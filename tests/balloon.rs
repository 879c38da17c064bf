use balloon::config::VirtioBalloonConfig;
use balloon::counters::BalloonCounters;
use balloon::device::{ActivateError, Balloon, BalloonState, VIRTIO_F_VERSION_1};
use balloon::error::Error;
use balloon::handler::{
    BalloonEpollHandler, DispatchError, EventKind, QueueIndices, DEFLATE_QUEUE_EVENT,
    HETERO_DEFLATE_QUEUE_EVENT, HETERO_INFLATE_QUEUE_EVENT, INFLATE_QUEUE_EVENT,
    REPORTING_QUEUE_EVENT, STATS_QUEUE_EVENT, STATS_TIMER_EVENT,
};
use balloon::queue::{Action, BalloonVq, Descriptor, DescriptorChain};
use std::time::Duration;

const STATS: u64 = 1 << 1;
const REPORTING: u64 = 1 << 5;
const HETERO: u64 = 1 << 6;

fn pfn_chain(head_index: u16, pfns: &[u32]) -> DescriptorChain {
    let mut data = Vec::new();
    for p in pfns {
        data.extend_from_slice(&p.to_le_bytes());
    }
    DescriptorChain {
        head_index,
        descriptors: vec![Descriptor { addr: 0x8000, len: data.len() as u32, write_only: false }],
        head_data: data,
    }
}

fn stats_chain(head_index: u16, recs: &[(u16, u64)]) -> DescriptorChain {
    let mut data = Vec::new();
    for (t, v) in recs {
        data.extend_from_slice(&t.to_le_bytes());
        data.extend_from_slice(&v.to_le_bytes());
    }
    DescriptorChain {
        head_index,
        descriptors: vec![Descriptor { addr: 0x9000, len: data.len() as u32, write_only: false }],
        head_data: data,
    }
}

fn activated(acked: u64, num_queues: usize) -> (Balloon, BalloonEpollHandler) {
    let mut b = Balloon::new(
        "balloon0".to_string(),
        [0, 0],
        Some(Duration::from_secs(1)),
        true,
        true,
        true,
        None,
    );
    b.ack_features(acked);
    let h = b.activate(num_queues, 4096).unwrap();
    (b, h)
}

#[test]
fn basic_inflate() {
    let (_b, mut h) = activated(0, 2);
    let out = h.drain(BalloonVq::Inflate, &vec![pfn_chain(7, &[0x100, 0x101, 0x102])]);
    assert_eq!(out.error, None);
    assert_eq!(
        out.actions,
        vec![
            Action::Release { addr: 0x100000, len: 4096 },
            Action::Release { addr: 0x101000, len: 4096 },
            Action::Release { addr: 0x102000, len: 4096 },
            Action::AddUsed { head_index: 7, len: 12 },
            Action::Signal { queue_index: 0 },
        ]
    );
}

#[test]
fn basic_deflate_primes_pages() {
    let (_b, mut h) = activated(0, 2);
    let out = h.drain(BalloonVq::Deflate, &vec![pfn_chain(3, &[0x42])]);
    assert_eq!(out.error, None);
    assert_eq!(
        out.actions,
        vec![
            Action::Prime { addr: 0x42000, len: 4096 },
            Action::AddUsed { head_index: 3, len: 4 },
            Action::Signal { queue_index: 1 },
        ]
    );
}

#[test]
fn write_only_head_rejected() {
    let (_b, mut h) = activated(0, 2);
    let mut c = pfn_chain(0, &[0x100]);
    c.descriptors[0].write_only = true;
    let out = h.drain(BalloonVq::Deflate, &vec![c]);
    assert_eq!(out.error, Some(Error::UnexpectedWriteOnlyDescriptor));
    assert!(out.actions.is_empty());
}

#[test]
fn misaligned_pfn_length() {
    let (_b, mut h) = activated(0, 2);
    let c = DescriptorChain {
        head_index: 0,
        descriptors: vec![Descriptor { addr: 0x1000, len: 6, write_only: false }],
        head_data: vec![0; 6],
    };
    let out = h.drain(BalloonVq::Inflate, &vec![c]);
    assert_eq!(out.error, Some(Error::InvalidRequest));
    assert!(out.actions.is_empty());
}

#[test]
fn empty_chain_is_too_short() {
    let (_b, mut h) = activated(0, 2);
    let c = DescriptorChain { head_index: 0, descriptors: vec![], head_data: vec![] };
    let out = h.drain(BalloonVq::Inflate, &vec![c]);
    assert_eq!(out.error, Some(Error::DescriptorChainTooShort));
    assert!(out.actions.is_empty());
}

#[test]
fn short_read_reports_guest_memory() {
    let (_b, mut h) = activated(0, 2);
    let mut c = pfn_chain(0, &[0x100, 0x200]);
    c.head_data.truncate(5);
    let out = h.drain(BalloonVq::Inflate, &vec![c]);
    assert_eq!(out.error, Some(Error::GuestMemory(0x8004)));
    assert_eq!(out.actions, vec![Action::Release { addr: 0x100000, len: 4096 }]);
}

#[test]
fn empty_ring_is_a_no_op() {
    let (_b, mut h) = activated(0, 2);
    let out = h.drain(BalloonVq::Inflate, &vec![]);
    assert_eq!(out.error, None);
    assert!(out.actions.is_empty());
}

#[test]
fn bad_chain_aborts_drain_without_interrupt() {
    let (_b, mut h) = activated(0, 2);
    let mut bad = pfn_chain(2, &[0x5]);
    bad.descriptors[0].len = 3;
    let chains = vec![pfn_chain(1, &[0x1]), bad, pfn_chain(3, &[0x9])];
    let out = h.drain(BalloonVq::Inflate, &chains);
    assert_eq!(out.error, Some(Error::InvalidRequest));
    assert_eq!(
        out.actions,
        vec![
            Action::Release { addr: 0x1000, len: 4096 },
            Action::AddUsed { head_index: 1, len: 4 },
        ]
    );
}

#[test]
fn one_used_entry_per_chain_and_one_interrupt() {
    let (_b, mut h) = activated(0, 2);
    let chains = vec![pfn_chain(1, &[0x1, 0x2]), pfn_chain(4, &[]), pfn_chain(9, &[0x3])];
    let out = h.drain(BalloonVq::Inflate, &chains);
    assert_eq!(out.error, None);
    let used: Vec<(u16, u32)> = out
        .actions
        .iter()
        .filter_map(|a| match a {
            Action::AddUsed { head_index, len } => Some((*head_index, *len)),
            _ => None,
        })
        .collect();
    assert_eq!(used, vec![(1, 8), (4, 0), (9, 4)]);
    let signals = out.actions.iter().filter(|a| matches!(a, Action::Signal { .. })).count();
    assert_eq!(signals, 1);
    assert_eq!(out.actions.last(), Some(&Action::Signal { queue_index: 0 }));
}

#[test]
fn stats_ingest() {
    let (_b, mut h) = activated(STATS, 3);
    let out = h.drain(BalloonVq::Stats, &vec![stats_chain(5, &[(0, 42), (6, 1024)])]);
    assert_eq!(out.error, None);
    assert_eq!(
        out.actions,
        vec![Action::AddUsed { head_index: 5, len: 20 }, Action::ArmStatsTimer]
    );
    assert_eq!(h.counters.get(0), Ok(42));
    assert_eq!(h.counters.get(6), Ok(1024));
    assert_eq!(h.stats_queue_index, Some(2));
    assert_eq!(h.process_stats_timer(), Ok(Action::Signal { queue_index: 2 }));
}

#[test]
fn stats_timer_before_any_stats() {
    let (_b, h) = activated(STATS, 3);
    assert_eq!(h.process_stats_timer(), Err(Error::MemoryStatistic));
}

#[test]
fn stats_without_interval_fails() {
    let mut b = Balloon::new("b".to_string(), [0, 0], None, false, false, false, None);
    b.ack_features(STATS);
    let mut h = b.activate(3, 4096).unwrap();
    // The stats feature was never offered, so no stats queue exists.
    assert_eq!(h.queue_indices.stats, None);
    let q = QueueIndices::from_features(STATS, 3);
    h.queue_indices = q;
    let out = h.drain(BalloonVq::Stats, &vec![stats_chain(0, &[(1, 2)])]);
    assert_eq!(out.error, Some(Error::MemoryStatistic));
    assert_eq!(out.actions, vec![Action::AddUsed { head_index: 0, len: 10 }]);
}

#[test]
fn unknown_stat_tag() {
    let (_b, mut h) = activated(STATS, 3);
    let out = h.drain(BalloonVq::Stats, &vec![stats_chain(0, &[(99, 1)])]);
    assert_eq!(out.error, Some(Error::UnexpectedStatTag(99)));
    assert!(out.actions.is_empty());
    for tag in 0..16u16 {
        assert_eq!(h.counters.get(tag), Ok(0));
    }
}

#[test]
fn stats_length_not_multiple_of_record() {
    let (_b, mut h) = activated(STATS, 3);
    let mut c = stats_chain(0, &[(1, 1)]);
    c.descriptors[0].len = 12;
    let out = h.drain(BalloonVq::Stats, &vec![c]);
    assert_eq!(out.error, Some(Error::InvalidRequest));
}

#[test]
fn reporting_releases_every_descriptor() {
    let (_b, mut h) = activated(REPORTING, 3);
    assert_eq!(h.queue_indices.reporting, Some(2));
    let c = DescriptorChain {
        head_index: 11,
        descriptors: vec![
            Descriptor { addr: 0x200000, len: 0x200000, write_only: false },
            Descriptor { addr: 0x600000, len: 0x1000, write_only: false },
        ],
        head_data: vec![],
    };
    let out = h.drain(BalloonVq::Reporting, &vec![c]);
    assert_eq!(out.error, None);
    assert_eq!(
        out.actions,
        vec![
            Action::Release { addr: 0x200000, len: 0x200000 },
            Action::Release { addr: 0x600000, len: 0x1000 },
            Action::AddUsed { head_index: 11, len: 0x201000 },
            Action::Signal { queue_index: 2 },
        ]
    );
}

#[test]
fn hetero_queues_follow_optional_ones() {
    let (_b, mut h) = activated(STATS | REPORTING | HETERO, 6);
    assert_eq!(h.queue_indices.hetero_inflate, Some(4));
    assert_eq!(h.queue_indices.hetero_deflate, Some(5));
    let out = h.drain(BalloonVq::HeteroInflate, &vec![pfn_chain(0, &[0x10])]);
    assert_eq!(
        out.actions,
        vec![
            Action::Release { addr: 0x10000, len: 4096 },
            Action::AddUsed { head_index: 0, len: 4 },
            Action::Signal { queue_index: 4 },
        ]
    );
}

#[test]
fn events_follow_acked_features() {
    let (_b, h) = activated(0, 2);
    assert_eq!(h.queue_indices.events(), vec![INFLATE_QUEUE_EVENT, DEFLATE_QUEUE_EVENT]);
    let (_b, h) = activated(STATS | HETERO, 5);
    assert_eq!(
        h.queue_indices.events(),
        vec![
            INFLATE_QUEUE_EVENT,
            DEFLATE_QUEUE_EVENT,
            STATS_TIMER_EVENT,
            STATS_QUEUE_EVENT,
            HETERO_INFLATE_QUEUE_EVENT,
            HETERO_DEFLATE_QUEUE_EVENT,
        ]
    );
    assert_eq!(h.queue_indices.reporting, None);
}

#[test]
fn dispatch_of_events() {
    let (_b, h) = activated(REPORTING, 3);
    assert_eq!(h.dispatch(INFLATE_QUEUE_EVENT), Ok(EventKind::Queue(BalloonVq::Inflate)));
    assert_eq!(h.dispatch(DEFLATE_QUEUE_EVENT), Ok(EventKind::Queue(BalloonVq::Deflate)));
    assert_eq!(h.dispatch(REPORTING_QUEUE_EVENT), Ok(EventKind::Queue(BalloonVq::Reporting)));
    assert_eq!(
        h.dispatch(STATS_TIMER_EVENT),
        Err(DispatchError::NotRegistered(STATS_TIMER_EVENT))
    );
    assert_eq!(
        h.dispatch(STATS_QUEUE_EVENT),
        Err(DispatchError::NotRegistered(STATS_QUEUE_EVENT))
    );
    assert_eq!(h.dispatch(200), Err(DispatchError::Unknown(200)));
}

#[test]
fn config_write_by_guest() {
    let mut b = Balloon::new("b".to_string(), [0x400000, 0], None, false, false, false, None);
    b.write_config(4, &[0x10, 0, 0, 0]);
    assert_eq!(b.state().config.actual, 16);
    let mut buf = [0u8; 4];
    b.read_config(4, &mut buf);
    assert_eq!(buf, [0x10, 0, 0, 0]);
    assert_eq!(b.get_actual(), 16 * 4096);
    b.write_config(0, &[1, 2, 3, 4]);
    assert_eq!(b.state().config.num_pages, 0x400);
    b.write_config(20, &[1, 1, 0, 0]);
    assert_eq!(b.state().config.hetero_actual, 0x101);
    assert_eq!(b.get_hetero_actual(), 0x101 * 4096);
    b.write_config(4, &[1, 2]);
    assert_eq!(b.state().config.actual, 16);
    b.write_config(8, &[1, 0, 0, 0]);
    assert_eq!(b.state().config.hint_cmd_id, 0);
}

#[test]
fn config_read_layout_and_truncation() {
    let b = Balloon::new("b".to_string(), [0x1000 * 0x0102, 0x3000], None, false, false, false, None);
    let mut all = [0xffu8; 24];
    b.read_config(0, &mut all);
    let mut expect = [0u8; 24];
    expect[0] = 0x02;
    expect[1] = 0x01;
    expect[16] = 3;
    assert_eq!(all, expect);
    let mut tail = [0xaau8; 6];
    b.read_config(20, &mut tail);
    assert_eq!(tail, [0, 0, 0, 0, 0xaa, 0xaa]);
    let mut past = [0x55u8; 2];
    b.read_config(30, &mut past);
    assert_eq!(past, [0x55, 0x55]);
}

#[test]
fn resize_raises_interrupt_only_when_active() {
    let mut b = Balloon::new("b".to_string(), [0, 0], None, false, false, false, None);
    assert!(!b.resize([0x200000, 0]));
    assert_eq!(b.state().config.num_pages, 0x200);
    assert!(b.activate(2, 4096).is_ok());
    assert!(b.resize([0x200000, 0x5000]));
    assert_eq!(b.state().config.num_pages, 0x200);
    assert_eq!(b.state().config.num_hetero_pages, 5);
}

#[test]
fn new_offers_features_and_queue_sizes() {
    let b = Balloon::new(
        "b".to_string(),
        [0, 0],
        Some(Duration::from_secs(1)),
        true,
        true,
        true,
        None,
    );
    assert_eq!(b.features(), (1 << VIRTIO_F_VERSION_1) | STATS | (1 << 2) | REPORTING | HETERO);
    assert_eq!(b.queue_max_sizes(), &[128, 128, 32, 32, 128, 128]);
    assert!(!b.is_paused());
    assert_eq!(b.device_type(), 5);
    assert_eq!(b.id(), "b");
    let b = Balloon::new("c".to_string(), [0, 0], None, false, false, false, None);
    assert_eq!(b.features(), 1 << VIRTIO_F_VERSION_1);
    assert_eq!(b.queue_max_sizes(), &[128, 128]);
}

#[test]
fn ack_features_ignores_unoffered_bits() {
    let mut b = Balloon::new("b".to_string(), [0, 0], None, false, true, false, None);
    b.ack_features(REPORTING | STATS | HETERO);
    assert_eq!(b.state().acked_features, REPORTING);
}

#[test]
fn snapshot_restore_round_trip() {
    let mut b = Balloon::new("b".to_string(), [0x5000, 0x6000], None, true, false, false, None);
    b.ack_features(u64::MAX);
    b.write_config(4, &[7, 0, 0, 0]);
    let s: BalloonState = b.snapshot();
    let r = Balloon::new("b".to_string(), [0, 0], None, false, false, false, Some(s));
    assert_eq!(r.snapshot(), s);
    assert!(r.is_paused());
}

#[test]
fn activation_rejects_bad_page_size_and_few_queues() {
    let mut b = Balloon::new("b".to_string(), [0, 0], None, false, false, false, None);
    assert_eq!(b.activate(2, 65536).err(), Some(ActivateError::BadActivate));
    assert!(!b.resize([0, 0]));
    assert_eq!(b.activate(1, 4096).err(), Some(ActivateError::BadActivate));
    assert!(b.activate(2, 4096).is_ok());
    assert!(b.reset());
    assert!(!b.reset());
}

#[test]
fn pause_and_resume() {
    let mut b = Balloon::new("b".to_string(), [0, 0], None, false, false, false, None);
    b.pause();
    assert!(b.is_paused());
    b.resume();
    assert!(!b.is_paused());
}

#[test]
fn counter_names_and_values() {
    let mut c = BalloonCounters::new();
    assert_eq!(c.name(0), Ok("swap_in"));
    assert_eq!(c.name(6), Ok("available_memory"));
    assert_eq!(c.name(15), Ok("pmem_total"));
    assert_eq!(c.name(16), Err(Error::UnexpectedStatTag(16)));
    assert_eq!(c.store(3, 77), Ok(()));
    assert_eq!(c.get(3), Ok(77));
    assert_eq!(c.store(16, 1), Err(Error::UnexpectedStatTag(16)));
    assert_eq!(c.get(16), Err(Error::UnexpectedStatTag(16)));
    let mut b = Balloon::new("b".to_string(), [0, 0], None, false, false, false, None);
    b.write_config(4, &[2, 0, 0, 0]);
    let list = b.counters(&c);
    assert_eq!(list.len(), 18);
    assert_eq!(list[3], ("minor_faults", 77));
    assert_eq!(list[16], ("actual", 8192));
    assert_eq!(list[17], ("hetero_actual", 0));
}

#[test]
fn config_bytes_round_trip() {
    let mut c = VirtioBalloonConfig::with_target([0x12345000, 0]);
    c.write_config(20, &[0xde, 0xad, 0xbe, 0xef]);
    let bytes = c.as_bytes();
    assert_eq!(&bytes[0..4], &[0x45, 0x23, 0x01, 0x00]);
    assert_eq!(&bytes[20..24], &[0xde, 0xad, 0xbe, 0xef]);
    assert_eq!(c.hetero_actual, 0xefbeadde);
}


#[test]
fn used_length_sums_readable_descriptors_of_inflate_chain() {
    let (_b, mut h) = activated(0, 2);
    let mut c = pfn_chain(6, &[0x100]);
    c.descriptors.push(Descriptor { addr: 0xa000, len: 4, write_only: false });
    c.descriptors.push(Descriptor { addr: 0xb000, len: 64, write_only: true });
    let out = h.drain(BalloonVq::Inflate, &vec![c]);
    assert_eq!(out.error, None);
    assert_eq!(
        out.actions,
        vec![
            Action::Release { addr: 0x100000, len: 4096 },
            Action::AddUsed { head_index: 6, len: 8 },
            Action::Signal { queue_index: 0 },
        ]
    );
}

#[test]
fn used_length_sums_readable_descriptors_of_stats_chain() {
    let (_b, mut h) = activated(STATS, 3);
    let mut c = stats_chain(2, &[(4, 9)]);
    c.descriptors.push(Descriptor { addr: 0xc000, len: 10, write_only: false });
    let out = h.drain(BalloonVq::Stats, &vec![c]);
    assert_eq!(out.error, None);
    assert_eq!(
        out.actions,
        vec![Action::AddUsed { head_index: 2, len: 20 }, Action::ArmStatsTimer]
    );
    assert_eq!(h.counters.get(4), Ok(9));
}

#[test]
fn reporting_rejects_write_only_head() {
    let (_b, mut h) = activated(REPORTING, 3);
    let c = DescriptorChain {
        head_index: 1,
        descriptors: vec![Descriptor { addr: 0x200000, len: 0x1000, write_only: true }],
        head_data: vec![],
    };
    let out = h.drain(BalloonVq::Reporting, &vec![c]);
    assert_eq!(out.error, Some(Error::UnexpectedWriteOnlyDescriptor));
    assert!(out.actions.is_empty());
}

#[test]
fn reporting_rejects_empty_chain() {
    let (_b, mut h) = activated(REPORTING, 3);
    let c = DescriptorChain { head_index: 1, descriptors: vec![], head_data: vec![] };
    let out = h.drain(BalloonVq::Reporting, &vec![c]);
    assert_eq!(out.error, Some(Error::DescriptorChainTooShort));
    assert!(out.actions.is_empty());
}

#[test]
fn activation_needs_a_queue_for_every_acked_feature() {
    let mut b = Balloon::new(
        "b".to_string(),
        [0, 0],
        Some(Duration::from_secs(1)),
        false,
        true,
        true,
        None,
    );
    b.ack_features(STATS | REPORTING | HETERO);
    assert_eq!(b.activate(5, 4096).err(), Some(ActivateError::BadActivate));
    assert!(!b.resize([0, 0]));
    let h = b.activate(6, 4096).unwrap();
    assert_eq!(h.queue_indices.stats, Some(2));
    assert_eq!(h.queue_indices.reporting, Some(3));
    assert_eq!(h.queue_indices.hetero_deflate, Some(5));
}
