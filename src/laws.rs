use vstd::prelude::*;
use crate::handler::{
    drain_spec, feature_set, queues_needed, QueueIndices, HETERO_DEFLATE_QUEUE_EVENT, HETERO_INFLATE_QUEUE_EVENT,
    REPORTING_QUEUE_EVENT, STATS_QUEUE_EVENT, STATS_TIMER_EVENT, VIRTIO_BALLOON_F_HETERO_MEM,
    VIRTIO_BALLOON_F_REPORTING, VIRTIO_BALLOON_F_STATS_VQ,
};
use crate::queue::{
    chain_spec, chain_used_len, chains_spec, head_error, is_pfn_role, pfn_action, pfn_at, pfn_chain,
    readable_records, release_of, stats_chain, total_len, Action, BalloonVq,
    DescriptorChain, PAGE_SIZE, PFN_SIZE,
};

verus! {

/// The used-ring entries `(head index, length)` that `a` posts, in order.
pub open spec fn used_entries(a: Seq<Action>) -> Seq<(u16, u32)>
    decreases a.len(),
{
    if a.len() == 0 {
        Seq::empty()
    } else {
        let p = used_entries(a.drop_last());
        match a.last() {
            Action::AddUsed { head_index, len } => p.push((head_index, len)),
            _ => p,
        }
    }
}

/// Whether `a` is an interrupt or a timer arming.
pub open spec fn is_closing(a: Action) -> bool {
    a is Signal || a is ArmStatsTimer
}

/// No action of `a` raises an interrupt or arms the timer.
pub open spec fn no_closing(a: Seq<Action>) -> bool {
    forall|i: int| 0 <= i < a.len() ==> !is_closing(#[trigger] a[i])
}

/// The length reported in the used ring for a chain handled on a queue of
/// role `role`: the chain's total readable length; for reporting, where
/// every descriptor hands over a range, the sum of all the lengths. Both
/// wrap at 2^32.
pub open spec fn used_len(role: BalloonVq, c: DescriptorChain) -> u32 {
    if role == BalloonVq::Reporting {
        (total_len(c.descriptors@) % 0x1_0000_0000) as u32
    } else {
        chain_used_len(c)
    }
}

/// How many of the chains `cs` are consumed before the first that fails.
pub open spec fn consumed(cells: Seq<u64>, role: BalloonVq, cs: Seq<DescriptorChain>) -> nat
    decreases cs.len(),
{
    if cs.len() == 0 {
        0
    } else if chains_spec(cells, role, cs.drop_last()).1 is Some {
        consumed(cells, role, cs.drop_last())
    } else if chains_spec(cells, role, cs).1 is None {
        cs.len()
    } else {
        (cs.len() - 1) as nat
    }
}

proof fn lemma_used_entries_append(a: Seq<Action>, b: Seq<Action>)
    ensures
        used_entries(a + b) == used_entries(a) + used_entries(b),
    decreases b.len(),
{
    if b.len() == 0 {
        assert(a + b =~= a);
        assert(used_entries(a) + used_entries(b) =~= used_entries(a));
    } else {
        lemma_used_entries_append(a, b.drop_last());
        assert((a + b).drop_last() =~= a + b.drop_last());
        assert((a + b).last() == b.last());
        let p = used_entries(a) + used_entries(b.drop_last());
        match b.last() {
            Action::AddUsed { head_index, len } => {
                assert(p.push((head_index, len)) =~= used_entries(a) + used_entries(
                    b.drop_last(),
                ).push((head_index, len)));
            },
            _ => {},
        }
    }
}

proof fn lemma_no_used_entries(a: Seq<Action>)
    requires
        forall|i: int| 0 <= i < a.len() ==> !(#[trigger] a[i] is AddUsed),
    ensures
        used_entries(a) == Seq::<(u16, u32)>::empty(),
    decreases a.len(),
{
    if a.len() > 0 {
        lemma_no_used_entries(a.drop_last());
        assert(!(a[a.len() - 1] is AddUsed));
    }
}

/// A chain posts one used entry, with its used length, when it succeeds,
/// and none when it fails; it never raises an interrupt nor arms the timer.
proof fn lemma_chain_entries(cells: Seq<u64>, role: BalloonVq, c: DescriptorChain)
    ensures
        chain_spec(cells, role, c).1 is None ==> used_entries(chain_spec(cells, role, c).0)
            == seq![(c.head_index, used_len(role, c))],
        chain_spec(cells, role, c).1 is Some ==> used_entries(chain_spec(cells, role, c).0)
            == Seq::<(u16, u32)>::empty(),
        no_closing(chain_spec(cells, role, c).0),
{
    let a = chain_spec(cells, role, c).0;
    if role == BalloonVq::Stats {
        let s = stats_chain(cells, c);
        if s.1 is None {
            assert(a.drop_last() =~= Seq::<Action>::empty());
            assert(used_entries(a.drop_last()) == Seq::<(u16, u32)>::empty());
            assert(used_entries(a) =~= seq![(c.head_index, used_len(role, c))]);
        }
    } else if role == BalloonVq::Reporting {
        if head_error(c, 1) is None {
            let ds = c.descriptors@;
            let rel = Seq::new(ds.len(), |k: int| release_of(ds[k]));
            lemma_no_used_entries(rel);
            assert(a.drop_last() =~= rel);
            assert(used_entries(a) =~= seq![(c.head_index, used_len(role, c))]);
        }
    } else {
        if head_error(c, PFN_SIZE) is None {
            let m = readable_records(c.descriptors@[0].len, c.head_data@, PFN_SIZE);
            let ops = Seq::new(m, |k: int| pfn_action(role, pfn_at(c.head_data@, k)));
            lemma_no_used_entries(ops);
            if pfn_chain(role, c).1 is None {
                assert(a.drop_last() =~= ops);
                assert(used_entries(a) =~= seq![(c.head_index, used_len(role, c))]);
            }
        }
    }
}

proof fn lemma_chains_entries(cells: Seq<u64>, role: BalloonVq, cs: Seq<DescriptorChain>)
    ensures
        consumed(cells, role, cs) <= cs.len(),
        chains_spec(cells, role, cs).1 is None ==> consumed(cells, role, cs) == cs.len(),
        chains_spec(cells, role, cs).1 is Some ==> consumed(cells, role, cs) < cs.len(),
        used_entries(chains_spec(cells, role, cs).0) == cs.take(
            consumed(cells, role, cs) as int,
        ).map_values(|c: DescriptorChain| (c.head_index, used_len(role, c))),
        no_closing(chains_spec(cells, role, cs).0),
    decreases cs.len(),
{
    let f = |c: DescriptorChain| (c.head_index, used_len(role, c));
    if cs.len() == 0 {
        assert(cs.take(0).map_values(f) =~= Seq::<(u16, u32)>::empty());
    } else {
        let init = cs.drop_last();
        lemma_chains_entries(cells, role, init);
        let prev = chains_spec(cells, role, init);
        if prev.1 is Some {
            assert(cs.take(consumed(cells, role, init) as int) =~= init.take(
                consumed(cells, role, init) as int,
            ));
        } else {
            let r = chain_spec(prev.2, role, cs.last());
            lemma_chain_entries(prev.2, role, cs.last());
            lemma_used_entries_append(prev.0, r.0);
            assert(init.take(init.len() as int) =~= init);
            if r.1 is None {
                assert(cs.take(cs.len() as int) =~= cs);
                assert(cs.map_values(f) =~= init.map_values(f).push(f(cs.last())));
            } else {
                assert(cs.take(init.len() as int) =~= init);
                assert(used_entries(prev.0) + Seq::<(u16, u32)>::empty() =~= used_entries(
                    prev.0,
                ));
            }
            assert forall|i: int| 0 <= i < (prev.0 + r.0).len() implies !is_closing(
                #[trigger] (prev.0 + r.0)[i],
            ) by {
                if i >= prev.0.len() {
                    assert((prev.0 + r.0)[i] == r.0[i - prev.0.len()]);
                }
            }
        }
    }
}

/// Every consumed descriptor chain is posted to the used ring exactly once,
/// in order, with the chain's readable length; a drain that fails has
/// consumed only the chains before the failing one.
pub proof fn lemma_one_used_entry_per_chain(
    cells: Seq<u64>,
    role: BalloonVq,
    queue_index: usize,
    interval_set: bool,
    cs: Seq<DescriptorChain>,
)
    ensures
        ({
            let d = drain_spec(cells, role, queue_index, interval_set, cs);
            let k = consumed(cells, role, cs);
            &&& used_entries(d.0) == cs.take(k as int).map_values(
                |c: DescriptorChain| (c.head_index, used_len(role, c)),
            )
            &&& d.1 is None ==> k == cs.len()
            &&& k <= cs.len()
        }),
{
    lemma_chains_entries(cells, role, cs);
    let r = chains_spec(cells, role, cs);
    if r.1 is None && cs.len() > 0 {
        let d = drain_spec(cells, role, queue_index, interval_set, cs);
        if d.1 is None {
            let a = d.0.last();
            assert(d.0.drop_last() =~= r.0);
            assert(!(a is AddUsed));
        }
    }
}

/// A drain of a queue other than the statistics queue that consumes at
/// least one chain without failing raises exactly one interrupt, for that
/// queue, after everything else; a drain that fails or finds nothing
/// raises none.
pub proof fn lemma_one_interrupt_per_drain(
    cells: Seq<u64>,
    role: BalloonVq,
    queue_index: usize,
    interval_set: bool,
    cs: Seq<DescriptorChain>,
)
    requires
        role != BalloonVq::Stats,
    ensures
        ({
            let d = drain_spec(cells, role, queue_index, interval_set, cs);
            &&& (d.1 is None && cs.len() > 0) ==> d.0.len() > 0 && d.0.last()
                == Action::Signal { queue_index } && no_closing(d.0.drop_last())
            &&& (d.1 is Some || cs.len() == 0) ==> no_closing(d.0)
        }),
{
    lemma_chains_entries(cells, role, cs);
    let r = chains_spec(cells, role, cs);
    if r.1 is None && cs.len() > 0 {
        let d = drain_spec(cells, role, queue_index, interval_set, cs);
        assert(d.0.drop_last() =~= r.0);
    }
}

/// A drain of the statistics queue never raises an interrupt; when it
/// consumes at least one chain without failing and a refresh interval is
/// configured, it ends by arming the refresh timer, once.
pub proof fn lemma_stats_drain_arms_timer(
    cells: Seq<u64>,
    queue_index: usize,
    interval_set: bool,
    cs: Seq<DescriptorChain>,
)
    ensures
        ({
            let d = drain_spec(cells, BalloonVq::Stats, queue_index, interval_set, cs);
            &&& forall|i: int| 0 <= i < d.0.len() ==> !(#[trigger] d.0[i] is Signal)
            &&& (interval_set && d.1 is None && cs.len() > 0) ==> d.0.len() > 0 && d.0.last()
                == Action::ArmStatsTimer && no_closing(d.0.drop_last())
        }),
{
    lemma_chains_entries(cells, BalloonVq::Stats, cs);
    let r = chains_spec(cells, BalloonVq::Stats, cs);
    let d = drain_spec(cells, BalloonVq::Stats, queue_index, interval_set, cs);
    if r.1 is None && cs.len() > 0 && interval_set {
        assert(d.0.drop_last() =~= r.0);
        assert forall|i: int| 0 <= i < d.0.len() implies !(#[trigger] d.0[i] is Signal) by {
            if i < r.0.len() {
                assert(d.0[i] == r.0[i]);
            }
        }
    } else {
        assert(d.0 == r.0);
        assert forall|i: int| 0 <= i < d.0.len() implies !(#[trigger] d.0[i] is Signal) by {
            assert(!is_closing(r.0[i]));
        }
    }
}

/// Inflating a page-frame number `p` releases exactly one host page at
/// `p << 12` rounded down to the page size; deflating primes that page.
pub proof fn lemma_inflate_releases_page(role: BalloonVq, c: DescriptorChain, k: int)
    requires
        is_pfn_role(role),
        head_error(c, PFN_SIZE) is None,
        0 <= k < readable_records(c.descriptors@[0].len, c.head_data@, PFN_SIZE),
    ensures
        ({
            let p = pfn_at(c.head_data@, k);
            let base = ((p as int * PAGE_SIZE) - (p as int * PAGE_SIZE) % PAGE_SIZE as int) as u64;
            &&& (role == BalloonVq::Inflate || role == BalloonVq::HeteroInflate) ==> pfn_chain(
                role,
                c,
            ).0[k] == Action::Release { addr: base, len: PAGE_SIZE }
            &&& (role == BalloonVq::Deflate || role == BalloonVq::HeteroDeflate) ==> pfn_chain(
                role,
                c,
            ).0[k] == Action::Prime { addr: base, len: PAGE_SIZE }
        }),
{
    let p = pfn_at(c.head_data@, k);
    assert(p as int * PAGE_SIZE < 0x1_0000_0000_0000_0000);
}

/// After a successful activation, which is given at least as many queues as
/// the acknowledged features need, each optional feature has its queues and
/// events exactly when it was acknowledged.
pub proof fn lemma_activation_follows_features(acked: u64, num_queues: nat)
    requires
        num_queues >= queues_needed(acked),
    ensures
        ({
            let q = QueueIndices::layout(acked, num_queues);
            let ev = q.spec_events();
            let stats = feature_set(acked, VIRTIO_BALLOON_F_STATS_VQ);
            let reporting = feature_set(acked, VIRTIO_BALLOON_F_REPORTING);
            let hetero = feature_set(acked, VIRTIO_BALLOON_F_HETERO_MEM);
            &&& (q.stats is Some <==> stats)
            &&& (q.reporting is Some <==> reporting)
            &&& (q.hetero_inflate is Some <==> hetero)
            &&& (q.hetero_deflate is Some <==> hetero)
            &&& (ev.contains(STATS_QUEUE_EVENT) <==> stats)
            &&& (ev.contains(STATS_TIMER_EVENT) <==> stats)
            &&& (ev.contains(REPORTING_QUEUE_EVENT) <==> reporting)
            &&& (ev.contains(HETERO_INFLATE_QUEUE_EVENT) <==> hetero)
            &&& (ev.contains(HETERO_DEFLATE_QUEUE_EVENT) <==> hetero)
        }),
{
    let q = QueueIndices::layout(acked, num_queues);
    let ev = q.spec_events();
    let e0 = if q.stats is Some {
        seq![STATS_TIMER_EVENT, STATS_QUEUE_EVENT]
    } else {
        Seq::empty()
    };
    let e1 = if q.reporting is Some {
        seq![REPORTING_QUEUE_EVENT]
    } else {
        Seq::empty()
    };
    let e2 = if q.hetero_inflate is Some {
        seq![HETERO_INFLATE_QUEUE_EVENT]
    } else {
        Seq::empty()
    };
    let e3 = if q.hetero_deflate is Some {
        seq![HETERO_DEFLATE_QUEUE_EVENT]
    } else {
        Seq::empty()
    };
    let base = seq![crate::handler::INFLATE_QUEUE_EVENT, crate::handler::DEFLATE_QUEUE_EVENT];
    let l0 = base.len() as int;
    let l1 = l0 + e0.len();
    let l2 = l1 + e1.len();
    let l3 = l2 + e2.len();
    assert(ev =~= base + e0 + e1 + e2 + e3);
    assert forall|i: int| 0 <= i < ev.len() implies #[trigger] ev[i] == (if i < l0 {
        base[i]
    } else if i < l1 {
        e0[i - l0]
    } else if i < l2 {
        e1[i - l1]
    } else if i < l3 {
        e2[i - l2]
    } else {
        e3[i - l3]
    }) by {}
    if q.stats is Some {
        assert(ev[l0] == STATS_TIMER_EVENT);
        assert(ev[l0 + 1] == STATS_QUEUE_EVENT);
    }
    if q.reporting is Some {
        assert(ev[l1] == REPORTING_QUEUE_EVENT);
    }
    if q.hetero_inflate is Some {
        assert(ev[l2] == HETERO_INFLATE_QUEUE_EVENT);
    }
    if q.hetero_deflate is Some {
        assert(ev[l3] == HETERO_DEFLATE_QUEUE_EVENT);
    }
}

} // verus!
