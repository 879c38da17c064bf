use vstd::prelude::*;
use crate::counters::{BalloonCounters, NUM_STATS};
use crate::error::Error;
use crate::le::{from_le_u16, from_le_u32, from_le_u64, read_le_u16, read_le_u32, read_le_u64};

verus! {

/// Host page size the device works with; activation refuses any other.
pub const PAGE_SIZE: u64 = 4096;

/// Size of one page-frame number in an inflate or deflate buffer.
pub const PFN_SIZE: u32 = 4;

/// Size of one packed `{tag: u16, val: u64}` statistics record.
pub const STAT_SIZE: u32 = 10;

/// The roles a balloon virtqueue can play.
#[derive(Debug, Clone, Copy, PartialEq, Eq, Structural)]
pub enum BalloonVq {
    Inflate,
    Deflate,
    Stats,
    Reporting,
    HeteroInflate,
    HeteroDeflate,
}

/// One descriptor of a chain, as found in the descriptor table.
#[derive(Debug, Clone, Copy, PartialEq, Eq, Structural)]
pub struct Descriptor {
    /// Guest physical address of the buffer.
    pub addr: u64,
    /// Length of the buffer in bytes.
    pub len: u32,
    /// Whether the buffer is device-writable only.
    pub write_only: bool,
}

/// A descriptor chain taken from the available ring.
#[derive(Debug, Clone)]
pub struct DescriptorChain {
    /// Index of the head descriptor, reported back in the used ring.
    pub head_index: u16,
    /// The descriptors, head first.
    pub descriptors: Vec<Descriptor>,
    /// The bytes of the head buffer, from its start, as far as guest memory
    /// could be read: shorter than the head's length when a read failed.
    pub head_data: Vec<u8>,
}

/// A host action that the handling of a queue calls for, in order.
#[derive(Debug, Clone, Copy, PartialEq, Eq, Structural)]
pub enum Action {
    /// Punch a hole in the backing file (if any) and discard the range.
    Release { addr: u64, len: u64 },
    /// Advise the host kernel that the range will be needed soon.
    Prime { addr: u64, len: u64 },
    /// Post the chain with this head to the used ring with this length.
    AddUsed { head_index: u16, len: u32 },
    /// Raise the used-ring interrupt of the queue at this index.
    Signal { queue_index: usize },
    /// Arm the statistics refresh timer for the configured interval.
    ArmStatsTimer,
}

/// What handling one chain, or one drain, produced: the actions to perform
/// in order, then the error that stopped it, if any.
#[derive(Debug, Clone)]
pub struct Outcome {
    pub actions: Vec<Action>,
    pub error: Option<Error>,
}

impl Outcome {
    pub open spec fn spec(&self) -> (Seq<Action>, Option<Error>) {
        (self.actions@, self.error)
    }
}

pub open spec fn is_pfn_role(role: BalloonVq) -> bool {
    role == BalloonVq::Inflate || role == BalloonVq::Deflate || role == BalloonVq::HeteroInflate
        || role == BalloonVq::HeteroDeflate
}

pub open spec fn is_inflate_role(role: BalloonVq) -> bool {
    role == BalloonVq::Inflate || role == BalloonVq::HeteroInflate
}

/// Guest address of page-frame number `pfn`.
pub open spec fn pfn_addr(pfn: u32) -> u64 {
    (pfn as int * PAGE_SIZE as int) as u64
}

/// `addr` rounded down to a multiple of the page size.
pub open spec fn align_page_down(addr: u64) -> u64 {
    (addr - addr % PAGE_SIZE) as u64
}

/// `addr + off`, wrapping at 2^64.
pub open spec fn wrap_add(addr: u64, off: int) -> u64 {
    if addr + off > u64::MAX {
        (addr + off - 0x1_0000_0000_0000_0000) as u64
    } else {
        (addr + off) as u64
    }
}

/// The page-frame number at position `k` of a buffer.
pub open spec fn pfn_at(data: Seq<u8>, k: int) -> u32 {
    from_le_u32(data.subrange(4 * k, 4 * k + 4))
}

/// The memory action for the page at `pfn` on a queue of role `role`.
pub open spec fn pfn_action(role: BalloonVq, pfn: u32) -> Action {
    if is_inflate_role(role) {
        Action::Release { addr: align_page_down(pfn_addr(pfn)), len: PAGE_SIZE }
    } else {
        Action::Prime { addr: align_page_down(pfn_addr(pfn)), len: PAGE_SIZE }
    }
}

/// Number of complete records of `size` bytes among the first `len` bytes
/// of a buffer of which `data` could be read.
pub open spec fn readable_records(len: u32, data: Seq<u8>, size: u32) -> nat {
    let n = len as int / size as int;
    let m = data.len() as int / size as int;
    (if n < m {
        n
    } else {
        m
    }) as nat
}

/// The error, if any, that the head of a chain raises before its body is read.
pub open spec fn head_error(c: DescriptorChain, size: u32) -> Option<Error> {
    if c.descriptors@.len() == 0 {
        Some(Error::DescriptorChainTooShort)
    } else if c.descriptors@[0].write_only {
        Some(Error::UnexpectedWriteOnlyDescriptor)
    } else if c.descriptors@[0].len % size != 0 {
        Some(Error::InvalidRequest)
    } else {
        None
    }
}

/// Sum of the lengths of the device-readable descriptors of `ds`.
pub open spec fn readable_len(ds: Seq<Descriptor>) -> int
    decreases ds.len(),
{
    if ds.len() == 0 {
        0
    } else {
        readable_len(ds.drop_last()) + if ds.last().write_only {
            0
        } else {
            ds.last().len as int
        }
    }
}

/// The length posted to the used ring for an inflate, deflate or
/// statistics chain: the chain's total readable length, wrapping at 2^32
/// as the used ring's 32-bit length field does.
pub open spec fn chain_used_len(c: DescriptorChain) -> u32 {
    (readable_len(c.descriptors@) % 0x1_0000_0000) as u32
}

/// Handling of a chain on an inflate or deflate queue: one memory action
/// per page-frame number, then the used entry; a read that falls short
/// stops after the complete page-frame numbers before it.
pub open spec fn pfn_chain(role: BalloonVq, c: DescriptorChain) -> (Seq<Action>, Option<Error>) {
    if head_error(c, PFN_SIZE) is Some {
        (Seq::empty(), head_error(c, PFN_SIZE))
    } else {
        let head = c.descriptors@[0];
        let m = readable_records(head.len, c.head_data@, PFN_SIZE);
        let ops = Seq::new(m, |k: int| pfn_action(role, pfn_at(c.head_data@, k)));
        if m < head.len / PFN_SIZE {
            (ops, Some(Error::GuestMemory(wrap_add(head.addr, 4 * m as int))))
        } else {
            (ops.push(Action::AddUsed { head_index: c.head_index, len: chain_used_len(c) }), None)
        }
    }
}

/// Sum of the lengths of the descriptors of `ds`.
pub open spec fn total_len(ds: Seq<Descriptor>) -> int
    decreases ds.len(),
{
    if ds.len() == 0 {
        0
    } else {
        total_len(ds.drop_last()) + ds.last().len
    }
}

/// Handling of a chain on the reporting queue. The head must be present and
/// readable. Every descriptor, the head included, hands over a guest range:
/// each range is released, then the used entry carries the sum of all the
/// lengths, wrapping at 2^32.
pub open spec fn reporting_chain(c: DescriptorChain) -> (Seq<Action>, Option<Error>) {
    let ds = c.descriptors@;
    if head_error(c, 1) is Some {
        (Seq::empty(), head_error(c, 1))
    } else {
        (
            Seq::new(ds.len(), |k: int| release_of(ds[k])).push(
                Action::AddUsed {
                    head_index: c.head_index,
                    len: (total_len(ds) % 0x1_0000_0000) as u32,
                },
            ),
            None,
        )
    }
}

/// Release of the whole range of descriptor `d`.
pub open spec fn release_of(d: Descriptor) -> Action {
    Action::Release { addr: d.addr, len: d.len as u64 }
}

pub open spec fn stat_tag(data: Seq<u8>, k: int) -> u16 {
    from_le_u16(data.subrange(10 * k, 10 * k + 2))
}

pub open spec fn stat_val(data: Seq<u8>, k: int) -> u64 {
    from_le_u64(data.subrange(10 * k + 2, 10 * k + 10))
}

/// How many of the first `m` statistics records carry a known tag before
/// the first that does not.
pub open spec fn known_prefix(data: Seq<u8>, m: nat) -> nat
    decreases m,
{
    if m == 0 {
        0
    } else {
        let p = known_prefix(data, (m - 1) as nat);
        if p == m - 1 && stat_tag(data, m - 1) < NUM_STATS {
            m
        } else {
            p
        }
    }
}

/// The statistics cells after storing the first `k` records of `data`.
pub open spec fn apply_stats(cells: Seq<u64>, data: Seq<u8>, k: nat) -> Seq<u64>
    decreases k,
{
    if k == 0 {
        cells
    } else {
        apply_stats(cells, data, (k - 1) as nat).update(
            stat_tag(data, k - 1) as int,
            stat_val(data, k - 1),
        )
    }
}

/// Handling of a chain on the statistics queue: the actions, the error and
/// the statistics cells afterwards. Records are stored in order up to the
/// first unknown tag or the first record that could not be read.
pub open spec fn stats_chain(cells: Seq<u64>, c: DescriptorChain) -> (
    Seq<Action>,
    Option<Error>,
    Seq<u64>,
) {
    if head_error(c, STAT_SIZE) is Some {
        (Seq::empty(), head_error(c, STAT_SIZE), cells)
    } else {
        let head = c.descriptors@[0];
        let data = c.head_data@;
        let m = readable_records(head.len, data, STAT_SIZE);
        let j = known_prefix(data, m);
        let after = apply_stats(cells, data, j);
        if j < m {
            (Seq::empty(), Some(Error::UnexpectedStatTag(stat_tag(data, j as int))), after)
        } else if m < head.len / STAT_SIZE {
            (Seq::empty(), Some(Error::GuestMemory(wrap_add(head.addr, 10 * m as int))), after)
        } else {
            (seq![Action::AddUsed { head_index: c.head_index, len: chain_used_len(c) }], None, after)
        }
    }
}

/// Handling of one chain on a queue of role `role`, with statistics cells
/// `cells` beforehand.
pub open spec fn chain_spec(cells: Seq<u64>, role: BalloonVq, c: DescriptorChain) -> (
    Seq<Action>,
    Option<Error>,
    Seq<u64>,
) {
    if role == BalloonVq::Stats {
        stats_chain(cells, c)
    } else if role == BalloonVq::Reporting {
        (reporting_chain(c).0, reporting_chain(c).1, cells)
    } else {
        (pfn_chain(role, c).0, pfn_chain(role, c).1, cells)
    }
}

/// Handling of the chains `cs`, in order, up to the first that fails: the
/// actions, the error, and the statistics cells afterwards. No interrupt
/// and no timer action is part of it.
pub open spec fn chains_spec(cells: Seq<u64>, role: BalloonVq, cs: Seq<DescriptorChain>) -> (
    Seq<Action>,
    Option<Error>,
    Seq<u64>,
)
    decreases cs.len(),
{
    if cs.len() == 0 {
        (Seq::empty(), None, cells)
    } else {
        let prev = chains_spec(cells, role, cs.drop_last());
        if prev.1 is Some {
            prev
        } else {
            let r = chain_spec(prev.2, role, cs.last());
            (prev.0 + r.0, r.1, r.2)
        }
    }
}

/// Reads the head descriptor, or reports the error that the head raises.
fn checked_head(c: &DescriptorChain, size: u32) -> (r: Result<Descriptor, Error>)
    requires
        size > 0,
    ensures
        head_error(*c, size) is Some ==> r == Err::<Descriptor, Error>(
            head_error(*c, size)->Some_0,
        ),
        head_error(*c, size) is None ==> r == Ok::<Descriptor, Error>(c.descriptors@[0]),
{
    if c.descriptors.len() == 0 {
        return Err(Error::DescriptorChainTooShort);
    }
    let head = c.descriptors[0];
    if head.write_only {
        return Err(Error::UnexpectedWriteOnlyDescriptor);
    }
    if head.len % size != 0 {
        return Err(Error::InvalidRequest);
    }
    Ok(head)
}

/// The chain's total readable length, wrapping at 2^32.
fn readable_length(c: &DescriptorChain) -> (r: u32)
    ensures
        r == chain_used_len(*c),
{
    let ds = &c.descriptors;
    let mut total: u32 = 0;
    let mut i: usize = 0;
    while i < ds.len()
        invariant
            ds@ == c.descriptors@,
            i <= ds@.len(),
            total == readable_len(ds@.take(i as int)) % 0x1_0000_0000,
        decreases ds@.len() - i,
    {
        let d = ds[i];
        assert(ds@.take(i + 1).drop_last() =~= ds@.take(i as int));
        if !d.write_only {
            total = total.wrapping_add(d.len);
        }
        i = i + 1;
    }
    assert(ds@.take(i as int) =~= ds@);
    total
}

/// Whole records of `size` bytes fit `k` times in `a` bytes when `size * k <= a`.
proof fn lemma_records_fit(a: int, size: int, k: int)
    requires
        size > 0,
        0 <= k,
        size * k <= a,
    ensures
        a / size >= k,
{
    assert(a / size >= k) by (nonlinear_arith)
        requires
            size > 0,
            0 <= k,
            size * k <= a,
    ;
}

/// Fewer than `k + 1` records of `size` bytes fit in `a` bytes when `a < size * (k + 1)`.
proof fn lemma_records_short(a: int, size: int, k: int)
    requires
        size > 0,
        0 <= a,
        a < size * (k + 1),
    ensures
        a / size <= k,
{
    assert(a / size <= k) by (nonlinear_arith)
        requires
            size > 0,
            0 <= a,
            a < size * (k + 1),
    ;
}

/// Handles one chain of an inflate or deflate queue of role `role`.
pub fn process_pfn_chain(role: BalloonVq, c: &DescriptorChain) -> (r: Outcome)
    requires
        is_pfn_role(role),
    ensures
        r.spec() == pfn_chain(role, *c),
{
    let head = match checked_head(c, PFN_SIZE) {
        Ok(h) => h,
        Err(e) => return Outcome { actions: Vec::new(), error: Some(e) },
    };
    let ghost m = readable_records(head.len, c.head_data@, PFN_SIZE);
    let data = &c.head_data;
    let mut actions: Vec<Action> = Vec::new();
    let mut off: u32 = 0;
    let mut k: usize = 0;
    while off < head.len
        invariant
            c.descriptors@.len() > 0,
            head == c.descriptors@[0],
            head_error(*c, PFN_SIZE) is None,
            is_pfn_role(role),
            data@ == c.head_data@,
            off == 4 * k,
            off <= head.len,
            4 * k <= data@.len(),
            m == readable_records(head.len, c.head_data@, PFN_SIZE),
            k <= m,
            actions@ == Seq::new(k as nat, |i: int| pfn_action(role, pfn_at(data@, i))),
        decreases head.len - off,
    {
        proof {
            lemma_records_fit(head.len as int, 4, k + 1);
            lemma_records_fit(data@.len() as int, 4, k as int);
        }
        if (off as usize) + 4 > data.len() {
            proof {
                lemma_records_short(data@.len() as int, 4, k as int);
            }
            assert(k < head.len / PFN_SIZE);
            assert(k == m);
            return Outcome {
                actions,
                error: Some(Error::GuestMemory(head.addr.wrapping_add(off as u64))),
            };
        }
        proof {
            lemma_records_fit(data@.len() as int, 4, k + 1);
        }
        let pfn = read_le_u32(data.as_slice(), off as usize);
        let byte_addr = (pfn as u64) * PAGE_SIZE;
        let addr = byte_addr - byte_addr % PAGE_SIZE;
        if role == BalloonVq::Inflate || role == BalloonVq::HeteroInflate {
            actions.push(Action::Release { addr, len: PAGE_SIZE });
        } else {
            actions.push(Action::Prime { addr, len: PAGE_SIZE });
        }
        off = off + 4;
        k = k + 1;
        assert(actions@ =~= Seq::new(k as nat, |i: int| pfn_action(role, pfn_at(data@, i))));
    }
    assert(k == m);
    actions.push(Action::AddUsed { head_index: c.head_index, len: readable_length(c) });
    Outcome { actions, error: None }
}

/// Once a record with an unknown tag follows `k` known ones, no later
/// record extends the known prefix.
proof fn lemma_known_prefix_stops(data: Seq<u8>, k: nat, m: nat)
    requires
        known_prefix(data, k) == k,
        stat_tag(data, k as int) >= NUM_STATS,
        k < m,
    ensures
        known_prefix(data, m) == k,
    decreases m,
{
    if m > k + 1 {
        lemma_known_prefix_stops(data, k, (m - 1) as nat);
    }
}

/// Handles one chain of the statistics queue, storing its records in `counters`.
pub fn process_stats_chain(counters: &mut BalloonCounters, c: &DescriptorChain) -> (r: Outcome)
    ensures
        r.spec() == (stats_chain(old(counters)@, *c).0, stats_chain(old(counters)@, *c).1),
        final(counters)@ == stats_chain(old(counters)@, *c).2,
{
    let ghost cells = counters@;
    let head = match checked_head(c, STAT_SIZE) {
        Ok(h) => h,
        Err(e) => return Outcome { actions: Vec::new(), error: Some(e) },
    };
    let ghost m = readable_records(head.len, c.head_data@, STAT_SIZE);
    let data = &c.head_data;
    let mut off: u32 = 0;
    let mut k: usize = 0;
    while off < head.len
        invariant
            c.descriptors@.len() > 0,
            head == c.descriptors@[0],
            head_error(*c, STAT_SIZE) is None,
            data@ == c.head_data@,
            off == 10 * k,
            off <= head.len,
            10 * k <= data@.len(),
            m == readable_records(head.len, c.head_data@, STAT_SIZE),
            k <= m,
            known_prefix(data@, k as nat) == k,
            cells == old(counters)@,
            counters@ == apply_stats(cells, data@, k as nat),
        decreases head.len - off,
    {
        proof {
            lemma_records_fit(head.len as int, 10, k + 1);
            lemma_records_fit(data@.len() as int, 10, k as int);
        }
        if (off as usize) + 10 > data.len() {
            proof {
                lemma_records_short(data@.len() as int, 10, k as int);
            }
            assert(k < head.len / STAT_SIZE);
            assert(k == m);
            assert(known_prefix(data@, m) == k);
            return Outcome {
                actions: Vec::new(),
                error: Some(Error::GuestMemory(head.addr.wrapping_add(off as u64))),
            };
        }
        proof {
            lemma_records_fit(data@.len() as int, 10, k + 1);
        }
        let tag = read_le_u16(data.as_slice(), off as usize);
        let val = read_le_u64(data.as_slice(), off as usize + 2);
        match counters.store(tag, val) {
            Ok(()) => {},
            Err(e) => {
                proof {
                    assert(k < head.len / STAT_SIZE);
                    assert(k < m);
                    lemma_known_prefix_stops(data@, k as nat, m);
                    assert(counters@ == apply_stats(cells, data@, k as nat));
                }
                return Outcome { actions: Vec::new(), error: Some(e) };
            },
        }
        off = off + 10;
        k = k + 1;
    }
    assert(k == m);
    let len = readable_length(c);
    let mut actions: Vec<Action> = Vec::new();
    actions.push(Action::AddUsed { head_index: c.head_index, len });
    assert(actions@ =~= seq![Action::AddUsed { head_index: c.head_index, len }]);
    Outcome { actions, error: None }
}

/// Handles one chain of the reporting queue: a missing or write-only head
/// fails the chain; otherwise every descriptor's range is released.
pub fn process_reporting_chain(c: &DescriptorChain) -> (r: Outcome)
    ensures
        r.spec() == reporting_chain(*c),
{
    if let Err(e) = checked_head(c, 1) {
        return Outcome { actions: Vec::new(), error: Some(e) };
    }
    let ds = &c.descriptors;
    let mut actions: Vec<Action> = Vec::new();
    let mut total: u32 = 0;
    let mut i: usize = 0;
    while i < ds.len()
        invariant
            ds@ == c.descriptors@,
            i <= ds@.len(),
            total == total_len(ds@.take(i as int)) % 0x1_0000_0000,
            actions@ == Seq::new(i as nat, |k: int| release_of(ds@[k])),
        decreases ds@.len() - i,
    {
        let d = ds[i];
        assert(ds@.take(i + 1).drop_last() =~= ds@.take(i as int));
        total = total.wrapping_add(d.len);
        actions.push(Action::Release { addr: d.addr, len: d.len as u64 });
        i = i + 1;
        assert(actions@ =~= Seq::new(i as nat, |k: int| release_of(ds@[k])));
    }
    assert(ds@.take(i as int) =~= ds@);
    actions.push(Action::AddUsed { head_index: c.head_index, len: total });
    Outcome { actions, error: None }
}

} // verus!
