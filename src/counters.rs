use vstd::prelude::*;
use crate::error::Error;

verus! {

/// Number of statistics the guest may report.
pub const NUM_STATS: u16 = 16;

/// The name of statistic `tag`, for a tag below 16.
pub open spec fn stat_name(tag: u16) -> Seq<char> {
    if tag == 0 {
        "swap_in"@
    } else if tag == 1 {
        "swap_out"@
    } else if tag == 2 {
        "major_faults"@
    } else if tag == 3 {
        "minor_faults"@
    } else if tag == 4 {
        "free_memory"@
    } else if tag == 5 {
        "total_memory"@
    } else if tag == 6 {
        "available_memory"@
    } else if tag == 7 {
        "disk_caches"@
    } else if tag == 8 {
        "hugetlb_allocations"@
    } else if tag == 9 {
        "hugetlb_failures"@
    } else if tag == 10 {
        "dram_accesses"@
    } else if tag == 11 {
        "dram_free"@
    } else if tag == 12 {
        "dram_total"@
    } else if tag == 13 {
        "pmem_accesses"@
    } else if tag == 14 {
        "pmem_free"@
    } else {
        "pmem_total"@
    }
}

/// The bank of statistics that the guest reports, one 64-bit cell per tag.
#[derive(Debug, Clone, Copy)]
pub struct BalloonCounters {
    values: [u64; 16],
}

impl View for BalloonCounters {
    type V = Seq<u64>;

    /// The cells, indexed by tag.
    closed spec fn view(&self) -> Seq<u64> {
        self.values@
    }
}

impl Default for BalloonCounters {
    fn default() -> (r: Self)
        ensures
            r@ == Seq::new(16, |i: int| 0u64),
    {
        BalloonCounters::new()
    }
}

impl BalloonCounters {
    /// A bank with every cell zero.
    pub fn new() -> (r: Self)
        ensures
            r@ == Seq::new(16, |i: int| 0u64),
    {
        let r = BalloonCounters { values: [0u64; 16] };
        assert(r@ =~= Seq::new(16, |i: int| 0u64));
        r
    }

    /// The value stored for `tag`.
    pub fn get(&self, tag: u16) -> (r: Result<u64, Error>)
        ensures
            tag < NUM_STATS ==> r == Ok::<u64, Error>(self@[tag as int]),
            tag >= NUM_STATS ==> r == Err::<u64, Error>(Error::UnexpectedStatTag(tag)),
    {
        if tag < NUM_STATS {
            Ok(self.values[tag as usize])
        } else {
            Err(Error::UnexpectedStatTag(tag))
        }
    }

    /// Stores `val` in the cell for `tag`; an unknown tag changes nothing.
    pub fn store(&mut self, tag: u16, val: u64) -> (r: Result<(), Error>)
        ensures
            tag < NUM_STATS ==> r == Ok::<(), Error>(()) && final(self)@ == old(self)@.update(
                tag as int,
                val,
            ),
            tag >= NUM_STATS ==> r == Err::<(), Error>(Error::UnexpectedStatTag(tag))
                && *final(self) == *old(self),
    {
        if tag < NUM_STATS {
            self.values[tag as usize] = val;
            Ok(())
        } else {
            Err(Error::UnexpectedStatTag(tag))
        }
    }

    /// The name under which statistic `tag` is exposed.
    pub fn name(&self, tag: u16) -> (r: Result<&'static str, Error>)
        ensures
            tag < NUM_STATS ==> r is Ok && r->Ok_0@ == stat_name(tag),
            tag >= NUM_STATS ==> r == Err::<&'static str, Error>(Error::UnexpectedStatTag(tag)),
    {
        match tag {
            0 => Ok("swap_in"),
            1 => Ok("swap_out"),
            2 => Ok("major_faults"),
            3 => Ok("minor_faults"),
            4 => Ok("free_memory"),
            5 => Ok("total_memory"),
            6 => Ok("available_memory"),
            7 => Ok("disk_caches"),
            8 => Ok("hugetlb_allocations"),
            9 => Ok("hugetlb_failures"),
            10 => Ok("dram_accesses"),
            11 => Ok("dram_free"),
            12 => Ok("dram_total"),
            13 => Ok("pmem_accesses"),
            14 => Ok("pmem_free"),
            15 => Ok("pmem_total"),
            _ => Err(Error::UnexpectedStatTag(tag)),
        }
    }
}

} // verus!
