use vstd::prelude::*;
use crate::le::{from_le_u32, le_u32, lemma_le_u32_round_trip, push_le_u32, read_le_u32};

verus! {

/// Size of the configuration window, in bytes.
pub const CONFIG_SIZE: u64 = 24;

/// Byte offset of the guest-writable `actual` field.
pub const CONFIG_ACTUAL_OFFSET: u64 = 4;

/// Byte offset of the guest-writable `hetero_actual` field.
pub const CONFIG_HETERO_ACTUAL_OFFSET: u64 = 20;

/// Width of each guest-writable field.
pub const CONFIG_ACTUAL_SIZE: usize = 4;

/// Shift between a page count of the balloon interface and a byte count.
pub const VIRTIO_BALLOON_PFN_SHIFT: u64 = 12;

/// A byte count expressed in 4 KiB pages, truncated to 32 bits.
pub open spec fn pages_of(size: u64) -> u32 {
    (size as int / 4096) as u32
}

/// The configuration record that the device shares with the guest.
///
/// Six 32-bit fields laid out little-endian, in this order, in a 24-byte
/// window. The host writes `num_pages` and `num_hetero_pages`; the guest
/// writes `actual` and `hetero_actual`; the other two are kept for layout
/// only.
#[derive(Debug, Clone, Copy, PartialEq, Eq, Structural)]
pub struct VirtioBalloonConfig {
    /// Number of pages the host wants the guest to give up.
    pub num_pages: u32,
    /// Number of pages the guest has actually put in the balloon.
    pub actual: u32,
    /// Free page hinting command (not implemented).
    pub hint_cmd_id: u32,
    /// Poison value for reported pages (not implemented).
    pub poison_val: u32,
    /// Number of heterogeneous pages the host wants the guest to give up.
    pub num_hetero_pages: u32,
    /// Number of heterogeneous pages the guest has actually put in the balloon.
    pub hetero_actual: u32,
}

impl VirtioBalloonConfig {
    /// The 24 bytes of the configuration window.
    pub open spec fn bytes(&self) -> Seq<u8> {
        le_u32(self.num_pages) + le_u32(self.actual) + le_u32(self.hint_cmd_id) + le_u32(
            self.poison_val,
        ) + le_u32(self.num_hetero_pages) + le_u32(self.hetero_actual)
    }

    /// Whether a guest write of `len` bytes at `offset` is accepted.
    pub open spec fn write_accepted(offset: u64, len: nat) -> bool {
        (offset == CONFIG_ACTUAL_OFFSET || offset == CONFIG_HETERO_ACTUAL_OFFSET) && len
            == CONFIG_ACTUAL_SIZE
    }

    /// The record after the guest wrote `data` at `offset`.
    pub open spec fn after_write(self, offset: u64, data: Seq<u8>) -> Self {
        if !Self::write_accepted(offset, data.len()) {
            self
        } else if offset == CONFIG_ACTUAL_OFFSET {
            VirtioBalloonConfig { actual: from_le_u32(data), ..self }
        } else {
            VirtioBalloonConfig { hetero_actual: from_le_u32(data), ..self }
        }
    }

    /// The window after a read of `len` bytes at `offset`, byte `i` of the
    /// destination: the window's byte where it lies inside the window, the
    /// destination's old byte where it lies past the end.
    pub open spec fn read_byte(self, offset: u64, old_data: Seq<u8>, i: int) -> u8 {
        if offset as int + i < CONFIG_SIZE as int {
            self.bytes()[offset as int + i]
        } else {
            old_data[i]
        }
    }

    /// A record with every field zero.
    pub fn zeroed() -> (r: Self)
        ensures
            r.num_pages == 0 && r.actual == 0 && r.hint_cmd_id == 0,
            r.poison_val == 0 && r.num_hetero_pages == 0 && r.hetero_actual == 0,
    {
        VirtioBalloonConfig {
            num_pages: 0,
            actual: 0,
            hint_cmd_id: 0,
            poison_val: 0,
            num_hetero_pages: 0,
            hetero_actual: 0,
        }
    }

    /// A record targeting `size[0]` and `size[1]` bytes, everything else zero.
    pub fn with_target(size: [u64; 2]) -> (r: Self)
        ensures
            r.num_pages == pages_of(size[0]),
            r.num_hetero_pages == pages_of(size[1]),
            r.actual == 0 && r.hint_cmd_id == 0 && r.poison_val == 0 && r.hetero_actual == 0,
    {
        let mut c = Self::zeroed();
        c.set_target(size);
        c
    }

    /// Sets the host-owned targets from byte sizes, leaving the guest's fields alone.
    pub fn set_target(&mut self, size: [u64; 2])
        ensures
            *final(self) == (VirtioBalloonConfig {
                num_pages: pages_of(size[0]),
                num_hetero_pages: pages_of(size[1]),
                ..*old(self)
            }),
    {
        let a = size[0];
        let b = size[1];
        assert((a >> 12u64) == a / 4096) by (bit_vector);
        assert((b >> 12u64) == b / 4096) by (bit_vector);
        self.num_pages = (a >> VIRTIO_BALLOON_PFN_SHIFT) as u32;
        self.num_hetero_pages = (b >> VIRTIO_BALLOON_PFN_SHIFT) as u32;
    }

    /// The configuration window as bytes.
    pub fn as_bytes(&self) -> (r: Vec<u8>)
        ensures
            r@ == self.bytes(),
    {
        let mut out: Vec<u8> = Vec::new();
        push_le_u32(&mut out, self.num_pages);
        push_le_u32(&mut out, self.actual);
        push_le_u32(&mut out, self.hint_cmd_id);
        push_le_u32(&mut out, self.poison_val);
        push_le_u32(&mut out, self.num_hetero_pages);
        push_le_u32(&mut out, self.hetero_actual);
        out
    }

    /// Copies the window, from `offset` on, into `data`. Bytes of `data`
    /// that would lie past the end of the window are left untouched.
    pub fn read_config(&self, offset: u64, data: &mut [u8])
        ensures
            final(data)@.len() == old(data)@.len(),
            forall|i: int|
                0 <= i < old(data)@.len() ==> #[trigger] final(data)@[i] == self.read_byte(
                    offset,
                    old(data)@,
                    i,
                ),
    {
        let window = self.as_bytes();
        let n = data.len();
        let mut i: usize = 0;
        while i < n
            invariant
                window@ == self.bytes(),
                n == old(data)@.len(),
                data@.len() == n,
                i <= n,
                forall|j: int|
                    0 <= j < i ==> #[trigger] data@[j] == self.read_byte(offset, old(data)@, j),
                forall|j: int| i <= j < n ==> #[trigger] data@[j] == old(data)@[j],
            decreases n - i,
        {
            if offset < CONFIG_SIZE && (i as u64) < CONFIG_SIZE - offset {
                let k = (offset + i as u64) as usize;
                data[i] = window[k];
            }
            i = i + 1;
        }
    }

    /// Applies a guest write to the window. Only a four-byte write of
    /// `actual` (offset 4) or `hetero_actual` (offset 20) is accepted; any
    /// other write leaves the record as it was.
    pub fn write_config(&mut self, offset: u64, data: &[u8])
        ensures
            *final(self) == old(self).after_write(offset, data@),
    {
        if (offset != CONFIG_ACTUAL_OFFSET && offset != CONFIG_HETERO_ACTUAL_OFFSET) || data.len()
            != CONFIG_ACTUAL_SIZE {
            return ;
        }
        let v = read_le_u32(data, 0);
        assert(data@.subrange(0, 4) =~= data@);
        if offset == CONFIG_ACTUAL_OFFSET {
            self.actual = v;
        } else {
            self.hetero_actual = v;
        }
    }
}

/// A guest write replaces exactly the four bytes it covers when it is
/// accepted, and changes nothing otherwise.
pub proof fn lemma_write_config_bytes(c: VirtioBalloonConfig, offset: u64, data: Seq<u8>)
    ensures
        VirtioBalloonConfig::write_accepted(offset, data.len()) ==> c.after_write(
            offset,
            data,
        ).bytes() == c.bytes().subrange(0, offset as int) + data + c.bytes().subrange(
            offset as int + 4,
            24,
        ),
        !VirtioBalloonConfig::write_accepted(offset, data.len()) ==> c.after_write(offset, data)
            == c,
{
    if VirtioBalloonConfig::write_accepted(offset, data.len()) {
        lemma_le_u32_round_trip(data);
        let n = c.after_write(offset, data);
        let b = c.bytes();
        if offset == CONFIG_ACTUAL_OFFSET {
            assert(n.bytes() =~= b.subrange(0, 4) + data + b.subrange(8, 24));
        } else {
            assert(n.bytes() =~= b.subrange(0, 20) + data + b.subrange(24, 24));
        }
    }
}

} // verus!
