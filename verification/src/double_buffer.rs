//! Double buffering: two fixed-capacity slots, one write-designated and one
//! read-designated, with an atomic role swap. Slots are handed out as
//! checked-out handles, so a swap can never overlap an outstanding handle;
//! contention is reported as `Busy` instead of corrupting state.
use vstd::prelude::*;
use vstd::pervasive::VecAdditionalExecFns;

verus! {

/// Capacity in bytes of each slot buffer.
pub const CAPACITY: usize = 4096;

/// One fixed-capacity byte buffer plus the count of valid bytes in it.
#[derive(Debug)]
pub struct RawBuffer {
    pub buffer: Vec<u8>,
    pub len: usize,
}

impl RawBuffer {
    /// The storage always spans exactly `CAPACITY` bytes and the valid
    /// length never exceeds it.
    pub open spec fn wf(&self) -> bool {
        &&& self.buffer@.len() == CAPACITY
        &&& self.len <= CAPACITY
    }

    /// The valid bytes: the prefix of the storage marked by `len`.
    /// Bytes past `len` are stale and never part of the view.
    pub open spec fn valid_bytes(&self) -> Seq<u8> {
        self.buffer@.subrange(0, self.len as int)
    }

    /// Overwrite the valid contents with `data`, leaving the tail stale.
    pub fn write_bytes(&mut self, data: &[u8])
        requires
            old(self).wf(),
            data@.len() <= CAPACITY,
        ensures
            final(self).wf(),
            final(self).len == data@.len(),
            final(self).valid_bytes() == data@,
    {
        let n: usize = data.len();
        let mut i: usize = 0;
        while i < n
            invariant
                i <= n,
                n == data@.len(),
                n <= CAPACITY,
                self.buffer@.len() == CAPACITY,
                forall|j: int| 0 <= j < i ==> self.buffer@[j] == data@[j],
            decreases n - i,
        {
            self.buffer.set(i, data[i]);
            i = i + 1;
        }
        self.len = n;
        proof {
            assert(self.valid_bytes() =~= data@);
        }
    }
}

impl Default for RawBuffer {
    /// A fresh slot: full capacity of zeroed storage, no valid bytes.
    fn default() -> (r: Self)
        ensures
            r.wf(),
            r.len == 0,
            r.valid_bytes() == Seq::<u8>::empty(),
            forall|i: int| 0 <= i < CAPACITY ==> r.buffer@[i] == 0u8,
    {
        let mut v: Vec<u8> = Vec::new();
        while v.len() < CAPACITY
            invariant
                v@.len() <= CAPACITY,
                forall|i: int| 0 <= i < v@.len() ==> v@[i] == 0u8,
            decreases CAPACITY - v@.len(),
        {
            v.push(0u8);
        }
        let r = RawBuffer { buffer: v, len: 0 };
        proof {
            assert(r.valid_bytes() =~= Seq::<u8>::empty());
        }
        r
    }
}

/// Contention: the requested slot (or, for a swap, either slot) is currently
/// checked out.
#[derive(Clone, Copy, Debug, PartialEq, Eq)]
pub enum BufferError {
    Busy,
}

/// Exclusive, checked-out access to one slot. While a handle is outstanding
/// the `DoubleBuffer` stores nothing at that index, so a second acquire of
/// the same slot, or a swap, reports `Busy` instead of aliasing the bytes.
#[derive(Debug)]
pub struct SlotHandle {
    pub slot: RawBuffer,
    pub idx: usize,
}

/// Two slots and a single active-write selector. At all times exactly one
/// slot is write-designated and the other read-designated.
#[derive(Debug)]
pub struct DoubleBuffer {
    slot0: Option<RawBuffer>,
    slot1: Option<RawBuffer>,
    write_buffer_idx: usize,
}

impl DoubleBuffer {
    /// Index of the slot currently designated for writing.
    pub closed spec fn spec_write_idx(&self) -> int {
        self.write_buffer_idx as int
    }

    /// Index of the slot currently designated for reading: always the
    /// other one.
    pub open spec fn spec_read_idx(&self) -> int {
        1 - self.spec_write_idx()
    }

    /// The slot stored at index `i`; `None` while it is checked out.
    pub closed spec fn slot(&self, i: int) -> Option<RawBuffer> {
        if i == 0 {
            self.slot0
        } else {
            self.slot1
        }
    }

    /// The selector picks a real slot and every stored slot is well formed.
    pub open spec fn wf(&self) -> bool {
        &&& 0 <= self.spec_write_idx() <= 1
        &&& (self.slot(0) matches Some(s) ==> s.wf())
        &&& (self.slot(1) matches Some(s) ==> s.wf())
    }

    /// Both slots are home: no handle is outstanding.
    pub open spec fn quiescent(&self) -> bool {
        &&& self.slot(0) is Some
        &&& self.slot(1) is Some
    }

    /// Two fresh zeroed slots; slot 0 starts write-designated.
    pub fn new() -> (r: Self)
        ensures
            r.wf(),
            r.quiescent(),
            r.spec_write_idx() == 0,
            (r.slot(0) matches Some(s) && s.len == 0),
            (r.slot(1) matches Some(s) && s.len == 0),
    {
        DoubleBuffer {
            slot0: Some(RawBuffer::default()),
            slot1: Some(RawBuffer::default()),
            write_buffer_idx: 0,
        }
    }

    fn getWriteIndex(&self) -> (i: usize)
        requires
            self.wf(),
        ensures
            i as int == self.spec_write_idx(),
    {
        self.write_buffer_idx
    }

    fn getReadIndex(&self) -> (i: usize)
        requires
            self.wf(),
        ensures
            i as int == self.spec_read_idx(),
    {
        if self.write_buffer_idx == 1 {
            0
        } else {
            1
        }
    }

    /// Exclusive access to the current write slot, or `Busy` while it is
    /// already checked out. Only the generator calls this.
    pub fn getForWrite(&mut self) -> (r: Result<SlotHandle, BufferError>)
        requires
            old(self).wf(),
        ensures
            final(self).wf(),
            match r {
                Ok(h) => write_acquired(*old(self), *final(self), h) && h.slot.wf(),
                Err(e) => {
                    &&& e == BufferError::Busy
                    &&& old(self).slot(old(self).spec_write_idx()) is None
                    &&& *final(self) == *old(self)
                },
            },
    {
        let idx: usize = self.getWriteIndex();
        let taken: Option<RawBuffer> = if idx == 0 {
            self.slot0.take()
        } else {
            self.slot1.take()
        };
        match taken {
            Some(slot) => Ok(SlotHandle { slot, idx }),
            None => Err(BufferError::Busy),
        }
    }

    /// Exclusive access to the current read slot, or `Busy` while it is
    /// already checked out. Only the sender calls this.
    pub fn getForRead(&mut self) -> (r: Result<SlotHandle, BufferError>)
        requires
            old(self).wf(),
        ensures
            final(self).wf(),
            match r {
                Ok(h) => read_acquired(*old(self), *final(self), h) && h.slot.wf(),
                Err(e) => {
                    &&& e == BufferError::Busy
                    &&& old(self).slot(old(self).spec_read_idx()) is None
                    &&& *final(self) == *old(self)
                },
            },
    {
        let idx: usize = self.getReadIndex();
        let taken: Option<RawBuffer> = if idx == 0 {
            self.slot0.take()
        } else {
            self.slot1.take()
        };
        match taken {
            Some(slot) => Ok(SlotHandle { slot, idx }),
            None => Err(BufferError::Busy),
        }
    }

    /// Return a checked-out slot to its index, making it visible to later
    /// acquires and permitting a swap again.
    pub fn release(&mut self, h: SlotHandle)
        requires
            old(self).wf(),
            h.idx <= 1,
            h.slot.wf(),
            old(self).slot(h.idx as int) is None,
        ensures
            final(self).wf(),
            released(*old(self), *final(self), h.idx as int, h.slot),
    {
        if h.idx == 0 {
            self.slot0 = Some(h.slot);
        } else {
            self.slot1 = Some(h.slot);
        }
    }

    /// Exchange the write/read designation. Succeeds only while both slots
    /// are home, so a swap can never overlap an outstanding handle; with a
    /// handle out it reports `Busy` and changes nothing. After a successful
    /// swap the previously written data is what the next read acquire sees.
    pub fn switch(&mut self) -> (r: Result<(), BufferError>)
        requires
            old(self).wf(),
        ensures
            final(self).wf(),
            match r {
                Ok(_) => switched(*old(self), *final(self)),
                Err(e) => {
                    &&& e == BufferError::Busy
                    &&& !old(self).quiescent()
                    &&& *final(self) == *old(self)
                },
            },
    {
        if self.slot0.is_some() && self.slot1.is_some() {
            if self.write_buffer_idx == 0 {
                self.write_buffer_idx = 1;
            } else {
                self.write_buffer_idx = 0;
            }
            Ok(())
        } else {
            Err(BufferError::Busy)
        }
    }
}

/// One successful `getForWrite`: `h` took the write slot out of `pre`,
/// leaving `post` empty at that index and everything else unchanged.
pub open spec fn write_acquired(pre: DoubleBuffer, post: DoubleBuffer, h: SlotHandle) -> bool {
    &&& h.idx as int == pre.spec_write_idx()
    &&& pre.slot(h.idx as int) == Some(h.slot)
    &&& post.spec_write_idx() == pre.spec_write_idx()
    &&& post.slot(h.idx as int) is None
    &&& post.slot(1 - h.idx as int) == pre.slot(1 - h.idx as int)
}

/// One successful `getForRead`: likewise for the read slot.
pub open spec fn read_acquired(pre: DoubleBuffer, post: DoubleBuffer, h: SlotHandle) -> bool {
    &&& h.idx as int == pre.spec_read_idx()
    &&& pre.slot(h.idx as int) == Some(h.slot)
    &&& post.spec_write_idx() == pre.spec_write_idx()
    &&& post.slot(h.idx as int) is None
    &&& post.slot(1 - h.idx as int) == pre.slot(1 - h.idx as int)
}

/// One `release`: `slot` went home at index `idx`, the other index and the
/// designation unchanged.
pub open spec fn released(pre: DoubleBuffer, post: DoubleBuffer, idx: int, slot: RawBuffer) -> bool {
    &&& post.spec_write_idx() == pre.spec_write_idx()
    &&& post.slot(idx) == Some(slot)
    &&& post.slot(1 - idx) == pre.slot(1 - idx)
}

/// One successful `switch`: designations toggled, contents untouched.
pub open spec fn switched(pre: DoubleBuffer, post: DoubleBuffer) -> bool {
    &&& pre.quiescent()
    &&& post.quiescent()
    &&& post.spec_write_idx() == pre.spec_read_idx()
    &&& post.slot(0) == pre.slot(0)
    &&& post.slot(1) == pre.slot(1)
}

/// Slot exclusivity law: however acquires are sequenced, a write handle and
/// a read handle outstanding at the same time never name the same slot —
/// the two designations are distinct at all times.
pub proof fn lemma_slot_exclusivity(
    pre: DoubleBuffer,
    mid: DoubleBuffer,
    post: DoubleBuffer,
    hw: SlotHandle,
    hr: SlotHandle,
)
    requires
        pre.wf(),
        write_acquired(pre, mid, hw),
        read_acquired(mid, post, hr),
    ensures
        hw.idx != hr.idx,
        hw.idx as int == pre.spec_write_idx(),
        hr.idx as int == pre.spec_read_idx(),
{
}

/// Swap parity law: two successful swaps in a row restore the original
/// write/read designation and leave both slots' contents as they were.
pub proof fn lemma_swap_parity(db0: DoubleBuffer, db1: DoubleBuffer, db2: DoubleBuffer)
    requires
        db0.wf(),
        switched(db0, db1),
        switched(db1, db2),
    ensures
        db2.spec_write_idx() == db0.spec_write_idx(),
        db2.spec_read_idx() == db0.spec_read_idx(),
        db2.slot(0) == db0.slot(0),
        db2.slot(1) == db0.slot(1),
{
}

/// Data fidelity law: the buffer released into the write slot is exactly
/// what the next read acquisition observes after one swap — same bytes,
/// same valid length, nothing stale.
pub proof fn lemma_data_fidelity(
    db0: DoubleBuffer,
    db1: DoubleBuffer,
    db2: DoubleBuffer,
    db3: DoubleBuffer,
    db4: DoubleBuffer,
    hw: SlotHandle,
    written: RawBuffer,
    hr: SlotHandle,
)
    requires
        db0.wf(),
        write_acquired(db0, db1, hw),
        released(db1, db2, hw.idx as int, written),
        switched(db2, db3),
        read_acquired(db3, db4, hr),
    ensures
        hr.slot == written,
        hr.slot.valid_bytes() == written.valid_bytes(),
{
}

} // verus!
