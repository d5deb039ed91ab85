//! Handles: address-sized tokens for host buffers that the native side has
//! allocated and hands across the boundary. Address 0 is the null handle;
//! address `a > 0` names slot `a - 1` of a fixed-size table.

use vstd::prelude::*;
use crate::buffer::{BridgeError, Mat};
use crate::model::ImageModel;

verus! {

/// The contents of a handle table: one entry per slot, `None` where free.
pub struct TableModel {
    pub slots: Seq<Option<ImageModel>>,
}

impl TableModel {
    /// Whether `addr` names an occupied slot.
    pub open spec fn is_live(self, addr: int) -> bool {
        1 <= addr <= self.slots.len() && self.slots[addr - 1] is Some
    }

    /// Whether a new buffer can be given a handle.
    pub open spec fn has_room(self) -> bool {
        exists|i: int| 0 <= i < self.slots.len() && self.slots[i] is None
    }
}

/// The buffers that currently stand behind a handle.
pub struct HandleTable {
    slots: Vec<Option<Mat>>,
}

impl View for HandleTable {
    type V = TableModel;

    closed spec fn view(&self) -> TableModel {
        TableModel {
            slots: self.slots@.map_values(
                |o: Option<Mat>|
                    match o {
                        Some(m) => Some(m@),
                        None => None,
                    },
            ),
        }
    }
}

impl HandleTable {
    /// A table with `capacity` free slots.
    pub fn new(capacity: usize) -> (r: HandleTable)
        ensures
            r@.slots.len() == capacity,
            forall|i: int| 0 <= i < capacity ==> r@.slots[i] is None,
    {
        let mut slots: Vec<Option<Mat>> = Vec::with_capacity(capacity);
        let mut i: usize = 0;
        while i < capacity
            invariant
                i <= capacity,
                slots@.len() == i,
                forall|j: int| 0 <= j < i ==> slots@[j] is None,
            decreases capacity - i,
        {
            slots.push(None);
            i += 1;
        }
        HandleTable { slots }
    }

    /// Gives `m` a handle in the first free slot and returns its address, or
    /// returns the null address 0 where every slot is taken.
    pub fn publish(&mut self, m: Mat) -> (addr: usize)
        ensures
            addr == 0 <==> !old(self)@.has_room(),
            addr == 0 ==> final(self)@ == old(self)@,
            addr != 0 ==> {
                &&& 1 <= addr <= old(self)@.slots.len()
                &&& old(self)@.slots[addr - 1] is None
                &&& final(self)@.slots == old(self)@.slots.update(addr - 1, Some(m@))
            },
    {
        let mut i: usize = 0;
        while i < self.slots.len()
            invariant
                i <= self.slots@.len(),
                self@ == old(self)@,
                forall|j: int| 0 <= j < i ==> self@.slots[j] is Some,
            decreases self.slots@.len() - i,
        {
            if self.slots[i].is_none() {
                self.slots.set(i, Some(m));
                proof {
                    assert(self@.slots =~= old(self)@.slots.update(i as int, Some(m@)));
                }
                return i + 1;
            }
            i += 1;
        }
        0
    }

    /// Takes the buffer behind the live address `addr` out of the table,
    /// freeing its slot.
    pub fn take(&mut self, addr: usize) -> (r: Mat)
        requires
            old(self)@.is_live(addr as int),
        ensures
            Some(r@) == old(self)@.slots[addr - 1],
            final(self)@.slots == old(self)@.slots.update(addr - 1, None),
    {
        let mut taken: Option<Mat> = None;
        std::mem::swap(&mut self.slots[addr - 1], &mut taken);
        proof {
            assert(self@.slots =~= old(self)@.slots.update(addr - 1, None));
        }
        taken.unwrap()
    }

    /// Resolves a handle: the null address fails with `NullHandle`; any
    /// other address must be live, and its buffer is taken out of the table.
    pub fn resolve(&mut self, addr: usize) -> (r: Result<Mat, BridgeError>)
        requires
            addr == 0 || old(self)@.is_live(addr as int),
        ensures
            addr == 0 ==> r == Err::<Mat, BridgeError>(BridgeError::NullHandle) && final(self)@
                == old(self)@,
            addr != 0 ==> {
                &&& r matches Ok(m) && Some(m@) == old(self)@.slots[addr - 1]
                &&& final(self)@.slots == old(self)@.slots.update(addr - 1, None)
            },
    {
        if addr == 0 {
            return Err(BridgeError::NullHandle);
        }
        Ok(self.take(addr))
    }
}

} // verus!
