use vstd::prelude::*;

use crate::refcounter::Counters;

verus! {

/// Why a handle could not be read.
#[derive(Clone, Copy, Debug, PartialEq, Eq)]
pub enum PointerError {
    /// The handle is null.
    NullPointer,
    /// The handle has an allocation but no value was written through it.
    NotWritten { addr: usize },
    /// The handle was written, but its allocation holds no value any more:
    /// it was released through another handle.
    Released { addr: usize },
}

/// `got` is what a read hands out where `expected` describes the read: the
/// same error, or a clone of the value.
pub open spec fn read_as<T: Clone>(expected: Result<T, PointerError>, got: Result<T, PointerError>) -> bool {
    match got {
        Ok(x) => match expected {
            Ok(v) => cloned(v, x),
            Err(_) => false,
        },
        Err(e) => expected == Err::<T, PointerError>(e),
    }
}

/// What a heap holds: one entry per allocation (address `i + 1` is entry
/// `i`; `None` is memory that holds no value), and the counter cells.
pub struct HeapModel<T> {
    pub slots: Seq<Option<T>>,
    pub counters: Seq<usize>,
}

impl<T> HeapModel<T> {
    /// `addr` is null or names an allocation of this heap.
    pub open spec fn holds_addr(self, addr: nat) -> bool {
        addr <= self.slots.len()
    }

    /// The value at `addr`; `None` for the null address or memory without a
    /// value.
    pub open spec fn contents(self, addr: nat) -> Option<T> {
        if addr == 0 || addr > self.slots.len() {
            None
        } else {
            self.slots[addr - 1]
        }
    }

    /// What reading a handle at `addr` gives, where `written` says whether
    /// a value was written through it.
    pub open spec fn read_at(self, addr: nat, written: bool) -> Result<T, PointerError> {
        if addr == 0 {
            Err(PointerError::NullPointer)
        } else if !written {
            Err(PointerError::NotWritten { addr: addr as usize })
        } else {
            match self.contents(addr) {
                Some(v) => Ok(v),
                None => Err(PointerError::Released { addr: addr as usize }),
            }
        }
    }

    /// The address a handle holds after it asked for memory: its own when it
    /// has one, else a fresh one at the end of the heap.
    pub open spec fn alloc_addr(self, addr: nat) -> nat {
        if addr == 0 {
            self.slots.len() + 1
        } else {
            addr
        }
    }

    /// The heap after a handle at `addr` asked for memory.
    pub open spec fn after_alloc(self, addr: nat) -> HeapModel<T> {
        if addr == 0 {
            HeapModel { slots: self.slots.push(None), counters: self.counters }
        } else {
            self
        }
    }

    /// The heap with `value` placed at the allocation `addr`.
    pub open spec fn with_slot(self, addr: nat, value: Option<T>) -> HeapModel<T> {
        HeapModel { slots: self.slots.update(addr - 1, value), counters: self.counters }
    }

    /// The heap with the contents at `a` and `b` exchanged.
    pub open spec fn with_swapped(self, a: nat, b: nat) -> HeapModel<T> {
        self.with_slot(a, self.contents(b)).with_slot(b, self.contents(a))
    }

    /// The heap with new counter cells.
    pub open spec fn with_counters(self, counters: Seq<usize>) -> HeapModel<T> {
        HeapModel { slots: self.slots, counters }
    }

    /// `next` keeps every allocation and counter cell of `self`.
    pub open spec fn grows_to(self, next: HeapModel<T>) -> bool {
        &&& self.slots.len() <= next.slots.len()
        &&& self.counters.len() <= next.counters.len()
    }
}

/// The memory that handles point into: allocations of `T`, and the counter
/// cells that coordinate their release.
pub struct Heap<T> {
    slots: Vec<Option<T>>,
    counters: Counters,
}

impl<T> View for Heap<T> {
    type V = HeapModel<T>;

    closed spec fn view(&self) -> HeapModel<T> {
        HeapModel { slots: self.slots@, counters: self.counters@ }
    }
}

impl<T> Heap<T> {
    /// An empty heap.
    pub fn new() -> (r: Heap<T>)
        ensures
            r@.slots == Seq::<Option<T>>::empty(),
            r@.counters == Seq::<usize>::empty(),
    {
        Heap { slots: Vec::new(), counters: Counters::new() }
    }

    /// The number of allocations made so far.
    pub fn len(&self) -> (r: usize)
        ensures
            r == self@.slots.len(),
    {
        self.slots.len()
    }

    /// The counter cells.
    pub fn counters(&self) -> (r: &Counters)
        ensures
            r@ == self@.counters,
    {
        &self.counters
    }

    pub(crate) fn counters_mut(&mut self) -> (r: &mut Counters)
        ensures
            r@ == old(self)@.counters,
            final(self)@ == old(self)@.with_counters(final(r)@),
    {
        &mut self.counters
    }

    /// Reserves a fresh allocation holding no value; returns its address.
    pub(crate) fn reserve(&mut self) -> (addr: usize)
        ensures
            final(self)@ == old(self)@.after_alloc(0),
            addr as nat == old(self)@.alloc_addr(0),
    {
        self.slots.push(None);
        self.slots.len()
    }

    pub(crate) fn get(&self, addr: usize) -> (r: &Option<T>)
        requires
            1 <= addr <= self@.slots.len(),
        ensures
            *r == self@.contents(addr as nat),
    {
        &self.slots[addr - 1]
    }

    pub(crate) fn get_mut(&mut self, addr: usize) -> (r: &mut Option<T>)
        requires
            1 <= addr <= old(self)@.slots.len(),
        ensures
            *r == old(self)@.contents(addr as nat),
            final(self)@ == old(self)@.with_slot(addr as nat, *final(r)),
    {
        &mut self.slots[addr - 1]
    }

    /// Places `value` at the allocation `addr`.
    pub(crate) fn put(&mut self, addr: usize, value: Option<T>)
        requires
            1 <= addr <= old(self)@.slots.len(),
        ensures
            final(self)@ == old(self)@.with_slot(addr as nat, value),
    {
        self.slots.set(addr - 1, value);
    }

    /// Exchanges the contents of the allocations `a` and `b`.
    pub(crate) fn swap(&mut self, a: usize, b: usize)
        requires
            1 <= a <= old(self)@.slots.len(),
            1 <= b <= old(self)@.slots.len(),
        ensures
            final(self)@ == old(self)@.with_swapped(a as nat, b as nat),
    {
        let x = self.slots[a - 1].take();
        let y = self.slots[b - 1].take();
        self.slots.set(a - 1, y);
        self.slots.set(b - 1, x);
        proof {
            assert(self@.slots =~= old(self)@.with_swapped(a as nat, b as nat).slots);
        }
    }
}

} // verus!
