use vstd::prelude::*;

use std::marker::PhantomData;

use crate::memory::{read_as, Heap, HeapModel, PointerError};
use crate::refcounter::{cell_value, RefCounter};
use crate::traits::Pointee;
use vstd::std_specs::cmp::{OrdSpec, PartialEqSpec, PartialOrdSpec};

verus! {

/// What an owning handle holds: its address (`0` when null), the 1-based
/// address of its shared counter cell, and its flags.
pub struct OwnerModel {
    pub addr: nat,
    pub refs: nat,
    pub written: bool,
    pub is_copy: bool,
}

impl OwnerModel {
    /// A value was written only where memory is held, and the handle always
    /// has a counter cell.
    pub open spec fn wf(self) -> bool {
        &&& self.refs > 0
        &&& self.written ==> self.addr > 0
    }

    /// The handle is well formed and names memory and a cell of `heap`.
    pub open spec fn valid_in<T>(self, heap: HeapModel<T>) -> bool {
        &&& self.wf()
        &&& heap.holds_addr(self.addr)
        &&& self.refs <= heap.counters.len()
    }

    /// The value of the handle's shared counter.
    pub open spec fn refs_in<T>(self, heap: HeapModel<T>) -> usize {
        cell_value(heap.counters, self.refs)
    }

    /// What the handle's memory holds.
    pub open spec fn contents<T>(self, heap: HeapModel<T>) -> Option<T> {
        heap.contents(self.addr)
    }

    /// What reading the handle gives.
    pub open spec fn read_spec<T>(self, heap: HeapModel<T>) -> Result<T, PointerError> {
        heap.read_at(self.addr, self.written)
    }

    /// A read of the handle succeeds.
    pub open spec fn readable<T>(self, heap: HeapModel<T>) -> bool {
        self.read_spec(heap) is Ok
    }

    /// The heap with the handle's counter set to `value`.
    pub open spec fn with_refs<T>(self, heap: HeapModel<T>, value: int) -> HeapModel<T> {
        heap.with_counters(heap.counters.update(self.refs - 1, value as usize))
    }

    /// A new null owner: it holds no memory and its fresh counter is one.
    pub open spec fn fresh<T>(heap: HeapModel<T>) -> (OwnerModel, HeapModel<T>) {
        (
            OwnerModel { addr: 0, refs: heap.counters.len() + 1, written: false, is_copy: false },
            heap.with_counters(heap.counters.push(1)),
        )
    }

    /// The handle after it made sure it holds memory.
    pub open spec fn allocated<T>(self, heap: HeapModel<T>) -> (OwnerModel, HeapModel<T>) {
        (OwnerModel { addr: heap.alloc_addr(self.addr), ..self }, heap.after_alloc(self.addr))
    }

    /// The handle after `value` was written through it.
    pub open spec fn written_with<T>(self, heap: HeapModel<T>, value: T) -> (OwnerModel, HeapModel<T>) {
        let (p, h) = self.allocated(heap);
        (OwnerModel { written: true, ..p }, h.with_slot(p.addr, Some(value)))
    }

    /// A non-owning handle to a fresh allocation holding `value`, with a
    /// fresh counter holding `refs`.
    pub open spec fn copied<T>(heap: HeapModel<T>, value: T, refs: usize) -> (OwnerModel, HeapModel<T>) {
        (
            OwnerModel {
                addr: heap.slots.len() + 1,
                refs: heap.counters.len() + 1,
                written: true,
                is_copy: true,
            },
            HeapModel { slots: heap.slots.push(Some(value)), counters: heap.counters.push(refs) },
        )
    }

    /// A non-owning handle to `addr`, with a fresh counter holding `refs`.
    pub open spec fn adopted<T>(heap: HeapModel<T>, addr: nat, refs: usize) -> (OwnerModel, HeapModel<T>) {
        (
            OwnerModel { addr, refs: heap.counters.len() + 1, written: addr != 0, is_copy: true },
            heap.with_counters(heap.counters.push(refs)),
        )
    }

    /// The clone of the handle: it shares address and counter, which grows
    /// by one, and never releases the memory.
    pub open spec fn cloned_in<T>(self, heap: HeapModel<T>) -> (OwnerModel, HeapModel<T>) {
        (OwnerModel { is_copy: true, ..self }, self.with_refs(heap, self.refs_in(heap) + 1))
    }

    /// The propagated handle: an exact copy, counted like a clone.
    pub open spec fn propagated_in<T>(self, heap: HeapModel<T>) -> (OwnerModel, HeapModel<T>) {
        (self, self.with_refs(heap, self.refs_in(heap) + 1))
    }

    /// The handle after a release. A soft release with a positive counter
    /// only decrements it. Otherwise an owner with memory frees it and
    /// becomes null, and any other handle is left as it is.
    pub open spec fn released<T>(self, heap: HeapModel<T>, soft: bool) -> (OwnerModel, HeapModel<T>) {
        if soft && self.refs_in(heap) > 0 {
            (self, self.with_refs(heap, self.refs_in(heap) - 1))
        } else if self.addr != 0 && !self.is_copy {
            (
                OwnerModel { addr: 0, refs: self.refs, written: false, is_copy: false },
                heap.with_slot(self.addr, None),
            )
        } else {
            (self, heap)
        }
    }

    /// Two handles after their contents were exchanged; a null one gets
    /// memory first, unless both are null.
    pub open spec fn swapped<T>(a: OwnerModel, b: OwnerModel, heap: HeapModel<T>) -> (
        OwnerModel,
        OwnerModel,
        HeapModel<T>,
    ) {
        if a.addr == 0 && b.addr == 0 {
            (a, b, heap)
        } else {
            let (a1, h1) = a.allocated(heap);
            let (b1, h2) = b.allocated(h1);
            (a1, b1, h2.with_swapped(a1.addr, b1.addr))
        }
    }
}

/// Writing a value through any handle of the heap and then reading the
/// handle gives that value back (`read` hands out a clone of it).
pub proof fn law_write_then_read<T>(p: OwnerModel, heap: HeapModel<T>, v: T)
    requires
        p.valid_in(heap),
    ensures
        ({
            let (q, h) = p.written_with(heap, v);
            &&& q.valid_in(h)
            &&& q.read_spec(h) == Ok::<T, PointerError>(v)
        }),
{
}

/// A new null handle, written with a value and then read, gives that value
/// back.
pub proof fn law_null_write_then_read<T>(heap: HeapModel<T>, v: T)
    ensures
        ({
            let (p, h1) = OwnerModel::fresh(heap);
            let (q, h2) = p.written_with(h1, v);
            &&& p.valid_in(h1)
            &&& q.read_spec(h2) == Ok::<T, PointerError>(v)
        }),
{
    let (p, h1) = OwnerModel::fresh(heap);
    law_write_then_read(p, h1, v);
}

/// Right after a clone, the clone's counter is the source's counter before
/// the clone plus one, both handles read that same counter, and both have
/// the same address.
pub proof fn law_clone_counts<T>(p: OwnerModel, heap: HeapModel<T>)
    requires
        p.valid_in(heap),
        p.refs_in(heap) < usize::MAX,
    ensures
        ({
            let (q, h) = p.cloned_in(heap);
            &&& q.valid_in(h)
            &&& q.refs_in(h) == p.refs_in(heap) + 1
            &&& p.refs_in(h) == q.refs_in(h)
            &&& q.addr == p.addr
            &&& q.is_copy
        }),
{
}

/// Releasing a clone softly only gives back the count the clone took: the
/// heap is as it was before the clone, so whatever the source could read it
/// still reads, and its counter is back where it was.
pub proof fn law_release_of_clone_keeps_value<T>(p: OwnerModel, heap: HeapModel<T>)
    requires
        p.valid_in(heap),
        p.refs_in(heap) < usize::MAX,
    ensures
        ({
            let (q, h1) = p.cloned_in(heap);
            let (q2, h2) = q.released(h1, true);
            &&& h2 == heap
            &&& p.read_spec(h2) == p.read_spec(heap)
            &&& p.refs_in(h2) == p.refs_in(heap)
        }),
{
    let (q, h1) = p.cloned_in(heap);
    let (q2, h2) = q.released(h1, true);
    assert(h2.counters =~= heap.counters);
}

/// A soft release of an owner whose counter is already zero frees the
/// memory: the handle is left null, so that it holds no memory and a read
/// fails, and the memory it had holds no value.
pub proof fn law_last_release_frees<T>(p: OwnerModel, heap: HeapModel<T>)
    requires
        p.valid_in(heap),
        !p.is_copy,
        p.refs_in(heap) == 0,
    ensures
        ({
            let (q, h) = p.released(heap, true);
            &&& q.valid_in(h)
            &&& q.addr == 0
            &&& q.read_spec(h) is Err
            &&& h.contents(p.addr) is None
        }),
{
}

/// Swapping two handles twice gives each handle back the contents it had,
/// and every allocation that existed before holds what it held.
pub proof fn law_swap_twice_restores<T>(a: OwnerModel, b: OwnerModel, heap: HeapModel<T>)
    requires
        a.valid_in(heap),
        b.valid_in(heap),
    ensures
        ({
            let (a1, b1, h1) = OwnerModel::swapped(a, b, heap);
            let (a2, b2, h2) = OwnerModel::swapped(a1, b1, h1);
            &&& a2.contents(h2) == a.contents(heap)
            &&& b2.contents(h2) == b.contents(heap)
            &&& a2 == a1
            &&& b2 == b1
            &&& heap.grows_to(h2)
            &&& forall|i: int| 0 <= i < heap.slots.len() ==> h2.slots[i] == heap.slots[i]
        }),
{
}

/// A reference-counted handle to an allocation of a [`Heap`].
///
/// A handle starts null, gets memory on its first write, and can be cloned:
/// clones share the address and the counter, which each clone increments,
/// and are flagged as copies, which never free the memory. Releasing a
/// handle decrements the counter while it is positive; once it is zero, the
/// owner frees the memory.
#[derive(Debug)]
pub struct UniquePointer<T: Pointee> {
    mut_addr: usize,
    refs: RefCounter,
    written: bool,
    copy: bool,
    referent: PhantomData<T>,
}

impl<T: Pointee> View for UniquePointer<T> {
    type V = OwnerModel;

    closed spec fn view(&self) -> OwnerModel {
        OwnerModel {
            addr: self.mut_addr as nat,
            refs: self.refs.cell(),
            written: self.written,
            is_copy: self.copy,
        }
    }
}

impl<T: Pointee> UniquePointer<T> {
    /// A null handle, the sole owner of what it will hold: its counter is
    /// one.
    pub fn null(heap: &mut Heap<T>) -> (r: UniquePointer<T>)
        ensures
            (r@, final(heap)@) == OwnerModel::fresh(old(heap)@),
    {
        let refs = RefCounter::new(heap.counters_mut());
        UniquePointer { mut_addr: 0, refs, written: false, copy: false, referent: PhantomData }
    }

    /// A handle holding `data`.
    pub fn from_value(heap: &mut Heap<T>, data: T) -> (r: UniquePointer<T>)
        ensures
            ({
                let (p, h) = OwnerModel::fresh(old(heap)@);
                (r@, final(heap)@) == p.written_with(h, data)
            }),
    {
        let mut up = UniquePointer::null(heap);
        up.write(heap, data);
        up
    }

    /// The address; `0` for a null handle.
    pub fn addr(&self) -> (r: usize)
        ensures
            r as nat == self@.addr,
    {
        self.mut_addr
    }

    /// The value of the shared counter.
    pub fn refs(&self, heap: &Heap<T>) -> (r: usize)
        requires
            self@.valid_in(heap@),
        ensures
            r == self@.refs_in(heap@),
    {
        self.refs.read(heap.counters())
    }

    pub fn is_null(&self) -> (r: bool)
        ensures
            r == (self@.addr == 0),
    {
        self.mut_addr == 0
    }

    pub fn is_not_null(&self) -> (r: bool)
        ensures
            r == (self@.addr != 0),
    {
        !self.is_null()
    }

    /// The handle came from `clone` and never frees the memory.
    pub fn is_copy(&self) -> (r: bool)
        ensures
            r == self@.is_copy,
    {
        self.copy
    }

    pub fn is_not_copy(&self) -> (r: bool)
        ensures
            r == !self@.is_copy,
    {
        !self.is_copy()
    }

    /// The handle holds memory.
    pub fn is_allocated(&self) -> (r: bool)
        ensures
            r == (self@.addr != 0),
    {
        self.is_not_null()
    }

    /// A value was written through the handle.
    pub fn is_written(&self) -> (r: bool)
        ensures
            r == (self@.written && self@.addr != 0),
    {
        self.written && self.is_allocated()
    }

    /// The handle may free its memory: it holds some and is no copy.
    pub fn can_dealloc(&self) -> (r: bool)
        ensures
            r == (self@.addr != 0 && !self@.is_copy),
    {
        self.is_allocated() && self.is_not_copy() && self.is_not_null()
    }

    /// The address of the memory, which must exist.
    pub fn cast_mut(&self) -> (r: usize)
        requires
            self@.addr != 0,
        ensures
            r as nat == self@.addr,
    {
        self.mut_addr
    }

    /// The address of the memory, which must exist.
    pub fn cast_const(&self) -> (r: usize)
        requires
            self@.addr != 0,
        ensures
            r as nat == self@.addr,
    {
        self.mut_addr
    }

    /// Makes sure the handle holds memory; a handle that has some keeps it.
    pub fn allocate(&mut self, heap: &mut Heap<T>)
        requires
            old(self)@.valid_in(old(heap)@),
        ensures
            (final(self)@, final(heap)@) == old(self)@.allocated(old(heap)@),
    {
        if self.is_allocated() {
            return;
        }
        self.mut_addr = heap.reserve();
    }

    /// Moves `data` into the handle's memory, which is allocated first when
    /// the handle is null.
    pub fn write(&mut self, heap: &mut Heap<T>, data: T)
        requires
            old(self)@.valid_in(old(heap)@),
        ensures
            (final(self)@, final(heap)@) == old(self)@.written_with(old(heap)@, data),
    {
        self.allocate(heap);
        heap.put(self.mut_addr, Some(data));
        self.written = true;
    }

    /// Exchanges the contents of the two handles' memory, leaving their
    /// flags as they are. A null handle gets memory first, unless both are
    /// null.
    pub fn swap(&mut self, other: &mut Self, heap: &mut Heap<T>)
        requires
            old(self)@.valid_in(old(heap)@),
            old(other)@.valid_in(old(heap)@),
        ensures
            (final(self)@, final(other)@, final(heap)@) == OwnerModel::swapped(
                old(self)@,
                old(other)@,
                old(heap)@,
            ),
    {
        if self.is_null() && other.is_null() {
            return;
        }
        self.allocate(heap);
        other.allocate(heap);
        heap.swap(self.mut_addr, other.mut_addr);
    }

    fn incr_ref(&self, heap: &mut Heap<T>)
        requires
            self@.valid_in(old(heap)@),
            self@.refs_in(old(heap)@) < usize::MAX,
        ensures
            final(heap)@ == self@.with_refs(old(heap)@, self@.refs_in(old(heap)@) + 1),
    {
        let mut refs = self.refs;
        refs.incr(heap.counters_mut());
    }

    fn decr_ref(&self, heap: &mut Heap<T>)
        requires
            self@.valid_in(old(heap)@),
        ensures
            self@.refs_in(old(heap)@) == 0 ==> final(heap)@ == old(heap)@,
            self@.refs_in(old(heap)@) > 0 ==> final(heap)@ == self@.with_refs(
                old(heap)@,
                self@.refs_in(old(heap)@) - 1,
            ),
    {
        if self.refs(heap) == 0 {
            return;
        }
        let mut refs = self.refs;
        refs.decr(heap.counters_mut());
    }

    /// An uncounted duplicate of the handle, with the same address, counter
    /// cell and flags, as a bitwise copy of a value that holds the handle
    /// makes. The counter is not touched: `clone` is the counted copy.
    pub fn duplicate(&self) -> (r: UniquePointer<T>)
        ensures
            r@ == self@,
    {
        UniquePointer {
            mut_addr: self.mut_addr,
            refs: self.refs,
            written: self.written,
            copy: self.copy,
            referent: PhantomData,
        }
    }

    /// A counted copy: it shares the address and the counter, increments the
    /// counter, and is flagged as a copy, so that releasing it never frees
    /// the memory.
    pub fn clone(&self, heap: &mut Heap<T>) -> (r: UniquePointer<T>)
        requires
            self@.valid_in(old(heap)@),
            self@.refs_in(old(heap)@) < usize::MAX,
        ensures
            (r@, final(heap)@) == self@.cloned_in(old(heap)@),
    {
        self.incr_ref(heap);
        UniquePointer {
            mut_addr: self.mut_addr,
            refs: self.refs,
            written: self.written,
            copy: true,
            referent: PhantomData,
        }
    }

    /// A counted copy that keeps the flags, so that a copy of an owner is an
    /// owner too. Either owner may then free the memory under the other:
    /// the caller must make sure that only one of them goes on using it. A
    /// second release of memory that was already freed finds it without a
    /// value and only makes that handle null.
    pub fn propagate(&self, heap: &mut Heap<T>) -> (r: UniquePointer<T>)
        requires
            self@.valid_in(old(heap)@),
            self@.refs_in(old(heap)@) < usize::MAX,
        ensures
            (r@, final(heap)@) == self@.propagated_in(old(heap)@),
    {
        self.incr_ref(heap);
        UniquePointer {
            mut_addr: self.mut_addr,
            refs: self.refs,
            written: self.written,
            copy: self.copy,
            referent: PhantomData,
        }
    }

    /// A handle flagged as a copy that points at `addr`, with a fresh
    /// counter holding `refs`.
    pub fn copy_from_mut_ptr(heap: &mut Heap<T>, addr: usize, refs: usize) -> (r: UniquePointer<T>)
        requires
            old(heap)@.holds_addr(addr as nat),
        ensures
            (r@, final(heap)@) == OwnerModel::adopted(old(heap)@, addr as nat, refs),
    {
        let refs = RefCounter::from(heap.counters_mut(), refs);
        UniquePointer { mut_addr: addr, refs, written: addr != 0, copy: true, referent: PhantomData }
    }

    fn free(&mut self, heap: &mut Heap<T>)
        requires
            old(self)@.valid_in(old(heap)@),
        ensures
            !old(self)@.is_copy && old(self)@.addr != 0 ==> {
                &&& final(self)@ == (OwnerModel {
                    addr: 0,
                    refs: old(self)@.refs,
                    written: false,
                    is_copy: false,
                })
                &&& final(heap)@ == old(heap)@.with_slot(old(self)@.addr, None)
            },
            old(self)@.is_copy || old(self)@.addr == 0 ==> {
                &&& final(self)@ == old(self)@
                &&& final(heap)@ == old(heap)@
            },
    {
        if !self.can_dealloc() {
            return;
        }
        heap.put(self.mut_addr, None);
        self.mut_addr = 0;
        self.written = false;
        self.copy = false;
    }

    /// Releases the handle. With `soft` and a positive counter, the counter
    /// is decremented and the memory stays for the other holders. Otherwise
    /// an owner with memory frees it and becomes null, whatever the counter
    /// says, and a copy or a null handle is left as it is.
    pub fn dealloc(&mut self, heap: &mut Heap<T>, soft: bool)
        requires
            old(self)@.valid_in(old(heap)@),
        ensures
            (final(self)@, final(heap)@) == old(self)@.released(old(heap)@, soft),
    {
        if soft && self.refs(heap) > 0 {
            self.decr_ref(heap);
        } else {
            self.free(heap);
        }
    }

    /// A soft release: what dropping the handle does.
    pub fn drop_in_place(&mut self, heap: &mut Heap<T>)
        requires
            old(self)@.valid_in(old(heap)@),
        ensures
            (final(self)@, final(heap)@) == old(self)@.released(old(heap)@, true),
    {
        self.dealloc(heap, true);
    }

    /// A reference to the value, which must be readable.
    pub fn inner_ref<'a>(&self, heap: &'a Heap<T>) -> (r: &'a T)
        requires
            self@.valid_in(heap@),
            self@.readable(heap@),
        ensures
            self@.read_spec(heap@) == Ok::<T, PointerError>(*r),
    {
        heap.get(self.mut_addr).as_ref().unwrap()
    }

    /// A reference to the value, if the handle can be read.
    pub fn as_ref<'a>(&self, heap: &'a Heap<T>) -> (r: Option<&'a T>)
        requires
            self@.valid_in(heap@),
        ensures
            r is Some <==> self@.readable(heap@),
            r is Some ==> self@.read_spec(heap@) == Ok::<T, PointerError>(*(r->0)),
    {
        if self.is_null() || !self.written {
            return None;
        }
        heap.get(self.mut_addr).as_ref()
    }

    /// A mutable reference to the value, if the handle can be read. What is
    /// stored through it is what every handle at this address reads.
    pub fn as_mut<'a>(&self, heap: &'a mut Heap<T>) -> (r: Option<&'a mut T>)
        requires
            self@.valid_in(old(heap)@),
        ensures
            r is Some <==> self@.readable(old(heap)@),
            r is None ==> final(heap)@ == old(heap)@,
            r is Some ==> self@.read_spec(old(heap)@) == Ok::<T, PointerError>(*(r->0)),
            r is Some ==> final(heap)@ == old(heap)@.with_slot(self@.addr, Some(*final(r->0))),
    {
        if self.is_null() || !self.written {
            return None;
        }
        if heap.get(self.mut_addr).is_none() {
            return None;
        }
        Some(self.inner_mut(heap))
    }

    /// A mutable reference to the value, which must be readable. What is
    /// stored through it is what every handle at this address reads.
    pub fn inner_mut<'a>(&self, heap: &'a mut Heap<T>) -> (r: &'a mut T)
        requires
            self@.valid_in(old(heap)@),
            self@.readable(old(heap)@),
        ensures
            self@.read_spec(old(heap)@) == Ok::<T, PointerError>(*r),
            final(heap)@ == old(heap)@.with_slot(self@.addr, Some(*final(r))),
    {
        match heap.get_mut(self.mut_addr) {
            Some(v) => v,
            None => vstd::pervasive::unreached(),
        }
    }
}

impl<T: Pointee + Clone> UniquePointer<T> {
    /// Stores a clone of `data` in the handle's memory, which is allocated
    /// first when the handle is null. The source and the stored value are
    /// independent afterwards.
    pub fn write_ref(&mut self, heap: &mut Heap<T>, data: &T)
        requires
            old(self)@.valid_in(old(heap)@),
        ensures
            ({
                let v = final(self)@.contents(final(heap)@)->0;
                &&& cloned(*data, v)
                &&& (final(self)@, final(heap)@) == old(self)@.written_with(old(heap)@, v)
            }),
    {
        self.write(heap, data.clone());
    }

    /// Stores a clone of `*data`, as `write_ref` does; `data` is left as it
    /// is.
    pub fn write_ref_mut(&mut self, heap: &mut Heap<T>, data: &mut T)
        requires
            old(self)@.valid_in(old(heap)@),
        ensures
            *final(data) == *old(data),
            ({
                let v = final(self)@.contents(final(heap)@)->0;
                &&& cloned(*old(data), v)
                &&& (final(self)@, final(heap)@) == old(self)@.written_with(old(heap)@, v)
            }),
    {
        self.write_ref(heap, data);
    }

    /// A new owner holding a clone of `src`.
    pub fn from_ref(heap: &mut Heap<T>, src: &T) -> (r: UniquePointer<T>)
        ensures
            ({
                let v = r@.contents(final(heap)@)->0;
                let (p, h) = OwnerModel::fresh(old(heap)@);
                &&& cloned(*src, v)
                &&& (r@, final(heap)@) == p.written_with(h, v)
            }),
    {
        let mut up = UniquePointer::null(heap);
        up.write_ref(heap, src);
        up
    }

    /// A new owner holding a clone of `*src`; `src` is left as it is.
    pub fn from_ref_mut(heap: &mut Heap<T>, src: &mut T) -> (r: UniquePointer<T>)
        ensures
            *final(src) == *old(src),
            ({
                let v = r@.contents(final(heap)@)->0;
                let (p, h) = OwnerModel::fresh(old(heap)@);
                &&& cloned(*old(src), v)
                &&& (r@, final(heap)@) == p.written_with(h, v)
            }),
    {
        let mut up = UniquePointer::null(heap);
        up.write_ref_mut(heap, src);
        up
    }

    /// A handle flagged as a copy over a fresh allocation holding a clone of
    /// `data`, with a fresh counter holding `refs`. Being a copy, it never
    /// frees that allocation.
    pub fn copy_from_ref(heap: &mut Heap<T>, data: &T, refs: usize) -> (r: UniquePointer<T>)
        ensures
            ({
                let v = r@.contents(final(heap)@)->0;
                &&& cloned(*data, v)
                &&& (r@, final(heap)@) == OwnerModel::copied(old(heap)@, v, refs)
            }),
    {
        let addr = heap.reserve();
        heap.put(addr, Some(data.clone()));
        let refs = RefCounter::from(heap.counters_mut(), refs);
        proof {
            assert(heap@.slots =~= old(heap)@.slots.push(heap@.slots[addr - 1]));
        }
        UniquePointer { mut_addr: addr, refs, written: true, copy: true, referent: PhantomData }
    }

    /// A read-only view of `data`: `copy_from_ref` with a counter of one.
    pub fn read_only(heap: &mut Heap<T>, data: &T) -> (r: UniquePointer<T>)
        ensures
            ({
                let v = r@.contents(final(heap)@)->0;
                &&& cloned(*data, v)
                &&& (r@, final(heap)@) == OwnerModel::copied(old(heap)@, v, 1)
            }),
    {
        UniquePointer::copy_from_ref(heap, data, 1)
    }

    /// A clone of the value, or why there is none: the handle is null, was
    /// never written, or its memory was released through another handle.
    pub fn read(&self, heap: &Heap<T>) -> (r: Result<T, PointerError>)
        requires
            self@.valid_in(heap@),
        ensures
            read_as(self@.read_spec(heap@), r),
    {
        if self.is_null() {
            return Err(PointerError::NullPointer);
        }
        if !self.written {
            return Err(PointerError::NotWritten { addr: self.mut_addr });
        }
        match heap.get(self.mut_addr) {
            Some(v) => Ok(v.clone()),
            None => Err(PointerError::Released { addr: self.mut_addr }),
        }
    }

    /// A clone of the value, if the handle can be read.
    pub fn try_read(&self, heap: &Heap<T>) -> (r: Option<T>)
        requires
            self@.valid_in(heap@),
        ensures
            r is Some <==> self@.readable(heap@),
            r is Some ==> cloned(self@.contents(heap@)->0, r->0),
    {
        match self.read(heap) {
            Ok(v) => Some(v),
            Err(_) => None,
        }
    }

    /// A boxed clone of the value, which must be readable.
    pub fn into_box_unchecked(&self, heap: &Heap<T>) -> (r: Box<T>)
        requires
            self@.valid_in(heap@),
            self@.readable(heap@),
        ensures
            cloned(self@.contents(heap@)->0, *r),
    {
        match self.read(heap) {
            Ok(v) => Box::new(v),
            Err(_) => vstd::pervasive::unreached(),
        }
    }

    /// A boxed clone of the value, if the handle can be read.
    pub fn into_box(&self, heap: &Heap<T>) -> (r: Option<Box<T>>)
        requires
            self@.valid_in(heap@),
        ensures
            r is Some <==> self@.readable(heap@),
            r is Some ==> cloned(self@.contents(heap@)->0, *(r->0)),
    {
        match self.read(heap) {
            Ok(v) => Some(Box::new(v)),
            Err(_) => None,
        }
    }
}

impl<T: Pointee + PartialEq> UniquePointer<T> {
    /// Equality of handles. Handles at one address are equal without a look
    /// at the values. Otherwise a null handle equals no other, and two
    /// handles with memory compare what it holds: two values by `T`'s own
    /// equality, and memory without a value equals only memory without one.
    pub fn eq(&self, other: &Self, heap: &Heap<T>) -> (r: bool)
        requires
            self@.valid_in(heap@),
            other@.valid_in(heap@),
        ensures
            self@.addr == other@.addr ==> r,
            self@.addr != other@.addr && (self@.addr == 0 || other@.addr == 0) ==> !r,
            self@.addr != other@.addr && self@.addr != 0 && other@.addr != 0 ==> match (
                self@.contents(heap@),
                other@.contents(heap@),
            ) {
                (Some(a), Some(b)) => T::obeys_eq_spec() ==> r == a.eq_spec(&b),
                (a, b) => r == (a is None && b is None),
            },
    {
        if self.mut_addr == other.mut_addr {
            return true;
        }
        if self.is_null() || other.is_null() {
            return false;
        }
        match (heap.get(self.mut_addr), heap.get(other.mut_addr)) {
            (Some(a), Some(b)) => a.eq(b),
            (None, None) => true,
            _ => false,
        }
    }
}

impl<T: Pointee + PartialOrd> UniquePointer<T> {
    /// Ordering of handles: none for a null handle; equal for handles at
    /// one address; otherwise `T`'s own ordering of the two values, and
    /// none where either memory holds no value.
    pub fn partial_cmp(&self, other: &Self, heap: &Heap<T>) -> (r: Option<std::cmp::Ordering>)
        requires
            self@.valid_in(heap@),
            other@.valid_in(heap@),
        ensures
            self@.addr == 0 ==> r is None,
            self@.addr != 0 && self@.addr == other@.addr ==> r == Some(std::cmp::Ordering::Equal),
            self@.addr != 0 && self@.addr != other@.addr ==> match (
                self@.contents(heap@),
                other@.contents(heap@),
            ) {
                (Some(a), Some(b)) => T::obeys_partial_cmp_spec() ==> r == a.partial_cmp_spec(&b),
                _ => r is None,
            },
    {
        if self.is_null() {
            return None;
        }
        if self.mut_addr == other.mut_addr {
            return Some(std::cmp::Ordering::Equal);
        }
        if other.is_null() {
            return None;
        }
        match (heap.get(self.mut_addr), heap.get(other.mut_addr)) {
            (Some(a), Some(b)) => a.partial_cmp(b),
            _ => None,
        }
    }
}

impl<T: Pointee + Ord> UniquePointer<T> {
    /// Total ordering of handles: a null handle comes first, and before
    /// every handle with memory; otherwise what the memory holds is
    /// compared, memory without a value first and two values by `T`'s own
    /// ordering.
    pub fn cmp(&self, other: &Self, heap: &Heap<T>) -> (r: std::cmp::Ordering)
        requires
            self@.valid_in(heap@),
            other@.valid_in(heap@),
        ensures
            self@.addr == 0 ==> r == std::cmp::Ordering::Less,
            self@.addr != 0 && other@.addr == 0 ==> r == std::cmp::Ordering::Greater,
            self@.addr != 0 && other@.addr != 0 ==> match (
                self@.contents(heap@),
                other@.contents(heap@),
            ) {
                (Some(a), Some(b)) => T::obeys_cmp_spec() ==> r == a.cmp_spec(&b),
                (None, None) => r == std::cmp::Ordering::Equal,
                (None, Some(_)) => r == std::cmp::Ordering::Less,
                (Some(_), None) => r == std::cmp::Ordering::Greater,
            },
    {
        if self.is_null() {
            return std::cmp::Ordering::Less;
        }
        if other.is_null() {
            return std::cmp::Ordering::Greater;
        }
        match (heap.get(self.mut_addr), heap.get(other.mut_addr)) {
            (Some(a), Some(b)) => a.cmp(b),
            (None, None) => std::cmp::Ordering::Equal,
            (None, Some(_)) => std::cmp::Ordering::Less,
            (Some(_), None) => std::cmp::Ordering::Greater,
        }
    }
}

} // verus!
