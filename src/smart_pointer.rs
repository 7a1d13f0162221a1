use vstd::prelude::*;

use std::marker::PhantomData;

use crate::memory::{read_as, Heap, HeapModel, PointerError};
use crate::traits::Pointee;
use vstd::std_specs::cmp::{OrdSpec, PartialEqSpec, PartialOrdSpec};

verus! {

/// What an alias handle holds: its address (`0` when null) and whether a
/// value was written through it.
pub struct AliasModel {
    pub addr: nat,
    pub written: bool,
}

impl AliasModel {
    /// A value was written only where memory is held.
    pub open spec fn wf(self) -> bool {
        self.written ==> self.addr > 0
    }

    /// The handle is well formed and null or names memory of `heap`.
    pub open spec fn valid_in<T>(self, heap: HeapModel<T>) -> bool {
        self.wf() && heap.holds_addr(self.addr)
    }

    /// What the handle's memory holds.
    pub open spec fn contents<T>(self, heap: HeapModel<T>) -> Option<T> {
        heap.contents(self.addr)
    }

    /// What reading the handle gives.
    pub open spec fn read_spec<T>(self, heap: HeapModel<T>) -> Result<T, PointerError> {
        heap.read_at(self.addr, self.written)
    }

    /// A read of the handle succeeds.
    pub open spec fn readable<T>(self, heap: HeapModel<T>) -> bool {
        self.read_spec(heap) is Ok
    }

    /// The handle after it made sure it holds memory.
    pub open spec fn allocated<T>(self, heap: HeapModel<T>) -> (AliasModel, HeapModel<T>) {
        (AliasModel { addr: heap.alloc_addr(self.addr), ..self }, heap.after_alloc(self.addr))
    }

    /// The handle after `value` was written through it.
    pub open spec fn written_with<T>(self, heap: HeapModel<T>, value: T) -> (AliasModel, HeapModel<T>) {
        let (p, h) = self.allocated(heap);
        (AliasModel { written: true, ..p }, h.with_slot(p.addr, Some(value)))
    }

    /// The handle after a release: one with memory frees it and becomes
    /// null; a null one is left as it is.
    pub open spec fn released<T>(self, heap: HeapModel<T>) -> (AliasModel, HeapModel<T>) {
        if self.addr != 0 {
            (AliasModel { addr: 0, written: false }, heap.with_slot(self.addr, None))
        } else {
            (self, heap)
        }
    }

    /// Two handles after their contents were exchanged; a null one gets
    /// memory first, unless both are null.
    pub open spec fn swapped<T>(a: AliasModel, b: AliasModel, heap: HeapModel<T>) -> (
        AliasModel,
        AliasModel,
        HeapModel<T>,
    ) {
        if a.addr == 0 && b.addr == 0 {
            (a, b, heap)
        } else {
            let (a1, h1) = a.allocated(heap);
            let (b1, h2) = b.allocated(h1);
            (a1, b1, h2.with_swapped(a1.addr, b1.addr))
        }
    }
}

/// A handle to an allocation of a [`Heap`] without reference counting.
///
/// Copies are independent handles to the same address, each with its own
/// flags. Nothing coordinates their release: releasing any of them frees
/// the memory, and the caller decides which one does.
#[derive(Debug)]
pub struct SmartPointer<T: Pointee> {
    mut_addr: usize,
    written: bool,
    referent: PhantomData<T>,
}

impl<T: Pointee> View for SmartPointer<T> {
    type V = AliasModel;

    closed spec fn view(&self) -> AliasModel {
        AliasModel { addr: self.mut_addr as nat, written: self.written }
    }
}

impl<T: Pointee> Clone for SmartPointer<T> {
    /// The same handle: same address, same flag.
    fn clone(&self) -> (r: Self)
        ensures
            r@ == self@,
    {
        self.copy()
    }
}

impl<T: Pointee> Copy for SmartPointer<T> {}

impl<T: Pointee> SmartPointer<T> {
    /// A null handle.
    pub fn null() -> (r: SmartPointer<T>)
        ensures
            r@ == (AliasModel { addr: 0, written: false }),
    {
        SmartPointer { mut_addr: 0, written: false, referent: PhantomData }
    }

    /// A handle holding `data`.
    pub fn from_value(heap: &mut Heap<T>, data: T) -> (r: SmartPointer<T>)
        ensures
            (r@, final(heap)@) == (AliasModel { addr: 0, written: false }).written_with(
                old(heap)@,
                data,
            ),
    {
        let mut sp = SmartPointer::null();
        sp.write(heap, data);
        sp
    }

    /// A copy of the handle: same address, same flag.
    pub fn copy(&self) -> (r: SmartPointer<T>)
        ensures
            r@ == self@,
    {
        SmartPointer { mut_addr: self.mut_addr, written: self.written, referent: PhantomData }
    }

    /// A handle to `addr`, taken to hold a value unless it is null.
    pub fn copy_from_mut_ptr(addr: usize) -> (r: SmartPointer<T>)
        ensures
            r@ == (AliasModel { addr: addr as nat, written: addr != 0 }),
    {
        SmartPointer { mut_addr: addr, written: addr != 0, referent: PhantomData }
    }

    /// The address; `0` for a null handle.
    pub fn addr(&self) -> (r: usize)
        ensures
            r as nat == self@.addr,
    {
        self.mut_addr
    }

    pub fn is_null(&self) -> (r: bool)
        ensures
            r == (self@.addr == 0),
    {
        self.mut_addr == 0
    }

    pub fn is_not_null(&self) -> (r: bool)
        ensures
            r == (self@.addr != 0),
    {
        !self.is_null()
    }

    /// The handle holds memory.
    pub fn is_allocated(&self) -> (r: bool)
        ensures
            r == (self@.addr != 0),
    {
        self.is_not_null()
    }

    /// A value was written through the handle.
    pub fn is_written(&self) -> (r: bool)
        ensures
            r == (self@.written && self@.addr != 0),
    {
        self.is_not_null() && self.written
    }

    /// The address of the memory, which must exist.
    pub fn cast_mut(&self) -> (r: usize)
        requires
            self@.addr != 0,
        ensures
            r as nat == self@.addr,
    {
        self.mut_addr
    }

    /// The address of the memory, which must exist.
    pub fn cast_const(&self) -> (r: usize)
        requires
            self@.addr != 0,
        ensures
            r as nat == self@.addr,
    {
        self.mut_addr
    }

    fn allocate(&mut self, heap: &mut Heap<T>)
        requires
            old(self)@.valid_in(old(heap)@),
        ensures
            (final(self)@, final(heap)@) == old(self)@.allocated(old(heap)@),
    {
        if self.is_allocated() {
            return;
        }
        self.mut_addr = heap.reserve();
    }

    /// Moves `data` into the handle's memory, which is allocated first when
    /// the handle is null.
    pub fn write(&mut self, heap: &mut Heap<T>, data: T)
        requires
            old(self)@.valid_in(old(heap)@),
        ensures
            (final(self)@, final(heap)@) == old(self)@.written_with(old(heap)@, data),
    {
        self.allocate(heap);
        heap.put(self.mut_addr, Some(data));
        self.written = true;
    }

    /// Exchanges the contents of the two handles' memory, leaving their
    /// flags as they are. A null handle gets memory first, unless both are
    /// null.
    pub fn swap(&mut self, other: &mut Self, heap: &mut Heap<T>)
        requires
            old(self)@.valid_in(old(heap)@),
            old(other)@.valid_in(old(heap)@),
        ensures
            (final(self)@, final(other)@, final(heap)@) == AliasModel::swapped(
                old(self)@,
                old(other)@,
                old(heap)@,
            ),
    {
        if self.is_null() && other.is_null() {
            return;
        }
        self.allocate(heap);
        other.allocate(heap);
        heap.swap(self.mut_addr, other.mut_addr);
    }

    /// Frees the handle's memory, if it has any, and makes it null. Other
    /// copies keep the address, and reading them fails from then on.
    pub fn release(&mut self, heap: &mut Heap<T>)
        requires
            old(self)@.valid_in(old(heap)@),
        ensures
            (final(self)@, final(heap)@) == old(self)@.released(old(heap)@),
    {
        if self.is_null() {
            return;
        }
        heap.put(self.mut_addr, None);
        self.mut_addr = 0;
        self.written = false;
    }

    /// A reference to the value, which must be readable.
    pub fn inner_ref<'a>(&self, heap: &'a Heap<T>) -> (r: &'a T)
        requires
            self@.valid_in(heap@),
            self@.readable(heap@),
        ensures
            self@.read_spec(heap@) == Ok::<T, PointerError>(*r),
    {
        heap.get(self.mut_addr).as_ref().unwrap()
    }

    /// A mutable reference to the value, which must be readable.
    pub fn inner_mut<'a>(&self, heap: &'a mut Heap<T>) -> (r: &'a mut T)
        requires
            self@.valid_in(old(heap)@),
            self@.readable(old(heap)@),
        ensures
            self@.read_spec(old(heap)@) == Ok::<T, PointerError>(*r),
            final(heap)@ == old(heap)@.with_slot(self@.addr, Some(*final(r))),
    {
        match heap.get_mut(self.mut_addr) {
            Some(v) => v,
            None => vstd::pervasive::unreached(),
        }
    }

    /// A reference to the value, if the handle can be read.
    pub fn as_ref<'a>(&self, heap: &'a Heap<T>) -> (r: Option<&'a T>)
        requires
            self@.valid_in(heap@),
        ensures
            r is Some <==> self@.readable(heap@),
            r is Some ==> self@.read_spec(heap@) == Ok::<T, PointerError>(*(r->0)),
    {
        if self.is_null() || !self.written {
            return None;
        }
        heap.get(self.mut_addr).as_ref()
    }

    /// A mutable reference to the value, if the handle can be read.
    pub fn as_mut<'a>(&self, heap: &'a mut Heap<T>) -> (r: Option<&'a mut T>)
        requires
            self@.valid_in(old(heap)@),
        ensures
            r is Some <==> self@.readable(old(heap)@),
            r is None ==> final(heap)@ == old(heap)@,
            r is Some ==> self@.read_spec(old(heap)@) == Ok::<T, PointerError>(*(r->0)),
            r is Some ==> final(heap)@ == old(heap)@.with_slot(self@.addr, Some(*final(r->0))),
    {
        if self.is_null() || !self.written {
            return None;
        }
        if heap.get(self.mut_addr).is_none() {
            return None;
        }
        Some(self.inner_mut(heap))
    }
}

impl<T: Pointee + Clone> SmartPointer<T> {
    /// Stores a clone of `data` in the handle's memory, which is allocated
    /// first when the handle is null.
    pub fn write_ref(&mut self, heap: &mut Heap<T>, data: &T)
        requires
            old(self)@.valid_in(old(heap)@),
        ensures
            ({
                let v = final(self)@.contents(final(heap)@)->0;
                &&& cloned(*data, v)
                &&& (final(self)@, final(heap)@) == old(self)@.written_with(old(heap)@, v)
            }),
    {
        self.write(heap, data.clone());
    }

    /// Stores a clone of `*data`, as `write_ref` does; `data` is left as it
    /// is.
    pub fn write_ref_mut(&mut self, heap: &mut Heap<T>, data: &mut T)
        requires
            old(self)@.valid_in(old(heap)@),
        ensures
            *final(data) == *old(data),
            ({
                let v = final(self)@.contents(final(heap)@)->0;
                &&& cloned(*old(data), v)
                &&& (final(self)@, final(heap)@) == old(self)@.written_with(old(heap)@, v)
            }),
    {
        self.write_ref(heap, data);
    }

    /// A handle holding a clone of `src`.
    pub fn from_ref(heap: &mut Heap<T>, src: &T) -> (r: SmartPointer<T>)
        ensures
            ({
                let v = r@.contents(final(heap)@)->0;
                &&& cloned(*src, v)
                &&& (r@, final(heap)@) == (AliasModel { addr: 0, written: false }).written_with(
                    old(heap)@,
                    v,
                )
            }),
    {
        let mut sp = SmartPointer::null();
        sp.write_ref(heap, src);
        sp
    }

    /// A handle holding a clone of `*src`; `src` is left as it is.
    pub fn from_ref_mut(heap: &mut Heap<T>, src: &mut T) -> (r: SmartPointer<T>)
        ensures
            *final(src) == *old(src),
            ({
                let v = r@.contents(final(heap)@)->0;
                &&& cloned(*old(src), v)
                &&& (r@, final(heap)@) == (AliasModel { addr: 0, written: false }).written_with(
                    old(heap)@,
                    v,
                )
            }),
    {
        let mut sp = SmartPointer::null();
        sp.write_ref_mut(heap, src);
        sp
    }

    /// A handle over a fresh allocation holding a clone of `data`.
    pub fn copy_from_ref(heap: &mut Heap<T>, data: &T) -> (r: SmartPointer<T>)
        ensures
            ({
                let v = r@.contents(final(heap)@)->0;
                &&& cloned(*data, v)
                &&& (r@, final(heap)@) == (AliasModel { addr: 0, written: false }).written_with(
                    old(heap)@,
                    v,
                )
            }),
    {
        SmartPointer::from_ref(heap, data)
    }

    /// A clone of the value, or why there is none: the handle is null, was
    /// never written, or its memory was released through another copy.
    pub fn read(&self, heap: &Heap<T>) -> (r: Result<T, PointerError>)
        requires
            self@.valid_in(heap@),
        ensures
            read_as(self@.read_spec(heap@), r),
    {
        if self.is_null() {
            return Err(PointerError::NullPointer);
        }
        if !self.written {
            return Err(PointerError::NotWritten { addr: self.mut_addr });
        }
        match heap.get(self.mut_addr) {
            Some(v) => Ok(v.clone()),
            None => Err(PointerError::Released { addr: self.mut_addr }),
        }
    }

    /// A clone of the value, if the handle can be read.
    pub fn try_read(&self, heap: &Heap<T>) -> (r: Option<T>)
        requires
            self@.valid_in(heap@),
        ensures
            r is Some <==> self@.readable(heap@),
            r is Some ==> cloned(self@.contents(heap@)->0, r->0),
    {
        match self.read(heap) {
            Ok(v) => Some(v),
            Err(_) => None,
        }
    }
}

impl<T: Pointee + PartialEq> SmartPointer<T> {
    /// Equality of handles. Handles at one address are equal without a look
    /// at the values. Otherwise a null handle equals no other, and two
    /// handles with memory compare what it holds: two values by `T`'s own
    /// equality, and memory without a value equals only memory without one.
    pub fn eq(&self, other: &Self, heap: &Heap<T>) -> (r: bool)
        requires
            self@.valid_in(heap@),
            other@.valid_in(heap@),
        ensures
            self@.addr == other@.addr ==> r,
            self@.addr != other@.addr && (self@.addr == 0 || other@.addr == 0) ==> !r,
            self@.addr != other@.addr && self@.addr != 0 && other@.addr != 0 ==> match (
                self@.contents(heap@),
                other@.contents(heap@),
            ) {
                (Some(a), Some(b)) => T::obeys_eq_spec() ==> r == a.eq_spec(&b),
                (a, b) => r == (a is None && b is None),
            },
    {
        if self.mut_addr == other.mut_addr {
            return true;
        }
        if self.is_null() || other.is_null() {
            return false;
        }
        match (heap.get(self.mut_addr), heap.get(other.mut_addr)) {
            (Some(a), Some(b)) => a.eq(b),
            (None, None) => true,
            _ => false,
        }
    }
}

impl<T: Pointee + PartialOrd> SmartPointer<T> {
    /// Ordering of handles: none for a null handle; equal for handles at
    /// one address; otherwise `T`'s own ordering of the two values, and
    /// none where either memory holds no value.
    pub fn partial_cmp(&self, other: &Self, heap: &Heap<T>) -> (r: Option<std::cmp::Ordering>)
        requires
            self@.valid_in(heap@),
            other@.valid_in(heap@),
        ensures
            self@.addr == 0 ==> r is None,
            self@.addr != 0 && self@.addr == other@.addr ==> r == Some(std::cmp::Ordering::Equal),
            self@.addr != 0 && self@.addr != other@.addr ==> match (
                self@.contents(heap@),
                other@.contents(heap@),
            ) {
                (Some(a), Some(b)) => T::obeys_partial_cmp_spec() ==> r == a.partial_cmp_spec(&b),
                _ => r is None,
            },
    {
        if self.is_null() {
            return None;
        }
        if self.mut_addr == other.mut_addr {
            return Some(std::cmp::Ordering::Equal);
        }
        if other.is_null() {
            return None;
        }
        match (heap.get(self.mut_addr), heap.get(other.mut_addr)) {
            (Some(a), Some(b)) => a.partial_cmp(b),
            _ => None,
        }
    }
}

impl<T: Pointee + Ord> SmartPointer<T> {
    /// Total ordering of handles: a null handle comes first, and before
    /// every handle with memory; otherwise what the memory holds is
    /// compared, memory without a value first and two values by `T`'s own
    /// ordering.
    pub fn cmp(&self, other: &Self, heap: &Heap<T>) -> (r: std::cmp::Ordering)
        requires
            self@.valid_in(heap@),
            other@.valid_in(heap@),
        ensures
            self@.addr == 0 ==> r == std::cmp::Ordering::Less,
            self@.addr != 0 && other@.addr == 0 ==> r == std::cmp::Ordering::Greater,
            self@.addr != 0 && other@.addr != 0 ==> match (
                self@.contents(heap@),
                other@.contents(heap@),
            ) {
                (Some(a), Some(b)) => T::obeys_cmp_spec() ==> r == a.cmp_spec(&b),
                (None, None) => r == std::cmp::Ordering::Equal,
                (None, Some(_)) => r == std::cmp::Ordering::Less,
                (Some(_), None) => r == std::cmp::Ordering::Greater,
            },
    {
        if self.is_null() {
            return std::cmp::Ordering::Less;
        }
        if other.is_null() {
            return std::cmp::Ordering::Greater;
        }
        match (heap.get(self.mut_addr), heap.get(other.mut_addr)) {
            (Some(a), Some(b)) => a.cmp(b),
            (None, None) => std::cmp::Ordering::Equal,
            (None, Some(_)) => std::cmp::Ordering::Less,
            (Some(_), None) => std::cmp::Ordering::Greater,
        }
    }
}

} // verus!
