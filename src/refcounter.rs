use vstd::prelude::*;

verus! {

/// The value read through the counter cell at `cell` (1-based; `0` is the
/// null cell, which reads as zero).
pub open spec fn cell_value(cells: Seq<usize>, cell: nat) -> usize {
    if cell == 0 || cell > cells.len() {
        0
    } else {
        cells[cell - 1]
    }
}

/// The cells after a write of `value` through `cell`: a null cell gets a
/// fresh cell appended, any other cell is overwritten in place.
pub open spec fn cells_after_write(cells: Seq<usize>, cell: nat, value: usize) -> Seq<usize> {
    if cell == 0 {
        cells.push(value)
    } else {
        cells.update(cell - 1, value)
    }
}

/// The cell a handle reaches after a write through `cell`.
pub open spec fn cell_after_write(cells: Seq<usize>, cell: nat) -> nat {
    if cell == 0 {
        cells.len() + 1
    } else {
        cell
    }
}

/// Storage for counter cells. Cells are never reclaimed one by one: a cell
/// may still be read through other handles that share it, so it lives as
/// long as the store.
pub struct Counters {
    cells: Vec<usize>,
}

impl View for Counters {
    type V = Seq<usize>;

    closed spec fn view(&self) -> Seq<usize> {
        self.cells@
    }
}

impl Counters {
    /// A store without cells.
    pub fn new() -> (r: Counters)
        ensures
            r@ == Seq::<usize>::empty(),
    {
        Counters { cells: Vec::new() }
    }

    /// Appends a cell holding `value`; returns its 1-based address.
    fn push_cell(&mut self, value: usize) -> (cell: usize)
        ensures
            final(self)@ == old(self)@.push(value),
            cell as nat == final(self)@.len(),
    {
        self.cells.push(value);
        self.cells.len()
    }

    fn get(&self, cell: usize) -> (r: usize)
        requires
            1 <= cell <= self@.len(),
        ensures
            r == cell_value(self@, cell as nat),
    {
        self.cells[cell - 1]
    }

    fn set(&mut self, cell: usize, value: usize)
        requires
            1 <= cell <= old(self)@.len(),
        ensures
            final(self)@ == old(self)@.update(cell - 1, value),
    {
        self.cells.set(cell - 1, value);
    }
}

/// A handle to a shared counter cell, or the null handle, which reads as
/// zero. Copies of a handle share its cell: a change made through one is
/// seen through all of them.
#[derive(Clone, Copy, Debug)]
pub struct RefCounter {
    data: usize,
}

impl RefCounter {
    /// The 1-based address of the cell; `0` for the null handle.
    pub closed spec fn cell(self) -> nat {
        self.data as nat
    }

    /// The handle names a cell of `cells`, or is null.
    pub open spec fn valid_in(self, cells: Seq<usize>) -> bool {
        self.cell() <= cells.len()
    }

    /// What the handle reads in `cells`.
    pub open spec fn value_in(self, cells: Seq<usize>) -> usize {
        cell_value(cells, self.cell())
    }

    /// A null handle: no cell is allocated and it reads as zero.
    pub fn null() -> (r: RefCounter)
        ensures
            r.cell() == 0,
    {
        RefCounter { data: 0 }
    }

    /// Allocates a cell holding one.
    pub fn new(cells: &mut Counters) -> (r: RefCounter)
        ensures
            final(cells)@ == old(cells)@.push(1),
            r.cell() == final(cells)@.len(),
    {
        let data = cells.push_cell(1);
        RefCounter { data }
    }

    /// Allocates a cell holding `value`.
    pub fn from(cells: &mut Counters, value: usize) -> (r: RefCounter)
        ensures
            final(cells)@ == old(cells)@.push(value),
            r.cell() == final(cells)@.len(),
            r.value_in(final(cells)@) == value,
    {
        let mut counter = RefCounter::new(cells);
        counter.write(cells, value);
        counter
    }

    /// The counter's value: zero for the null handle.
    pub fn read(&self, cells: &Counters) -> (r: usize)
        requires
            self.valid_in(cells@),
        ensures
            r == self.value_in(cells@),
    {
        if self.data == 0 {
            0
        } else {
            cells.get(self.data)
        }
    }

    /// Stores `value`, allocating the cell first when the handle is null.
    pub fn write(&mut self, cells: &mut Counters, value: usize)
        requires
            old(self).valid_in(old(cells)@),
        ensures
            final(self).cell() == cell_after_write(old(cells)@, old(self).cell()),
            final(cells)@ == cells_after_write(old(cells)@, old(self).cell(), value),
            final(self).value_in(final(cells)@) == value,
    {
        if self.data == 0 {
            self.data = cells.push_cell(value);
        } else {
            cells.set(self.data, value);
        }
    }

    /// Sets the counter back to one.
    pub fn reset(&mut self, cells: &mut Counters)
        requires
            old(self).valid_in(old(cells)@),
        ensures
            final(self).cell() == cell_after_write(old(cells)@, old(self).cell()),
            final(cells)@ == cells_after_write(old(cells)@, old(self).cell(), 1),
    {
        self.write(cells, 1);
    }

    /// Adds `by` to the counter.
    pub fn incr_by(&mut self, cells: &mut Counters, by: usize)
        requires
            old(self).valid_in(old(cells)@),
            old(self).value_in(old(cells)@) + by <= usize::MAX,
        ensures
            final(self).cell() == cell_after_write(old(cells)@, old(self).cell()),
            final(cells)@ == cells_after_write(
                old(cells)@,
                old(self).cell(),
                (old(self).value_in(old(cells)@) + by) as usize,
            ),
    {
        let value = self.read(cells);
        self.write(cells, value + by);
    }

    /// Adds one to the counter.
    pub fn incr(&mut self, cells: &mut Counters)
        requires
            old(self).valid_in(old(cells)@),
            old(self).value_in(old(cells)@) < usize::MAX,
        ensures
            final(self).cell() == cell_after_write(old(cells)@, old(self).cell()),
            final(cells)@ == cells_after_write(
                old(cells)@,
                old(self).cell(),
                (old(self).value_in(old(cells)@) + 1) as usize,
            ),
    {
        self.incr_by(cells, 1);
    }

    /// Subtracts `by` from the counter. A decrement larger than the value
    /// leaves the counter as it is.
    pub fn decr_by(&mut self, cells: &mut Counters, by: usize)
        requires
            old(self).valid_in(old(cells)@),
        ensures
            old(self).value_in(old(cells)@) >= by ==> {
                &&& final(self).cell() == cell_after_write(old(cells)@, old(self).cell())
                &&& final(cells)@ == cells_after_write(
                    old(cells)@,
                    old(self).cell(),
                    (old(self).value_in(old(cells)@) - by) as usize,
                )
            },
            old(self).value_in(old(cells)@) < by ==> {
                &&& *final(self) == *old(self)
                &&& final(cells)@ == old(cells)@
            },
    {
        let value = self.read(cells);
        if value >= by {
            self.write(cells, value - by);
        }
    }

    /// Subtracts one from the counter, which stays at zero once there.
    pub fn decr(&mut self, cells: &mut Counters)
        requires
            old(self).valid_in(old(cells)@),
        ensures
            old(self).value_in(old(cells)@) >= 1 ==> {
                &&& final(self).cell() == cell_after_write(old(cells)@, old(self).cell())
                &&& final(cells)@ == cells_after_write(
                    old(cells)@,
                    old(self).cell(),
                    (old(self).value_in(old(cells)@) - 1) as usize,
                )
            },
            old(self).value_in(old(cells)@) < 1 ==> {
                &&& *final(self) == *old(self)
                &&& final(cells)@ == old(cells)@
            },
    {
        self.decr_by(cells, 1);
    }

    /// Detaches the handle from its cell, which then reads as zero through
    /// this handle. The cell itself stays with the store, since other
    /// handles may still share it.
    pub fn drain(&mut self)
        ensures
            final(self).cell() == 0,
    {
        self.data = 0;
    }

    /// A reference to the counter's value (zero for the null handle).
    pub fn inner_ref<'a>(&self, cells: &'a Counters) -> (r: &'a usize)
        requires
            self.valid_in(cells@),
        ensures
            *r == self.value_in(cells@),
    {
        if self.data == 0 {
            &0
        } else {
            &cells.cells[self.data - 1]
        }
    }

    /// A mutable reference to the counter's cell, which is allocated
    /// holding zero first when the handle is null.
    pub fn inner_mut<'a>(&mut self, cells: &'a mut Counters) -> (r: &'a mut usize)
        requires
            old(self).valid_in(old(cells)@),
        ensures
            final(self).cell() == cell_after_write(old(cells)@, old(self).cell()),
            *r == old(self).value_in(old(cells)@),
            final(cells)@ == cells_after_write(old(cells)@, old(self).cell(), *final(r)),
    {
        if self.data == 0 {
            self.data = cells.push_cell(0);
        }
        &mut cells.cells[self.data - 1]
    }
}

} // verus!
