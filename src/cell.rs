use vstd::prelude::*;

verus! {

/// The abstract contents of a storage cell: the slot that may hold one value,
/// and the readiness flag that says whether that value has been published.
pub struct CellState<T> {
    pub slot: Option<T>,
    pub ready: bool,
}

/// A cell with no value in it and the flag down.
pub open spec fn vacant<T>() -> CellState<T> {
    CellState { slot: None, ready: false }
}

/// A cell is consistent when a raised flag always has a value behind it.
pub open spec fn consistent<T>(s: CellState<T>) -> bool {
    s.ready ==> s.slot is Some
}

/// The state after a value has been written into the slot and published.
pub open spec fn delivered<T>(s: CellState<T>, value: T) -> CellState<T> {
    CellState { slot: Some(value), ready: true }
}

/// The state after a take: the flag is cleared, and a published value leaves the slot.
pub open spec fn collected_state<T>(s: CellState<T>) -> CellState<T> {
    if s.ready {
        vacant()
    } else {
        CellState { slot: s.slot, ready: false }
    }
}

/// What a take hands out: the published value, or nothing while none is published.
pub open spec fn collected_value<T>(s: CellState<T>) -> Option<T> {
    if s.ready {
        s.slot
    } else {
        None
    }
}

/// The value that tearing the cell down finalizes, if any.
pub open spec fn leftover<T>(s: CellState<T>) -> Option<T> {
    s.slot
}

/// Storage for at most one value of `T` together with its readiness flag.
///
/// The slot is a tagged union (present or absent), so no operation can ever
/// observe a value that was not fully written.
pub struct StorageCell<T> {
    slot: Option<T>,
    ready: bool,
}

impl<T> View for StorageCell<T> {
    type V = CellState<T>;

    closed spec fn view(&self) -> CellState<T> {
        CellState { slot: self.slot, ready: self.ready }
    }
}

impl<T> StorageCell<T> {
    #[verifier::type_invariant]
    spec fn flag_has_value(self) -> bool {
        self.ready ==> self.slot is Some
    }

    /// An empty cell.
    pub fn new() -> (r: Self)
        ensures
            r@ == vacant::<T>(),
    {
        StorageCell { slot: None, ready: false }
    }

    /// Returns the cell to the empty state; a value still held is dropped.
    pub fn reset(&mut self)
        ensures
            final(self)@ == vacant::<T>(),
    {
        *self = StorageCell::new();
    }

    /// Stores `value` in the slot without publishing it.
    pub fn write(&mut self, value: T)
        ensures
            final(self)@ == (CellState { slot: Some(value), ready: old(self)@.ready }),
    {
        self.slot = Some(value);
    }

    /// Raises the readiness flag over the value already in the slot.
    pub fn publish_ready(&mut self)
        requires
            old(self)@.slot is Some,
        ensures
            final(self)@ == (CellState { slot: old(self)@.slot, ready: true }),
    {
        self.ready = true;
    }

    /// Clears the readiness flag and reports whether it was raised.
    pub fn try_take_ready(&mut self) -> (r: bool)
        ensures
            r == old(self)@.ready,
            final(self)@ == (CellState { slot: old(self)@.slot, ready: false }),
    {
        let was = self.ready;
        self.ready = false;
        was
    }

    /// Moves the value out of the slot once its flag has been taken down.
    pub fn read_value(&mut self) -> (r: T)
        requires
            old(self)@.slot is Some,
            !old(self)@.ready,
        ensures
            old(self)@.slot == Some(r),
            final(self)@ == vacant::<T>(),
    {
        let mut previous = StorageCell::new();
        std::mem::swap(self, &mut previous);
        previous.slot.unwrap()
    }

    /// Whether a published value waits in the cell; a raised flag always has
    /// a value behind it.
    pub fn is_ready(&self) -> (r: bool)
        ensures
            r == self@.ready,
            consistent(self@),
    {
        proof {
            use_type_invariant(self);
        }
        self.ready
    }

    /// Whether a receiver would still have to wait: no value is published.
    pub fn is_waiting(&self) -> (r: bool)
        ensures
            r == !self@.ready,
    {
        !self.ready
    }

    /// Writes `value` and publishes it.
    pub fn deliver(self, value: T) -> (r: (Self, ()))
        ensures
            r.0@ == delivered(self@, value),
    {
        let mut cell = self;
        cell.write(value);
        cell.publish_ready();
        (cell, ())
    }

    /// Takes the published value out of the cell, if one is published.
    pub fn collect(self) -> (r: (Self, Option<T>))
        ensures
            r.0@ == collected_state(self@),
            r.1 == collected_value(self@),
    {
        proof {
            use_type_invariant(&self);
        }
        let mut cell = self;
        if cell.try_take_ready() {
            let v = cell.read_value();
            (cell, Some(v))
        } else {
            (cell, None)
        }
    }

    /// Takes the published value out of a cell whose flag is raised.
    pub fn take_published(self) -> (r: (Self, T))
        requires
            self@.ready,
        ensures
            Some(r.1) == collected_value(self@),
            r.0@ == collected_state(self@),
    {
        proof {
            use_type_invariant(&self);
        }
        let (cell, taken) = self.collect();
        (cell, taken.unwrap())
    }

    /// Tears the cell down, handing out the value that would be finalized.
    pub fn into_leftover(self) -> (r: Option<T>)
        ensures
            r == leftover(self@),
    {
        self.slot
    }
}

impl<T> Default for StorageCell<T> {
    fn default() -> (r: Self)
        ensures
            r@ == vacant::<T>(),
    {
        StorageCell::new()
    }
}

/// A value sent is the value received: whatever state the cell was in, taking
/// after delivering `value` hands out exactly `value` and leaves the cell
/// empty, so teardown finalizes nothing further and the value is finalized
/// once overall.
pub proof fn lemma_receive_returns_sent<T>(s: CellState<T>, value: T)
    ensures
        collected_value(delivered(s, value)) == Some(value),
        collected_state(delivered(s, value)) == vacant::<T>(),
        leftover(collected_state(delivered(s, value))) is None,
{
}

/// With nothing ever sent, a take reads no value and teardown finalizes none.
pub proof fn lemma_unsent_finalizes_nothing<T>()
    ensures
        collected_value(vacant::<T>()) is None,
        collected_state(vacant::<T>()) == vacant::<T>(),
        leftover(vacant::<T>()) is None,
{
}

/// A value sent and never received is finalized exactly once, at teardown.
pub proof fn lemma_unreceived_finalized_at_teardown<T>(s: CellState<T>, value: T)
    ensures
        leftover(delivered(s, value)) == Some(value),
{
}

/// Readiness is down before a send and up after it; only a take lowers it.
/// Probing readiness takes the cell by shared reference, so it changes nothing.
pub proof fn lemma_readiness<T>(s: CellState<T>, value: T)
    ensures
        !vacant::<T>().ready,
        delivered(s, value).ready,
        !collected_state(s).ready,
{
}

} // verus!
