//! A process-wide storage slot writable exactly once.
//!
//! Boot-computed singletons are published through such a cell before any
//! concurrent access begins: one writer fills it, every later reader only
//! looks. Writing twice, or reading before the write, is a boot-sequence
//! ordering bug, not a runtime condition, so those calls are ruled out by
//! contract; the explicit state machine [`CellState`] names the poisoned
//! state such a bug would reach.
use vstd::prelude::*;

verus! {

/// The life of a one-time cell: created empty, initialized exactly once,
/// read thereafter. A second initialization does not overwrite; it
/// poisons the cell, the state a double-init programming error reaches.
#[derive(Debug, PartialEq, Eq, Structural)]
pub enum CellState<T> {
    Empty,
    Initialized(T),
    Poisoned,
}

impl<T> CellState<T> {
    /// The transition taken by `init`: filling an empty cell stores the
    /// value; initializing any other state poisons the cell.
    pub fn init_step(self, value: T) -> (r: CellState<T>)
        ensures
            self is Empty ==> r == CellState::Initialized(value),
            !(self is Empty) ==> r == CellState::<T>::Poisoned,
    {
        match self {
            CellState::Empty => CellState::Initialized(value),
            _ => CellState::Poisoned,
        }
    }

    /// The observation made by `get`: only an initialized cell yields a
    /// value; reading the empty or poisoned cell yields nothing, the
    /// outcome a read-before-init programming error reaches.
    pub fn read(&self) -> (r: Option<&T>)
        ensures
            match *self {
                CellState::Initialized(v) => r == Some(&v),
                _ => r is None,
            },
    {
        match self {
            CellState::Initialized(v) => Some(v),
            _ => None,
        }
    }
}

/// A storage slot for a boot-time singleton, writable exactly once.
pub struct LateInit<T> {
    slot: Option<T>,
}

impl<T> LateInit<T> {
    /// Whether the one write has happened.
    pub closed spec fn is_init(self) -> bool {
        self.slot is Some
    }

    /// The stored value, once `is_init` holds.
    pub closed spec fn value(self) -> T {
        self.slot->0
    }

    /// A fresh, empty cell.
    pub fn new() -> (r: Self)
        ensures
            !r.is_init(),
    {
        Self { slot: None }
    }

    /// Stores the value. Calling this on an already-initialized cell is a
    /// fatal programming error, so the contract forbids it; afterwards the
    /// cell holds `value` forever.
    pub fn init(&mut self, value: T)
        requires
            !old(self).is_init(),
        ensures
            final(self).is_init(),
            final(self).value() == value,
    {
        self.slot = Some(value);
    }

    /// Reads the stored value. Calling this before `init` is a fatal
    /// programming error, so the contract forbids it.
    pub fn get(&self) -> (r: &T)
        requires
            self.is_init(),
        ensures
            *r == self.value(),
    {
        match &self.slot {
            Some(v) => v,
            None => unreached(),
        }
    }

    /// Mutable access to the stored value; the cell stays initialized and
    /// afterwards holds whatever the caller wrote through the reference.
    pub fn get_mut(&mut self) -> (r: &mut T)
        requires
            old(self).is_init(),
        ensures
            *r == old(self).value(),
            final(self).is_init(),
            final(self).value() == *final(r),
    {
        match &mut self.slot {
            Some(v) => v,
            None => unreached(),
        }
    }
}

} // verus!
