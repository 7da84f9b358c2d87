use vstd::prelude::*;

use crate::dispatch::{check_dimension, supported_dim};
use crate::error::BridgeError;

verus! {

/// The holder of the objective callback of the run in flight.
///
/// At most one run holds it at a time: a second run is refused instead of
/// overwriting the callback of the first, and the slot is emptied when a run ends.
pub struct CallbackSlot<F> {
    current: Option<F>,
}

impl<F: Copy> CallbackSlot<F> {
    /// The callback of the run in flight, if any.
    pub closed spec fn view(&self) -> Option<F> {
        self.current
    }

    /// An empty slot.
    pub fn new() -> (r: Self)
        ensures
            r@ == None::<F>,
    {
        CallbackSlot { current: None }
    }

    /// Whether a run holds the slot.
    pub fn is_held(&self) -> (r: bool)
        ensures
            r == self@.is_some(),
    {
        self.current.is_some()
    }

    /// Installs the callback of a new run; refused while another run holds the slot.
    pub fn acquire(&mut self, f: F) -> (r: Result<(), BridgeError>)
        ensures
            old(self)@.is_some() ==> r == Err::<(), BridgeError>(BridgeError::CallbackBusy)
                && final(self)@ == old(self)@,
            old(self)@.is_none() ==> r == Ok::<(), BridgeError>(()) && final(self)@ == Some(f),
    {
        if self.current.is_some() {
            Err(BridgeError::CallbackBusy)
        } else {
            self.current = Some(f);
            Ok(())
        }
    }

    /// The callback to forward an evaluation to.
    pub fn get(&self) -> (r: Result<F, BridgeError>)
        ensures
            self@ matches Some(f) ==> r == Ok::<F, BridgeError>(f),
            self@.is_none() ==> r == Err::<F, BridgeError>(BridgeError::CallbackNotSet),
    {
        match self.current {
            Some(f) => Ok(f),
            None => Err(BridgeError::CallbackNotSet),
        }
    }

    /// Ends the run in flight and empties the slot.
    pub fn release(&mut self)
        ensures
            final(self)@ == None::<F>,
    {
        self.current = None;
    }
}

/// Starts a run of dimension `n` with callback `f`. The dimension is checked
/// before the slot is touched, so a refused run leaves the slot as it was and
/// no evaluation can reach `f`.
pub fn begin_run<F: Copy>(slot: &mut CallbackSlot<F>, f: F, n: usize) -> (r: Result<usize, BridgeError>)
    ensures
        !supported_dim(n as int) ==> r == Err::<usize, BridgeError>(
            BridgeError::UnsupportedDimension { n },
        ) && final(slot)@ == old(slot)@,
        supported_dim(n as int) && old(slot)@.is_some() ==> r == Err::<usize, BridgeError>(
            BridgeError::CallbackBusy,
        ) && final(slot)@ == old(slot)@,
        supported_dim(n as int) && old(slot)@.is_none() ==> r == Ok::<usize, BridgeError>(n)
            && final(slot)@ == Some(f),
{
    let n = match check_dimension(n) {
        Err(e) => {
            return Err(e);
        },
        Ok(n) => n,
    };
    match slot.acquire(f) {
        Err(e) => Err(e),
        Ok(()) => Ok(n),
    }
}

} // verus!
