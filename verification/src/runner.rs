//! The slot that holds the game run in progress: at most one run at a time.
use vstd::prelude::*;

verus! {

/// Why a run cannot start.
#[derive(Debug)]
pub enum RunnerError {
    /// A run holds the slot.
    AlreadyRunning,
}

/// Takes the slot for a new run holding `instance`; refused, with the slot left
/// as it is, while another run holds it.
pub fn claim_runner<T>(slot: &mut Option<T>, instance: T) -> (r: Result<(), RunnerError>)
    ensures
        (*old(slot)) is Some ==> r is Err && *final(slot) == *old(slot),
        (*old(slot)) is None ==> r is Ok && *final(slot) == Some(instance),
{
    if slot.is_some() {
        return Err(RunnerError::AlreadyRunning);
    }
    *slot = Some(instance);
    Ok(())
}

/// Frees the slot when a run ends.
pub fn release_runner<T>(slot: &mut Option<T>)
    ensures
        (*final(slot)) is None,
{
    *slot = None;
}

/// Takes the run out of the slot, to stop it; `None` when no run holds it.
pub fn take_runner<T>(slot: &mut Option<T>) -> (r: Option<T>)
    ensures
        r == *old(slot),
        (*final(slot)) is None,
{
    slot.take()
}

} // verus!
