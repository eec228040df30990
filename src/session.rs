//! The decisions of a run of transmissions (a flush, or the start-up
//! commands): which frame goes next, and when the run ends with what result.
//! The caller performs each transmission and reports its outcome.
use vstd::prelude::*;
use crate::driver::Error;

verus! {

/// What the caller does next.
pub enum Action<E> {
    /// Send the frame with this index.
    Transmit(usize),
    /// The run is over, with this result.
    Finished(Result<(), Error<E>>),
}

/// The first action of a run of `total` frames.
pub open spec fn first_action<E>(total: int) -> Action<E> {
    if total > 0 {
        Action::Transmit(0)
    } else {
        Action::Finished(Ok(()))
    }
}

/// The action after frame `index` of `total` was sent with `outcome`: the
/// first failure ends the run and is returned, else the next frame follows.
pub open spec fn next_action<E>(index: int, total: int, outcome: Result<(), E>) -> Action<E> {
    match outcome {
        Err(e) => Action::Finished(Err(Error::Comm(e))),
        Ok(()) => if index + 1 < total {
            Action::Transmit((index + 1) as usize)
        } else {
            Action::Finished(Ok(()))
        },
    }
}

/// Starts a run of `total` frames.
pub fn start<E>(total: usize) -> (r: Action<E>)
    ensures
        r == first_action::<E>(total as int),
{
    if total > 0 {
        Action::Transmit(0)
    } else {
        Action::Finished(Ok(()))
    }
}

/// Decides what follows the transmission of frame `index` of `total`.
pub fn advance<E>(index: usize, total: usize, outcome: Result<(), E>) -> (r: Action<E>)
    requires
        index < total,
    ensures
        r == next_action(index as int, total as int, outcome),
{
    match outcome {
        Err(e) => Action::Finished(Err(Error::Comm(e))),
        Ok(()) => if index + 1 < total {
            Action::Transmit(index + 1)
        } else {
            Action::Finished(Ok(()))
        },
    }
}

/// The number of transmissions made and the result of a run of `total` frames
/// from frame `index` on, where the transport answers the k-th send with
/// `outcomes[k]`.
pub open spec fn run_from<E>(index: int, total: int, outcomes: Seq<Result<(), E>>) -> (int, Result<(), Error<E>>)
    decreases total - index,
{
    if index >= total || index < 0 {
        (0, Ok(()))
    } else {
        match outcomes[index] {
            Err(e) => (1, Err(Error::Comm(e))),
            Ok(()) => {
                let rest = run_from(index + 1, total, outcomes);
                (rest.0 + 1, rest.1)
            },
        }
    }
}

} // verus!
