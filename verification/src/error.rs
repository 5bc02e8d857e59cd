use vstd::prelude::*;

verus! {

/// Everything that can go wrong while talking to the display.
///
/// `E` is the fault type of the digital-output lines; a line failure is
/// passed through unchanged so the caller can inspect the hardware error.
#[derive(Debug, PartialEq, Eq)]
pub enum Error<E> {
    /// A bus width other than four bits was requested.
    UnsupportedBusWidth,
    /// The countdown timer failed while a delay was awaited.
    TimerError,
    /// A line could not be driven; carries the line's own fault.
    PinError(E),
}

/// True unless the operation stopped on a line fault. An operation made
/// of one command and one delay short-circuits only on its lines or on
/// its timer, so under this condition its wire traffic went out in full.
pub open spec fn no_pin_fault<T, E>(r: Result<T, Error<E>>) -> bool {
    !(r matches Err(Error::PinError(_)))
}

} // verus!
