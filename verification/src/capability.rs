use vstd::prelude::*;

verus! {

/// A digital output line.
///
/// The line is modelled by the sequence of levels that have been
/// successfully driven onto it, `true` for high and `false` for low. A
/// failed call leaves that history unchanged: a level counts as driven
/// only when the call reports success.
pub trait OutputLine {
    /// The fault the underlying hardware reports when a level cannot be
    /// driven.
    type Fault;

    /// The levels successfully driven onto the line so far, oldest first.
    spec fn log(&self) -> Seq<bool>;

    /// Drive the line high.
    fn set_high(&mut self) -> (r: Result<(), Self::Fault>)
        ensures
            r is Ok ==> final(self).log() == old(self).log().push(true),
            r is Err ==> final(self).log() == old(self).log(),
    ;

    /// Drive the line low.
    fn set_low(&mut self) -> (r: Result<(), Self::Fault>)
        ensures
            r is Ok ==> final(self).log() == old(self).log().push(false),
            r is Err ==> final(self).log() == old(self).log(),
    ;
}

/// A single-shot countdown timer with microsecond granularity.
///
/// The timer is modelled by the sequence of countdowns that have been
/// started, in microseconds, oldest first. Starting a countdown always
/// records it; only the wait for expiry can fail.
pub trait CountdownTimer {
    /// The fault the underlying hardware reports when the wait fails.
    type Fault;

    /// The durations of all countdowns started so far, oldest first.
    spec fn log(&self) -> Seq<u32>;

    /// Start a countdown of `interval_us` microseconds.
    fn start(&mut self, interval_us: u32)
        ensures
            final(self).log() == old(self).log().push(interval_us),
    ;

    /// Block until the running countdown expires.
    fn wait(&mut self) -> (r: Result<(), Self::Fault>)
        ensures
            final(self).log() == old(self).log(),
    ;
}

} // verus!
