use vstd::prelude::*;

use crate::capability::CountdownTimer;
use crate::capability::OutputLine;

verus! {

/// The fault a mock line or timer reports when told to fail.
#[derive(Debug, Clone, Copy, PartialEq, Eq, Structural)]
pub struct MockFault;

/// A digital output line for host-side harnesses and tests: it records
/// every level successfully driven onto it. While `working` is `false`,
/// every call fails with [`MockFault`] and records nothing.
pub struct MockLine {
    pub driven: Vec<bool>,
    pub working: bool,
}

impl MockLine {
    /// A line that has seen no levels yet and never fails.
    pub fn new() -> (r: MockLine)
        ensures
            r.log() == Seq::<bool>::empty(),
            r.working,
    {
        MockLine { driven: Vec::new(), working: true }
    }
}

impl OutputLine for MockLine {
    type Fault = MockFault;

    open spec fn log(&self) -> Seq<bool> {
        self.driven@
    }

    fn set_high(&mut self) -> (r: Result<(), MockFault>)
        ensures
            final(self).working == old(self).working,
            old(self).working <==> r is Ok,
    {
        if self.working {
            self.driven.push(true);
            Ok(())
        } else {
            Err(MockFault)
        }
    }

    fn set_low(&mut self) -> (r: Result<(), MockFault>)
        ensures
            final(self).working == old(self).working,
            old(self).working <==> r is Ok,
    {
        if self.working {
            self.driven.push(false);
            Ok(())
        } else {
            Err(MockFault)
        }
    }
}

/// A countdown timer for host-side harnesses and tests: it records the
/// duration of every countdown started and expires immediately. While
/// `working` is `false`, waiting fails with [`MockFault`].
pub struct MockTimer {
    pub started: Vec<u32>,
    pub working: bool,
}

impl MockTimer {
    /// A timer that has run no countdowns yet and never fails.
    pub fn new() -> (r: MockTimer)
        ensures
            r.log() == Seq::<u32>::empty(),
            r.working,
    {
        MockTimer { started: Vec::new(), working: true }
    }
}

impl CountdownTimer for MockTimer {
    type Fault = MockFault;

    open spec fn log(&self) -> Seq<u32> {
        self.started@
    }

    fn start(&mut self, interval_us: u32)
        ensures
            final(self).working == old(self).working,
    {
        self.started.push(interval_us);
    }

    fn wait(&mut self) -> (r: Result<(), MockFault>)
        ensures
            final(self).working == old(self).working,
            old(self).working <==> r is Ok,
    {
        if self.working {
            Ok(())
        } else {
            Err(MockFault)
        }
    }
}

} // verus!
