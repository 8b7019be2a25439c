use vstd::prelude::*;

verus! {

/// Whether the process-wide setup of the container library has been done.
/// It is done once, before the first inspection.
#[derive(Clone, Copy, Debug, PartialEq, Eq, Structural)]
pub struct Startup {
    pub initialized: bool,
}

impl Startup {
    /// The state of a process that has not set the library up yet.
    pub fn new() -> (r: Startup)
        ensures
            !r.initialized,
    {
        Startup { initialized: false }
    }

    /// Called before an inspection: says whether the setup must run now, and
    /// records it as done.
    pub fn begin_inspection(&mut self) -> (setup_now: bool)
        ensures
            setup_now == !old(self).initialized,
            final(self).initialized,
    {
        let setup_now = !self.initialized;
        self.initialized = true;
        setup_now
    }
}

} // verus!
