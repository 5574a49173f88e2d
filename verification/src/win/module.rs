//! A module handle within a process.

use crate::win::Process;
use vstd::prelude::*;

verus! {

/// An opaque handle to a module loaded within a specific process.
#[derive(Clone, Copy, Debug)]
pub struct Module {
    process: Process,
    handle: u64,
}

impl Module {
    pub closed spec fn spec_process(&self) -> Process {
        self.process
    }

    pub closed spec fn spec_handle(&self) -> u64 {
        self.handle
    }

    pub fn new(process: Process, handle: u64) -> (r: Module)
        ensures
            r.spec_process() == process,
            r.spec_handle() == handle,
    {
        Module { process, handle }
    }

    pub fn process(&self) -> (r: &Process)
        ensures
            *r == self.spec_process(),
    {
        &self.process
    }

    pub fn handle(&self) -> (r: u64)
        ensures
            r == self.spec_handle(),
    {
        self.handle
    }
}

} // verus!
