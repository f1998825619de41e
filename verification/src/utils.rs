//! The source of readings.

use crate::snapshot::{readings_of, CoreFigures, Snapshot};
use crate::system::sample;
use sysinfo::System;
use vstd::prelude::*;

verus! {

/// `System::new_all` of sysinfo makes a handle and reads everything. Nothing
/// is claimed of what it read.
pub assume_specification[ System::new_all ]() -> (sys: System)
;

/// The handle on the host that a sampler owns and reads through. No one
/// else refreshes it, so each reading is of one pass.
#[derive(Default, Debug)]
pub struct SystemState {
    pub sys: System,
}

impl SystemState {
    /// A source with everything read once.
    pub fn new() -> (state: SystemState) {
        let sys = System::new_all();
        Self { sys }
    }

    /// Reads memory anew and returns it as a snapshot, together with the
    /// readings that `cores` give, which the caller has read through `sys` in
    /// the same pass; none where the host could not be read.
    pub fn refresh(&mut self, cores: &[CoreFigures]) -> (snapshot: Option<Snapshot>)
        ensures
            snapshot.is_some() ==> snapshot.unwrap()@.consistent(),
            snapshot.is_some() ==> snapshot.unwrap()@.cpus == readings_of(cores@),
    {
        sample(&mut self.sys, cores)
    }
}

} // verus!
