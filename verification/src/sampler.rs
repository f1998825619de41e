//! The sampler's course of life. The thread that samples asks this machine
//! what to do with each outcome of a refresh; the machine publishes and
//! decides whether the thread sleeps and goes on, or ends.

use crate::handoff::{CellView, LatestCell};
use crate::snapshot::{Snapshot, SnapshotView};
use vstd::prelude::*;

verus! {

/// Where a sampler stands.
#[derive(Clone, Copy, Debug, PartialEq, Eq, Structural)]
pub enum SamplerState {
    /// Made, not yet started.
    Idle,
    /// Sampling.
    Running,
    /// Ended, by a stop or by a refresh that failed. It does not start again.
    Stopped,
}

/// A sampler as plain values.
pub struct SamplerView {
    pub state: SamplerState,
    /// Milliseconds to sleep between two passes.
    pub interval_ms: nat,
}

impl SamplerView {
    /// Whether the outcome of a refresh gets published: the sampler runs,
    /// the refresh gave a snapshot, and the cell can still count it.
    pub open spec fn publishes(self, cell: CellView, outcome: Option<SnapshotView>) -> bool {
        self.state == SamplerState::Running && outcome.is_some() && cell.version() < u64::MAX
    }

    /// The sampler after the outcome of a refresh: it goes on where it
    /// published, and has ended where it ran and could not.
    pub open spec fn after(self, cell: CellView, outcome: Option<SnapshotView>) -> SamplerView {
        if self.publishes(cell, outcome) || self.state != SamplerState::Running {
            self
        } else {
            SamplerView { state: SamplerState::Stopped, ..self }
        }
    }

    /// The cell after the outcome of a refresh.
    pub open spec fn cell_after(self, cell: CellView, outcome: Option<SnapshotView>) -> CellView {
        if self.publishes(cell, outcome) {
            cell.publish(outcome.unwrap())
        } else {
            cell
        }
    }
}

/// The decisions of the thread that samples.
#[derive(Clone, Copy, Debug)]
pub struct Sampler {
    state: SamplerState,
    interval_ms: u64,
}

impl View for Sampler {
    type V = SamplerView;

    closed spec fn view(&self) -> SamplerView {
        SamplerView { state: self.state, interval_ms: self.interval_ms as nat }
    }
}

impl Sampler {
    /// A sampler that will sleep `interval_ms` milliseconds between passes.
    pub fn new(interval_ms: u64) -> (sampler: Sampler)
        ensures
            sampler@ == (SamplerView { state: SamplerState::Idle, interval_ms: interval_ms as nat }),
    {
        Sampler { state: SamplerState::Idle, interval_ms }
    }

    /// Where the sampler stands.
    pub fn state(&self) -> (state: SamplerState)
        ensures
            state == self@.state,
    {
        self.state
    }

    /// Milliseconds to sleep between two passes.
    pub fn interval_ms(&self) -> (ms: u64)
        ensures
            ms == self@.interval_ms,
    {
        self.interval_ms
    }

    /// Starts a sampler that was not started yet, and says whether it did.
    pub fn start(&mut self) -> (started: bool)
        ensures
            started <==> old(self)@.state == SamplerState::Idle,
            started ==> final(self)@ == (SamplerView {
                state: SamplerState::Running,
                ..old(self)@
            }),
            !started ==> final(self)@ == old(self)@,
    {
        match self.state {
            SamplerState::Idle => {
                self.state = SamplerState::Running;
                true
            },
            SamplerState::Running => false,
            SamplerState::Stopped => false,
        }
    }

    /// Ends the sampler, wherever it stands.
    pub fn stop(&mut self)
        ensures
            final(self)@ == (SamplerView { state: SamplerState::Stopped, ..old(self)@ }),
    {
        self.state = SamplerState::Stopped;
    }

    /// Takes the outcome of a refresh. A running sampler publishes the
    /// snapshot and returns the milliseconds to sleep before the next pass.
    /// It ends, and returns none, where the refresh gave nothing or the cell
    /// can count no further. A sampler that does not run publishes nothing.
    pub fn deliver(&mut self, cell: &mut LatestCell, outcome: Option<Snapshot>) -> (sleep_ms: Option<
        u64,
    >)
        ensures
            final(self)@ == old(self)@.after(
                old(cell)@,
                match outcome {
                    Some(snapshot) => Some(snapshot@),
                    None => None,
                },
            ),
            final(cell)@ == old(self)@.cell_after(
                old(cell)@,
                match outcome {
                    Some(snapshot) => Some(snapshot@),
                    None => None,
                },
            ),
            sleep_ms.is_some() <==> old(self)@.publishes(
                old(cell)@,
                match outcome {
                    Some(snapshot) => Some(snapshot@),
                    None => None,
                },
            ),
            sleep_ms.is_some() ==> sleep_ms.unwrap() == old(self)@.interval_ms,
    {
        match self.state {
            SamplerState::Running => {
                match outcome {
                    Some(snapshot) => {
                        if cell.publish(snapshot) {
                            Some(self.interval_ms)
                        } else {
                            self.state = SamplerState::Stopped;
                            None
                        }
                    },
                    None => {
                        self.state = SamplerState::Stopped;
                        None
                    },
                }
            },
            SamplerState::Idle => None,
            SamplerState::Stopped => None,
        }
    }
}

/// A sampler that has ended stays so, and so does one that was never
/// started: whatever a refresh gives, neither publishes.
pub proof fn only_a_running_sampler_publishes(
    sampler: SamplerView,
    cell: CellView,
    outcome: Option<SnapshotView>,
)
    requires
        sampler.state != SamplerState::Running,
    ensures
        sampler.after(cell, outcome) == sampler,
        sampler.cell_after(cell, outcome) == cell,
{
}

/// A refresh that fails ends a running sampler, and the cell keeps what it
/// held: its readers go on with the last snapshot.
pub proof fn failed_refresh_ends_sampling(sampler: SamplerView, cell: CellView)
    requires
        sampler.state == SamplerState::Running,
    ensures
        sampler.after(cell, None).state == SamplerState::Stopped,
        sampler.cell_after(cell, None) == cell,
{
}

} // verus!
