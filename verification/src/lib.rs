//! A memory dashboard for the terminal, as a library: readings of the host's
//! memory, the hand-off of snapshots from a sampler to a render loop, the
//! state of the interface and the text it shows.

pub mod clock;
pub mod handoff;
pub mod humanize;
pub mod input;
pub mod memory;
pub mod sampler;
pub mod snapshot;
pub mod system;
pub mod ui;
pub mod utils;
