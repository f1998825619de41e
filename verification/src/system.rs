//! Reading the host: its memory through sysinfo, its cores from the figures
//! that the caller has read.

use crate::memory::RamUsage;
use crate::snapshot::{readings_of, CoreFigures, CpuReading, Snapshot};
use sysinfo::{MemoryRefreshKind, RefreshKind, System};
use vstd::prelude::*;

verus! {

/// sysinfo's handle on the host: what it last read of memory, processors
/// and processes. Nothing inside it is visible here.
#[verifier::external_type_specification]
#[verifier::external_body]
pub struct ExSystem(sysinfo::System);

/// sysinfo's choice of what a refresh reads.
#[verifier::external_type_specification]
#[verifier::external_body]
pub struct ExRefreshKind(sysinfo::RefreshKind);

/// sysinfo's choice of what a refresh reads of memory.
#[verifier::external_type_specification]
#[verifier::external_body]
pub struct ExMemoryRefreshKind(sysinfo::MemoryRefreshKind);

/// `RefreshKind::everything` of sysinfo builds the choice that reads
/// processes, memory and processors. Nothing is claimed of the value.
pub assume_specification[ RefreshKind::everything ]() -> (kind: RefreshKind)
;

/// `MemoryRefreshKind::everything` of sysinfo builds the choice that reads
/// both RAM and swap. Nothing is claimed of the value.
pub assume_specification[ MemoryRefreshKind::everything ]() -> (kind: MemoryRefreshKind)
;

/// `RefreshKind::with_memory` of sysinfo sets the memory part of a choice.
/// Nothing is claimed of the value.
pub assume_specification[ RefreshKind::with_memory ](
    refreshes: RefreshKind,
    kind: MemoryRefreshKind,
) -> (chosen: RefreshKind)
;

/// `System::new_with_specifics` of sysinfo makes a handle and reads what the
/// choice names. Nothing is claimed of what it read.
pub assume_specification[ System::new_with_specifics ](refreshes: RefreshKind) -> (sys: System)
;

/// `System::refresh_memory` of sysinfo reads RAM and swap anew. Nothing is
/// claimed of the handle afterwards.
pub assume_specification[ System::refresh_memory ](sys: &mut System)
;

/// `System::total_memory` of sysinfo returns the RAM size in bytes, as last
/// read. Nothing is claimed of the number: it is 0 where nothing could be
/// read.
pub assume_specification[ System::total_memory ](sys: &System) -> (bytes: u64)
;

/// `System::available_memory` of sysinfo returns the bytes of RAM that are
/// available for use, as last read. Nothing is claimed of the number.
pub assume_specification[ System::available_memory ](sys: &System) -> (bytes: u64)
;

/// Reads the host's memory once, on a handle of its own, and returns the
/// total and the part in use, in bytes. The part in use is the total less
/// what the host reports as available, so it never exceeds the total.
pub fn get_ram_info() -> (info: (u64, u64))
    ensures
        info.1 <= info.0,
{
    let refresh_kind = RefreshKind::everything().with_memory(MemoryRefreshKind::everything());
    let mut sys = System::new_with_specifics(refresh_kind);
    let reading = read_memory(&mut sys);
    (reading.total_memory(), reading.used_memory())
}

/// Refreshes the memory figures of `sys` and takes total and available in
/// the same pass.
fn read_memory(sys: &mut System) -> (reading: RamUsage) {
    sys.refresh_memory();
    let total_memory = sys.total_memory();
    let available_memory = sys.available_memory();
    RamUsage::from_available(total_memory, available_memory)
}

/// A reading for each core from its figures, in their order: the reading at
/// an index is made of the figures at that index and carries the index.
pub fn read_cores(cores: &[CoreFigures]) -> (readings: Vec<CpuReading>)
    ensures
        readings@.len() == cores@.len(),
        forall|i: int|
            0 <= i < readings@.len() ==> (#[trigger] readings@[i])@ == cores@[i].reading(i as nat),
{
    let mut readings: Vec<CpuReading> = Vec::new();
    let mut i: usize = 0;
    while i < cores.len()
        invariant
            i <= cores@.len(),
            readings@.len() == i,
            forall|j: int|
                0 <= j < i ==> (#[trigger] readings@[j])@ == cores@[j].reading(j as nat),
        decreases cores@.len() - i,
    {
        let figures = &cores[i];
        let reading = CpuReading::capped(
            i,
            figures.brand.clone(),
            figures.model_name.clone(),
            figures.usage_percent,
            figures.frequency_mhz,
        );
        readings.push(reading);
        i += 1;
    }
    readings
}

/// Reads the memory of `sys` anew and bundles it with the readings that
/// `cores` give, which the caller has read in the same pass; none where the
/// host gave no total of memory, which is the sign that it could not be
/// read.
pub fn sample(sys: &mut System, cores: &[CoreFigures]) -> (snapshot: Option<Snapshot>)
    ensures
        snapshot.is_some() ==> snapshot.unwrap()@.consistent(),
        snapshot.is_some() ==> snapshot.unwrap()@.cpus == readings_of(cores@),
{
    sys.refresh_memory();
    let total_memory = sys.total_memory();
    let available_memory = sys.available_memory();
    let cpus = read_cores(cores);
    assert(Seq::new(cpus@.len(), |i: int| cpus@[i]@) =~= readings_of(cores@));
    Snapshot::measured(total_memory, available_memory, cpus)
}

} // verus!
