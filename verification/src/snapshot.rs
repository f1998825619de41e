//! What one sampling pass yields: a reading per processor core and one of
//! memory, bundled so that they travel and are replaced together.

use crate::memory::{used_of, MemoryView, RamUsage};
use vstd::prelude::*;

verus! {

/// A processor core's reading as plain values.
pub struct CpuView {
    pub core_index: nat,
    pub brand: Seq<char>,
    pub model_name: Seq<char>,
    pub usage_percent: nat,
    pub frequency_mhz: nat,
}

/// What a source reports of one core, as it comes: nothing is known of the
/// usage but that it fits a byte.
#[derive(Debug)]
pub struct CoreFigures {
    /// The brand of the processor.
    pub brand: String,
    /// The name of the core's model.
    pub model_name: String,
    /// How busy the core is, in whole percent.
    pub usage_percent: u8,
    /// The core's frequency in MHz.
    pub frequency_mhz: u64,
}

impl CoreFigures {
    /// The reading that these figures give for the core at `core_index`: the
    /// figures as they are, but a usage above 100 percent counts as 100.
    pub open spec fn reading(self, core_index: nat) -> CpuView {
        CpuView {
            core_index,
            brand: self.brand@,
            model_name: self.model_name@,
            usage_percent: if self.usage_percent <= 100 {
                self.usage_percent as nat
            } else {
                100
            },
            frequency_mhz: self.frequency_mhz as nat,
        }
    }
}

/// The readings that the figures of all cores give, each core at the index
/// at which its figures stand.
pub open spec fn readings_of(cores: Seq<CoreFigures>) -> Seq<CpuView> {
    Seq::new(cores.len(), |i: int| cores[i].reading(i as nat))
}

impl CpuView {
    /// What holds of every core's reading: its usage is at most 100 percent.
    pub open spec fn consistent(self) -> bool {
        self.usage_percent <= 100
    }
}

/// The state of one processor core at one moment. Its usage is a whole
/// percentage, at most 100.
#[derive(Debug)]
pub struct CpuReading {
    core_index: usize,
    brand: String,
    model_name: String,
    usage_percent: u8,
    frequency_mhz: u64,
}

impl View for CpuReading {
    type V = CpuView;

    closed spec fn view(&self) -> CpuView {
        CpuView {
            core_index: self.core_index as nat,
            brand: self.brand@,
            model_name: self.model_name@,
            usage_percent: self.usage_percent as nat,
            frequency_mhz: self.frequency_mhz as nat,
        }
    }
}

impl CpuReading {
    #[verifier::type_invariant]
    spec fn bounded(self) -> bool {
        self.usage_percent <= 100
    }

    /// A reading of the core at `core_index`; none where the usage is above
    /// 100 percent.
    pub fn new(
        core_index: usize,
        brand: String,
        model_name: String,
        usage_percent: u8,
        frequency_mhz: u64,
    ) -> (reading: Option<CpuReading>)
        ensures
            reading.is_some() <==> usage_percent <= 100,
            reading.is_some() ==> reading.unwrap()@ == (CpuView {
                core_index: core_index as nat,
                brand: brand@,
                model_name: model_name@,
                usage_percent: usage_percent as nat,
                frequency_mhz: frequency_mhz as nat,
            }),
    {
        if usage_percent <= 100 {
            Some(CpuReading { core_index, brand, model_name, usage_percent, frequency_mhz })
        } else {
            None
        }
    }

    /// A reading of the core at `core_index` from what a source reports: a
    /// usage above 100 percent counts as 100.
    pub fn capped(
        core_index: usize,
        brand: String,
        model_name: String,
        usage_percent: u8,
        frequency_mhz: u64,
    ) -> (reading: CpuReading)
        ensures
            reading@ == (CpuView {
                core_index: core_index as nat,
                brand: brand@,
                model_name: model_name@,
                usage_percent: if usage_percent <= 100 {
                    usage_percent as nat
                } else {
                    100
                },
                frequency_mhz: frequency_mhz as nat,
            }),
    {
        let usage_percent: u8 = if usage_percent <= 100 {
            usage_percent
        } else {
            100
        };
        CpuReading { core_index, brand, model_name, usage_percent, frequency_mhz }
    }

    /// The core's place among the cores, counted from 0.
    pub fn core_index(&self) -> (index: usize)
        ensures
            index == self@.core_index,
            self@.consistent(),
    {
        proof {
            use_type_invariant(self);
        }
        self.core_index
    }

    /// The brand of the processor.
    pub fn brand(&self) -> (text: &String)
        ensures
            text@ == self@.brand,
    {
        &self.brand
    }

    /// The name of the core's model.
    pub fn model_name(&self) -> (text: &String)
        ensures
            text@ == self@.model_name,
    {
        &self.model_name
    }

    /// How busy the core is, in percent.
    pub fn usage_percent(&self) -> (percent: u8)
        ensures
            percent == self@.usage_percent,
            self@.consistent(),
    {
        proof {
            use_type_invariant(self);
        }
        self.usage_percent
    }

    /// The core's frequency in MHz.
    pub fn frequency_mhz(&self) -> (mhz: u64)
        ensures
            mhz == self@.frequency_mhz,
    {
        self.frequency_mhz
    }
}

impl Clone for CpuReading {
    /// A second reading with the same values.
    fn clone(&self) -> (copy: CpuReading)
        ensures
            copy@ == self@,
    {
        proof {
            use_type_invariant(self);
        }
        CpuReading {
            core_index: self.core_index,
            brand: self.brand.clone(),
            model_name: self.model_name.clone(),
            usage_percent: self.usage_percent,
            frequency_mhz: self.frequency_mhz,
        }
    }
}

/// A snapshot as plain values.
pub struct SnapshotView {
    pub cpus: Seq<CpuView>,
    pub memory: MemoryView,
}

impl SnapshotView {
    /// What holds of every snapshot: the memory reading says something, and
    /// the cores stand in order, each at its own index.
    pub open spec fn consistent(self) -> bool {
        &&& self.memory.available()
        &&& self.memory.consistent()
        &&& forall|i: int| 0 <= i < self.cpus.len() ==> (#[trigger] self.cpus[i]).core_index == i
        &&& forall|i: int| 0 <= i < self.cpus.len() ==> (#[trigger] self.cpus[i]).consistent()
    }
}

/// The readings of one sampling pass. A snapshot is made whole and never
/// changed: a newer one replaces it.
#[derive(Debug)]
pub struct Snapshot {
    cpus: Vec<CpuReading>,
    memory: RamUsage,
}

impl View for Snapshot {
    type V = SnapshotView;

    closed spec fn view(&self) -> SnapshotView {
        SnapshotView {
            cpus: Seq::new(self.cpus@.len(), |i: int| self.cpus@[i]@),
            memory: self.memory@,
        }
    }
}

impl Snapshot {
    #[verifier::type_invariant]
    spec fn whole(self) -> bool {
        self@.consistent()
    }

    /// Bundles the readings of one pass; none unless the memory reading says
    /// something and every core's reading stands at its own index.
    pub fn new(cpus: Vec<CpuReading>, memory: RamUsage) -> (snapshot: Option<Snapshot>)
        ensures
            snapshot.is_some() <==> memory@.available() && forall|i: int|
                0 <= i < cpus@.len() ==> (#[trigger] cpus@[i])@.core_index == i,
            snapshot.is_some() ==> snapshot.unwrap()@.memory == memory@,
            snapshot.is_some() ==> snapshot.unwrap()@.cpus == Seq::new(
                cpus@.len(),
                |i: int| cpus@[i]@,
            ),
            snapshot.is_some() ==> snapshot.unwrap()@.consistent(),
    {
        if memory.total_memory() == 0 {
            return None;
        }
        let mut i: usize = 0;
        while i < cpus.len()
            invariant
                i <= cpus@.len(),
                forall|j: int| 0 <= j < i ==> (#[trigger] cpus@[j])@.core_index == j,
                forall|j: int| 0 <= j < i ==> (#[trigger] cpus@[j])@.consistent(),
            decreases cpus@.len() - i,
        {
            if cpus[i].core_index() != i {
                return None;
            }
            i += 1;
        }
        Some(Snapshot { cpus, memory })
    }

    /// A snapshot of memory alone, with no core read; none unless the
    /// reading says something.
    pub fn of_memory(memory: RamUsage) -> (snapshot: Option<Snapshot>)
        ensures
            snapshot.is_some() <==> memory@.available(),
            snapshot.is_some() ==> snapshot.unwrap()@.memory == memory@,
            snapshot.is_some() ==> snapshot.unwrap()@.cpus == Seq::<CpuView>::empty(),
            snapshot.is_some() ==> snapshot.unwrap()@.consistent(),
    {
        let found = Snapshot::new(Vec::new(), memory);
        proof {
            if found.is_some() {
                assert(found.unwrap()@.cpus =~= Seq::<CpuView>::empty());
            }
        }
        found
    }

    /// A snapshot from what a source reports in one pass: the total memory,
    /// the part of it still available, and the cores' readings; none unless
    /// the total is above 0 and every core's reading stands at its own
    /// index.
    pub fn measured(total_memory: u64, available_memory: u64, cpus: Vec<CpuReading>) -> (snapshot:
        Option<Snapshot>)
        ensures
            snapshot.is_some() <==> total_memory > 0 && forall|i: int|
                0 <= i < cpus@.len() ==> (#[trigger] cpus@[i])@.core_index == i,
            snapshot.is_some() ==> snapshot.unwrap()@.memory == (MemoryView {
                total: total_memory as nat,
                used: used_of(total_memory as nat, available_memory as nat),
            }),
            snapshot.is_some() ==> snapshot.unwrap()@.cpus == Seq::new(
                cpus@.len(),
                |i: int| cpus@[i]@,
            ),
            snapshot.is_some() ==> snapshot.unwrap()@.consistent(),
    {
        Snapshot::new(cpus, RamUsage::from_available(total_memory, available_memory))
    }

    /// The memory reading.
    pub fn memory(&self) -> (memory: RamUsage)
        ensures
            memory@ == self@.memory,
            self@.consistent(),
    {
        proof {
            use_type_invariant(self);
        }
        self.memory
    }

    /// How many cores were read.
    pub fn cpu_count(&self) -> (count: usize)
        ensures
            count == self@.cpus.len(),
    {
        self.cpus.len()
    }

    /// The reading of the core at `index`; none where no such core was read.
    pub fn cpu(&self, index: usize) -> (reading: Option<&CpuReading>)
        ensures
            reading.is_some() <==> index < self@.cpus.len(),
            reading.is_some() ==> reading.unwrap()@ == self@.cpus[index as int],
            reading.is_some() ==> reading.unwrap()@.core_index == index,
    {
        proof {
            use_type_invariant(self);
        }
        if index < self.cpus.len() {
            Some(&self.cpus[index])
        } else {
            None
        }
    }
}

impl Clone for Snapshot {
    /// A second snapshot with the same readings.
    fn clone(&self) -> (copy: Snapshot)
        ensures
            copy@ == self@,
    {
        proof {
            use_type_invariant(self);
        }
        let mut cpus: Vec<CpuReading> = Vec::new();
        let mut i: usize = 0;
        while i < self.cpus.len()
            invariant
                i <= self.cpus@.len(),
                cpus@.len() == i,
                forall|j: int| 0 <= j < i ==> (#[trigger] cpus@[j])@ == self.cpus@[j]@,
            decreases self.cpus@.len() - i,
        {
            cpus.push(self.cpus[i].clone());
            i += 1;
        }
        assert(Seq::new(cpus@.len(), |j: int| cpus@[j]@) =~= self@.cpus);
        Snapshot { cpus, memory: self.memory }
    }
}

} // verus!
