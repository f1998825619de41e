//! One reading of the host's memory.

use vstd::prelude::*;

verus! {

/// `used / total` as a whole percentage, rounded to the nearest; a value
/// exactly between two percentages goes up.
pub open spec fn percent_of(used: nat, total: nat) -> nat
    recommends
        total > 0,
{
    (200 * used + total) / (2 * total)
}

/// What is in use never exceeds what there is.
pub proof fn used_of_within_total(total: nat, available: nat)
    ensures
        used_of(total, available) <= total,
{
}

/// A percentage of a part within its whole is at most 100, is 0 for an empty
/// part and 100 for the whole.
pub proof fn percent_of_bounds(used: nat, total: nat)
    requires
        total > 0,
        used <= total,
    ensures
        percent_of(used, total) <= 100,
        percent_of(0, total) == 0,
        percent_of(total, total) == 100,
{
    assert((200 * used + total) / (2 * total) <= 100) by (nonlinear_arith)
        requires
            used <= total,
            total > 0,
    ;
    assert((200 * 0 + total) / (2 * total) == 0) by (nonlinear_arith)
        requires
            total > 0,
    ;
    assert((200 * total + total) / (2 * total) == 100) by (nonlinear_arith)
        requires
            total > 0,
    ;
}

/// The memory in use, given what the host has and what of it is still
/// available: the difference, and nothing where more is reported available
/// than there is.
pub open spec fn used_of(total: nat, available: nat) -> nat {
    if available <= total {
        (total - available) as nat
    } else {
        0
    }
}

/// A reading of memory as plain values.
pub struct MemoryView {
    /// Bytes of memory that the host has.
    pub total: nat,
    /// Bytes of memory in use.
    pub used: nat,
}

impl MemoryView {
    /// Bytes of memory not in use.
    pub open spec fn free(self) -> nat {
        (self.total - self.used) as nat
    }

    /// Whether the reading says anything: a host without memory was not read.
    pub open spec fn available(self) -> bool {
        self.total > 0
    }

    /// What holds of every reading: the used part is within the total.
    pub open spec fn consistent(self) -> bool {
        self.used <= self.total <= u64::MAX
    }

    /// The used part as a whole percentage of the total; none for a reading
    /// that says nothing.
    pub open spec fn usage_percent(self) -> Option<nat> {
        if self.available() {
            Some(percent_of(self.used, self.total))
        } else {
            None
        }
    }
}

/// Total and used memory in bytes, taken in one pass. The used part never
/// exceeds the total.
#[derive(Clone, Copy, Debug)]
pub struct RamUsage {
    total_memory: u64,
    used_memory: u64,
}

impl View for RamUsage {
    type V = MemoryView;

    closed spec fn view(&self) -> MemoryView {
        MemoryView { total: self.total_memory as nat, used: self.used_memory as nat }
    }
}

impl RamUsage {
    #[verifier::type_invariant]
    spec fn bounded(self) -> bool {
        self.used_memory <= self.total_memory
    }

    /// A reading of `total_memory` bytes of which `used_memory` are in use;
    /// none where more is said to be in use than there is.
    pub fn new(total_memory: u64, used_memory: u64) -> (reading: Option<RamUsage>)
        ensures
            reading.is_some() <==> used_memory <= total_memory,
            reading.is_some() ==> reading.unwrap()@.total == total_memory
                && reading.unwrap()@.used == used_memory,
    {
        if used_memory <= total_memory {
            Some(RamUsage { total_memory, used_memory })
        } else {
            None
        }
    }

    /// A reading from the total and the part still available.
    pub fn from_available(total_memory: u64, available_memory: u64) -> (reading: RamUsage)
        ensures
            reading@.total == total_memory,
            reading@.used == used_of(total_memory as nat, available_memory as nat),
    {
        let used_memory: u64 = if available_memory <= total_memory {
            total_memory - available_memory
        } else {
            0
        };
        RamUsage { total_memory, used_memory }
    }

    /// A reading from the total and the part still available, as a source
    /// reports them; none where the total is 0, which is how a host that
    /// could not be read shows.
    pub fn measured(total_memory: u64, available_memory: u64) -> (reading: Option<RamUsage>)
        ensures
            reading.is_some() <==> total_memory > 0,
            reading.is_some() ==> reading.unwrap()@.total == total_memory
                && reading.unwrap()@.used == used_of(
                total_memory as nat,
                available_memory as nat,
            ),
    {
        if total_memory > 0 {
            Some(RamUsage::from_available(total_memory, available_memory))
        } else {
            None
        }
    }

    /// Bytes of memory that the host has.
    pub fn total_memory(&self) -> (bytes: u64)
        ensures
            bytes == self@.total,
            self@.consistent(),
    {
        proof {
            use_type_invariant(self);
        }
        self.total_memory
    }

    /// Bytes of memory in use.
    pub fn used_memory(&self) -> (bytes: u64)
        ensures
            bytes == self@.used,
            self@.consistent(),
    {
        proof {
            use_type_invariant(self);
        }
        self.used_memory
    }

    /// Bytes of memory not in use.
    pub fn free_memory(&self) -> (bytes: u64)
        ensures
            bytes == self@.free(),
            self@.consistent(),
    {
        proof {
            use_type_invariant(self);
        }
        self.total_memory - self.used_memory
    }

    /// Whether the reading says anything.
    pub fn is_available(&self) -> (yes: bool)
        ensures
            yes == self@.available(),
    {
        self.total_memory > 0
    }

    /// The used part as a whole percentage of the total, rounded to the
    /// nearest; none for a reading that says nothing, which has no ratio.
    pub fn usage_percent(&self) -> (percent: Option<u64>)
        ensures
            percent.is_some() <==> self@.available(),
            percent.is_some() ==> Some(percent.unwrap() as nat) == self@.usage_percent(),
            percent.is_some() ==> percent.unwrap() <= 100,
    {
        proof {
            use_type_invariant(self);
        }
        if self.total_memory == 0 {
            None
        } else {
            let used: u128 = self.used_memory as u128;
            let total: u128 = self.total_memory as u128;
            let p: u128 = (200 * used + total) / (2 * total);
            assert(p <= 100) by (nonlinear_arith)
                requires
                    p == (200 * used + total) / (2 * total),
                    used <= total,
                    total > 0,
            ;
            Some(p as u64)
        }
    }
}

impl Default for RamUsage {
    /// The reading before anything was read: no memory, none in use.
    fn default() -> (reading: RamUsage)
        ensures
            reading@.total == 0,
            reading@.used == 0,
    {
        RamUsage { total_memory: 0, used_memory: 0 }
    }
}

} // verus!
