//! The hand-off between the sampler and the render loop: a cell that holds
//! the newest snapshot. The writer replaces its content whole; the reader
//! copies it out. Behind a lock, each of the two holds the cell only for one
//! call, so neither waits for the other's work.

use crate::snapshot::{Snapshot, SnapshotView};
use vstd::prelude::*;

verus! {

/// The cell as plain values: every snapshot published so far, oldest first.
/// The cell itself keeps only the last of them.
pub struct CellView {
    pub history: Seq<SnapshotView>,
}

impl CellView {
    /// How many snapshots were published: the version of the newest.
    pub open spec fn version(self) -> nat {
        self.history.len()
    }

    /// The newest snapshot, if any was published.
    pub open spec fn latest(self) -> Option<SnapshotView> {
        if self.history.len() > 0 {
            Some(self.history.last())
        } else {
            None
        }
    }

    /// The cell after one more snapshot was published.
    pub open spec fn publish(self, snapshot: SnapshotView) -> CellView {
        CellView { history: self.history.push(snapshot) }
    }

    /// The cell after `snapshots` were published in their order.
    pub open spec fn publish_all(self, snapshots: Seq<SnapshotView>) -> CellView {
        CellView { history: self.history + snapshots }
    }

    /// What a reader gets who has seen everything up to version `seen`:
    /// the newest snapshot with its version, if it is newer than that.
    pub open spec fn newer_than(self, seen: nat) -> Option<(nat, SnapshotView)> {
        if self.version() > seen {
            Some((self.version(), self.history.last()))
        } else {
            None
        }
    }
}

/// The cell that holds the newest snapshot and counts the publications.
pub struct LatestCell {
    current: Option<Snapshot>,
    version: u64,
    history: Ghost<Seq<SnapshotView>>,
}

impl View for LatestCell {
    type V = CellView;

    closed spec fn view(&self) -> CellView {
        CellView { history: self.history@ }
    }
}

impl LatestCell {
    #[verifier::type_invariant]
    spec fn coherent(self) -> bool {
        &&& self.version == self.history@.len()
        &&& self.current.is_some() <==> self.history@.len() > 0
        &&& self.current.is_some() ==> self.current.unwrap()@ == self.history@.last()
    }

    /// A cell in which nothing was published yet.
    pub fn new() -> (cell: LatestCell)
        ensures
            cell@.history == Seq::<SnapshotView>::empty(),
    {
        LatestCell { current: None, version: 0, history: Ghost(Seq::empty()) }
    }

    /// Puts `snapshot` in place of what the cell held. Returns whether it
    /// did: it does not once the count of publications has reached the
    /// largest number that it can hold, and the cell then stays as it was.
    pub fn publish(&mut self, snapshot: Snapshot) -> (done: bool)
        ensures
            done <==> old(self)@.version() < u64::MAX,
            done ==> final(self)@ == old(self)@.publish(snapshot@),
            !done ==> final(self)@ == old(self)@,
    {
        proof {
            use_type_invariant(&*self);
        }
        if self.version == u64::MAX {
            return false;
        }
        let ghost history = self.history@.push(snapshot@);
        *self = LatestCell {
            current: Some(snapshot),
            version: self.version + 1,
            history: Ghost(history),
        };
        true
    }

    /// The number of publications so far.
    pub fn version(&self) -> (version: u64)
        ensures
            version == self@.version(),
    {
        proof {
            use_type_invariant(self);
        }
        self.version
    }

    /// A copy of the newest snapshot; none before the first publication.
    pub fn read(&self) -> (snapshot: Option<Snapshot>)
        ensures
            snapshot.is_some() <==> self@.latest().is_some(),
            snapshot.is_some() ==> snapshot.unwrap()@ == self@.latest().unwrap(),
    {
        proof {
            use_type_invariant(self);
        }
        match &self.current {
            Some(held) => Some(held.clone()),
            None => None,
        }
    }

    /// A copy of the newest snapshot with its version, for a reader who has
    /// seen everything up to version `seen`; none where there is nothing
    /// newer.
    pub fn read_newer(&self, seen: u64) -> (found: Option<(u64, Snapshot)>)
        ensures
            found.is_some() <==> self@.newer_than(seen as nat).is_some(),
            found.is_some() ==> found.unwrap().0 == self@.newer_than(seen as nat).unwrap().0
                && found.unwrap().1@ == self@.newer_than(seen as nat).unwrap().1,
    {
        proof {
            use_type_invariant(self);
        }
        if self.version > seen {
            match &self.current {
                Some(held) => Some((self.version, held.clone())),
                None => None,
            }
        } else {
            None
        }
    }
}

/// Latest value wins: after any number of publications, one or more, a
/// reader who has seen none of them gets the last one, whole, whatever was
/// published in between and whatever the cell held before.
pub proof fn latest_value_wins(cell: CellView, seen: nat, snapshots: Seq<SnapshotView>)
    requires
        seen <= cell.version(),
        snapshots.len() > 0,
    ensures
        cell.publish_all(snapshots).newer_than(seen) == Some(
            (cell.version() + snapshots.len(), snapshots.last()),
        ),
        cell.publish_all(snapshots).latest() == Some(snapshots.last()),
{
}

/// Publishing a sequence at once is publishing its snapshots one by one.
pub proof fn publish_all_is_repeated_publish(
    cell: CellView,
    snapshots: Seq<SnapshotView>,
    next: SnapshotView,
)
    ensures
        cell.publish_all(Seq::empty()) == cell,
        cell.publish_all(snapshots.push(next)) == cell.publish_all(snapshots).publish(next),
{
    assert(cell.history + Seq::<SnapshotView>::empty() =~= cell.history);
    assert(cell.history + snapshots.push(next) =~= (cell.history + snapshots).push(next));
}

/// A reader never goes back: what it gets is newer than all it has seen, and
/// it is the snapshot that was published under that version.
pub proof fn reads_follow_publication_order(cell: CellView, seen: nat)
    requires
        cell.newer_than(seen).is_some(),
    ensures
        cell.newer_than(seen).unwrap().0 > seen,
        cell.newer_than(seen).unwrap().0 <= cell.history.len(),
        cell.newer_than(seen).unwrap().1 == cell.history[cell.newer_than(seen).unwrap().0 - 1],
        cell.newer_than(cell.newer_than(seen).unwrap().0).is_none(),
{
}

} // verus!
