use rtop::handoff::LatestCell;
use rtop::memory::RamUsage;
use rtop::snapshot::Snapshot;

fn snapshot_using(used: u64) -> Snapshot {
    Snapshot::of_memory(RamUsage::new(1_000_000, used).unwrap()).unwrap()
}

#[test]
fn new_cell_holds_nothing() {
    let cell = LatestCell::new();
    assert_eq!(cell.version(), 0);
    assert!(cell.read().is_none());
    assert!(cell.read_newer(0).is_none());
}

#[test]
fn published_snapshot_can_be_read_again_and_again() {
    let mut cell = LatestCell::new();
    assert!(cell.publish(snapshot_using(7)));
    assert_eq!(cell.version(), 1);
    assert_eq!(cell.read().unwrap().memory().used_memory(), 7);
    assert_eq!(cell.read().unwrap().memory().used_memory(), 7);
    assert_eq!(cell.version(), 1);
}

#[test]
fn reader_sees_the_last_of_many_publications() {
    let mut cell = LatestCell::new();
    let n: u64 = 25;
    let mut i: u64 = 1;
    while i <= n {
        assert!(cell.publish(snapshot_using(i)));
        i += 1;
    }
    let (version, snapshot) = cell.read_newer(0).unwrap();
    assert_eq!(version, n);
    assert_eq!(snapshot.memory().used_memory(), n);
    assert_eq!(snapshot.memory().total_memory(), 1_000_000);
    assert_eq!(cell.read().unwrap().memory().used_memory(), n);
}

#[test]
fn reader_gets_nothing_older_than_it_has_seen() {
    let mut cell = LatestCell::new();
    cell.publish(snapshot_using(1));
    cell.publish(snapshot_using(2));
    assert!(cell.read_newer(2).is_none());
    assert!(cell.read_newer(3).is_none());
    assert!(cell.read_newer(u64::MAX).is_none());
    let (version, snapshot) = cell.read_newer(1).unwrap();
    assert_eq!(version, 2);
    assert_eq!(snapshot.memory().used_memory(), 2);
    cell.publish(snapshot_using(3));
    let (version, snapshot) = cell.read_newer(2).unwrap();
    assert_eq!(version, 3);
    assert_eq!(snapshot.memory().used_memory(), 3);
}

#[test]
fn versions_grow_with_each_publication() {
    let mut cell = LatestCell::new();
    let mut seen: u64 = 0;
    let mut i: u64 = 1;
    while i <= 10 {
        cell.publish(snapshot_using(i * 10));
        if i % 3 == 0 {
            let (version, snapshot) = cell.read_newer(seen).unwrap();
            assert!(version > seen);
            assert_eq!(version, i);
            assert_eq!(snapshot.memory().used_memory(), i * 10);
            seen = version;
        }
        i += 1;
    }
    assert_eq!(seen, 9);
    assert_eq!(cell.version(), 10);
}
