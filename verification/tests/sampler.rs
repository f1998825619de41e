use rtop::handoff::LatestCell;
use rtop::memory::RamUsage;
use rtop::sampler::{Sampler, SamplerState};
use rtop::snapshot::Snapshot;

fn sample_using(used: u64) -> Snapshot {
    Snapshot::of_memory(RamUsage::new(1_000_000, used).unwrap()).unwrap()
}

#[test]
fn new_sampler_is_idle() {
    let sampler = Sampler::new(50);
    assert_eq!(sampler.state(), SamplerState::Idle);
    assert_eq!(sampler.interval_ms(), 50);
}

#[test]
fn sampler_starts_once() {
    let mut sampler = Sampler::new(50);
    assert!(sampler.start());
    assert_eq!(sampler.state(), SamplerState::Running);
    assert!(!sampler.start());
    assert_eq!(sampler.state(), SamplerState::Running);
    assert_eq!(sampler.interval_ms(), 50);
}

#[test]
fn stopped_sampler_does_not_start_again() {
    let mut sampler = Sampler::new(50);
    sampler.stop();
    assert_eq!(sampler.state(), SamplerState::Stopped);
    assert!(!sampler.start());
    assert_eq!(sampler.state(), SamplerState::Stopped);
}

#[test]
fn running_sampler_publishes_and_sleeps() {
    let mut sampler = Sampler::new(80);
    let mut cell = LatestCell::new();
    sampler.start();
    assert_eq!(sampler.deliver(&mut cell, Some(sample_using(11))), Some(80));
    assert_eq!(sampler.state(), SamplerState::Running);
    assert_eq!(cell.version(), 1);
    assert_eq!(cell.read().unwrap().memory().used_memory(), 11);
    assert_eq!(sampler.deliver(&mut cell, Some(sample_using(12))), Some(80));
    assert_eq!(cell.version(), 2);
    assert_eq!(cell.read().unwrap().memory().used_memory(), 12);
}

#[test]
fn failed_refresh_stops_the_sampler_and_keeps_the_cell() {
    let mut sampler = Sampler::new(80);
    let mut cell = LatestCell::new();
    sampler.start();
    sampler.deliver(&mut cell, Some(sample_using(11)));
    assert_eq!(sampler.deliver(&mut cell, None), None);
    assert_eq!(sampler.state(), SamplerState::Stopped);
    assert_eq!(cell.version(), 1);
    assert_eq!(cell.read().unwrap().memory().used_memory(), 11);
    assert_eq!(sampler.deliver(&mut cell, Some(sample_using(12))), None);
    assert_eq!(cell.version(), 1);
    assert_eq!(cell.read().unwrap().memory().used_memory(), 11);
}

#[test]
fn idle_sampler_publishes_nothing() {
    let mut sampler = Sampler::new(80);
    let mut cell = LatestCell::new();
    assert_eq!(sampler.deliver(&mut cell, Some(sample_using(11))), None);
    assert_eq!(sampler.state(), SamplerState::Idle);
    assert_eq!(cell.version(), 0);
    assert!(cell.read().is_none());
}

#[test]
fn stop_ends_a_running_sampler() {
    let mut sampler = Sampler::new(80);
    let mut cell = LatestCell::new();
    sampler.start();
    sampler.stop();
    assert_eq!(sampler.state(), SamplerState::Stopped);
    assert_eq!(sampler.deliver(&mut cell, Some(sample_using(11))), None);
    assert_eq!(cell.version(), 0);
}
